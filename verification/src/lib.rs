//! Tone generation for a timer-driven buzzer.
//!
//! The crate models a PWM/tone output channel driven by a hardware timer in
//! clear-timer-on-compare (CTC) mode, and a blocking tone sequencer on top of
//! it. The register arithmetic that turns a requested frequency into a
//! compare-register value, and the ordering of channel writes around a tone,
//! are stated in contracts and proved.

pub mod buzzer;
pub mod delay;
pub mod hal;
pub mod mock;
pub mod pwm;
