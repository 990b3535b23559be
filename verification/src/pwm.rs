//! Frequency-to-register arithmetic for a timer in CTC mode.
//!
//! A timer counting at `CLOCK_HZ / PRESCALER` ticks per second, toggling its
//! output pin on every compare match, produces a square wave whose full period
//! is `TOGGLE_FACTOR` compare intervals. The compare register therefore has to
//! hold `CLOCK_HZ / (PRESCALER * TOGGLE_FACTOR * hz) - 1` to approximate a
//! target frequency `hz`, clamped to the register's range.

use crate::hal::{ChannelError, ChannelEvent, SetDutyCycle, SetFrequency};
use vstd::prelude::*;

verus! {

/// CPU clock frequency in hertz assumed by the register arithmetic.
pub const CLOCK_HZ: u32 = 16_000_000;

/// Fixed divider applied to the CPU clock before it drives the timer counter.
pub const PRESCALER: u32 = 64;

/// Compare matches per output period: in toggle-on-compare mode the pin flips
/// at every match, so a full electrical cycle takes two matches.
pub const TOGGLE_FACTOR: u32 = 2;

/// Timer toggle events per second: one output period lasts
/// `register + 1` of these.
pub const TOGGLE_RATE_HZ: u32 = CLOCK_HZ / PRESCALER / TOGGLE_FACTOR;

/// The compare-register value that makes the timer toggle at `hz` output
/// cycles per second: `floor(TOGGLE_RATE_HZ / hz) - 1`, saturating to 0 when
/// the quotient is below 1 and clamped to the 16-bit register maximum.
pub open spec fn spec_register_value(hz: u32) -> u16
    recommends
        hz >= 1,
{
    let intervals = TOGGLE_RATE_HZ as int / hz as int;
    if intervals < 1 {
        0u16
    } else if intervals - 1 > u16::MAX {
        u16::MAX
    } else {
        (intervals - 1) as u16
    }
}

/// Derive the compare-register value for a target output frequency.
///
/// The quotient saturates instead of wrapping: a frequency above the toggle
/// rate yields register 0 (the shortest period), and a frequency so low that
/// the period overflows the register yields the register maximum.
pub fn register_value(hz: u32) -> (r: u16)
    requires
        hz >= 1,
    ensures
        r == spec_register_value(hz),
{
    let intervals: u32 = TOGGLE_RATE_HZ / hz;
    if intervals < 1 {
        0
    } else if intervals - 1 > u16::MAX as u32 {
        u16::MAX
    } else {
        (intervals - 1) as u16
    }
}

/// Control-register image that puts the timer into CTC mode with the fixed
/// prescaler: the waveform-generation bit WGM12 selects clear-timer-on-compare
/// counting, and the clock-select bit CS11 alone selects the
/// divide-by-64 prescaler.
pub const CTC_PRESCALE_64_BITS: u8 = (1u8 << 3) | (1u8 << 1);

/// Driver for one hardware timer used as a square-wave tone generator.
///
/// The driver owns the timer's compare register, modelled here by its current
/// value, and caches the upper bound it reports for duty values. In this CTC
/// configuration the compare register defines the output *period*, so mapping
/// duty writes onto the same register is only correct for 50%-duty,
/// frequency-only buzzers; independent duty control would need a second
/// compare unit. That constraint comes from the hardware, and the driver
/// keeps the mapping rather than hiding it.
pub struct BuzzerPwm {
    compare: u16,
    max: u16,
    trace: Ghost<Seq<ChannelEvent>>,
}

impl BuzzerPwm {
    /// Set up the driver for a timer in CTC mode with the divide-by-64
    /// prescaler, its compare register cleared so the output starts silent.
    ///
    /// The caller configures the output pin as a driven output before the
    /// timer runs; this model takes over from that point with register 0.
    pub fn new() -> (drv: BuzzerPwm)
        ensures
            drv.duty() == 0,
            drv.max_duty() == u16::MAX,
            drv.events() == Seq::<ChannelEvent>::empty(),
    {
        BuzzerPwm { compare: 0, max: u16::MAX, trace: Ghost(Seq::empty()) }
    }

    /// Read back the compare-register value the driver last programmed.
    pub fn compare_register(&self) -> (v: u16)
        ensures
            v == self.duty(),
    {
        self.compare
    }
}

impl SetDutyCycle for BuzzerPwm {
    /// In CTC mode the compare register is the only level the driver can
    /// steer, so it stands in for the duty value.
    closed spec fn duty(&self) -> u16 {
        self.compare
    }

    closed spec fn max_duty(&self) -> u16 {
        self.max
    }

    closed spec fn events(&self) -> Seq<ChannelEvent> {
        self.trace@
    }

    fn max_duty_cycle(&self) -> (max: u16) {
        self.max
    }

    fn set_duty_cycle(&mut self, duty: u16) -> (r: Result<(), ChannelError>)
        ensures
            r is Ok,
    {
        self.trace = Ghost(self.trace@.push(ChannelEvent::SetDutyCycle { duty }));
        self.compare = if duty <= self.max {
            duty
        } else {
            self.max
        };
        Ok(())
    }
}

impl SetFrequency for BuzzerPwm {
    /// The register derivation divides by the requested frequency, so 0 is
    /// the one request the timer cannot realize.
    open spec fn accepts(hz: u32) -> bool {
        hz >= 1
    }

    fn set_frequency(&mut self, hz: u32) -> (r: Result<(), ChannelError>)
        ensures
            r is Ok ==> final(self).duty() == spec_register_value(hz),
    {
        self.trace = Ghost(self.trace@.push(ChannelEvent::SetFrequency { hz }));
        if hz == 0 {
            return Err(ChannelError::Configuration);
        }
        self.compare = register_value(hz);
        Ok(())
    }
}

} // verus!
