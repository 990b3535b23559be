//! Capability traits for a tone-capable output channel and a blocking delay
//! provider.
//!
//! The tone sequencer is polymorphic over anything that can retune an output
//! frequency, set a duty level against a maximum, and block for a span of
//! time. Each trait carries a trace of the calls issued to it, so that
//! contracts can pin down not only the final state of a channel but the exact
//! order of writes a caller produced.

use vstd::prelude::*;

verus! {

/// Error raised by a channel whose hardware cannot represent a request.
#[derive(Clone, Copy, Debug, PartialEq, Eq)]
pub enum ChannelError {
    /// The requested configuration lies outside what the channel can produce.
    Configuration,
}

/// One write issued to a tone channel, as recorded in the channel's trace.
#[derive(Clone, Copy, Debug, PartialEq, Eq)]
pub enum ChannelEvent {
    /// `set_frequency` was called with this target frequency in hertz.
    SetFrequency { hz: u32 },
    /// `set_duty_cycle` was called with this raw duty value.
    SetDutyCycle { duty: u16 },
}

/// A periodic output whose active (high) portion can be set against a
/// maximum.
pub trait SetDutyCycle {
    /// The raw duty value the channel is currently producing.
    spec fn duty(&self) -> u16;

    /// The current upper bound for raw duty values.
    spec fn max_duty(&self) -> u16;

    /// Every write issued to the channel so far, oldest first.
    spec fn events(&self) -> Seq<ChannelEvent>;

    /// Report the current upper bound for duty values.
    fn max_duty_cycle(&self) -> (max: u16)
        ensures
            max == self.max_duty(),
    ;

    /// Set the active portion of the output period.
    ///
    /// A request above the current maximum is clamped to it, never wrapped.
    /// A request of 0 always succeeds and leaves the output continuously low
    /// (silent). On failure the duty is left as it was.
    fn set_duty_cycle(&mut self, duty: u16) -> (r: Result<(), ChannelError>)
        ensures
            final(self).max_duty() == old(self).max_duty(),
            final(self).events() == old(self).events().push(
                ChannelEvent::SetDutyCycle { duty },
            ),
            r is Ok ==> final(self).duty() == (if duty <= old(self).max_duty() {
                duty
            } else {
                old(self).max_duty()
            }),
            r is Err ==> final(self).duty() == old(self).duty(),
            duty == 0 ==> r is Ok,
    ;
}

/// A periodic output whose frequency can be retuned on the fly, for instance
/// to play different tones on a buzzer.
pub trait SetFrequency: SetDutyCycle {
    /// Whether the channel can realize an output toggling at `hz` cycles per
    /// second.
    spec fn accepts(hz: u32) -> bool;

    /// Set the output frequency in hertz, within the channel's quantization.
    ///
    /// Fails exactly on the frequencies the channel cannot realize, and a
    /// failed call leaves the duty level as it was, so no sound starts or
    /// stops on failure. The duty maximum is a fixed property of the channel
    /// and survives retuning either way.
    fn set_frequency(&mut self, hz: u32) -> (r: Result<(), ChannelError>)
        ensures
            final(self).events() == old(self).events().push(
                ChannelEvent::SetFrequency { hz },
            ),
            final(self).max_duty() == old(self).max_duty(),
            r is Ok <==> Self::accepts(hz),
            r is Err ==> final(self).duty() == old(self).duty(),
    ;
}

/// A blocking wait primitive with millisecond and nanosecond granularity.
pub trait DelayNs {
    /// The milliseconds waited by each completed millisecond call, oldest
    /// first.
    spec fn waits_ms(&self) -> Seq<u32>;

    /// The nanoseconds requested by each nanosecond call, oldest first.
    spec fn waits_ns(&self) -> Seq<u32>;

    /// Block the calling context for at least `ms` milliseconds.
    fn delay_ms(&mut self, ms: u32)
        ensures
            final(self).waits_ms() == old(self).waits_ms().push(ms),
            final(self).waits_ns() == old(self).waits_ns(),
    ;

    /// Block with nanosecond granularity. A provider that cannot resolve
    /// nanoseconds may round the request down to nothing; the request is
    /// still recorded in the nanosecond trace.
    fn delay_ns(&mut self, ns: u32)
        ensures
            final(self).waits_ms() == old(self).waits_ms(),
            final(self).waits_ns() == old(self).waits_ns().push(ns),
    ;
}

} // verus!
