//! Recording implementations of the channel and delay capabilities.
//!
//! These drive no hardware: they keep the call traces that the capability
//! contracts speak of as real values, so that a caller — a test above all —
//! can inspect exactly which writes a sequence of operations issued and in
//! what order.

use crate::hal::{ChannelError, ChannelEvent, DelayNs, SetDutyCycle, SetFrequency};
use vstd::prelude::*;

verus! {

/// A tone channel that records every write instead of driving hardware.
///
/// It accepts the same requests as the timer-backed driver: every frequency
/// of at least 1 Hz, and every duty value, clamped to the maximum it was
/// created with.
pub struct RecordingChannel {
    max: u16,
    level: u16,
    writes: Vec<ChannelEvent>,
}

impl RecordingChannel {
    /// Create a silent channel reporting `max` as its duty maximum.
    pub fn new(max: u16) -> (channel: RecordingChannel)
        ensures
            channel.duty() == 0,
            channel.max_duty() == max,
            channel.events() == Seq::<ChannelEvent>::empty(),
    {
        RecordingChannel { max, level: 0, writes: Vec::new() }
    }

    /// Every write issued to the channel so far, oldest first.
    pub fn writes(&self) -> (writes: &Vec<ChannelEvent>)
        ensures
            writes@ == self.events(),
    {
        &self.writes
    }

    /// The duty value the channel is currently producing.
    pub fn current_duty(&self) -> (duty: u16)
        ensures
            duty == self.duty(),
    {
        self.level
    }
}

impl SetDutyCycle for RecordingChannel {
    closed spec fn duty(&self) -> u16 {
        self.level
    }

    closed spec fn max_duty(&self) -> u16 {
        self.max
    }

    closed spec fn events(&self) -> Seq<ChannelEvent> {
        self.writes@
    }

    fn max_duty_cycle(&self) -> (max: u16) {
        self.max
    }

    fn set_duty_cycle(&mut self, duty: u16) -> (r: Result<(), ChannelError>)
        ensures
            r is Ok,
    {
        self.writes.push(ChannelEvent::SetDutyCycle { duty });
        self.level = if duty <= self.max {
            duty
        } else {
            self.max
        };
        Ok(())
    }
}

impl SetFrequency for RecordingChannel {
    /// Mirrors the timer-backed driver: only a frequency of 0, which no
    /// divider can realize, is rejected.
    open spec fn accepts(hz: u32) -> bool {
        hz >= 1
    }

    fn set_frequency(&mut self, hz: u32) -> (r: Result<(), ChannelError>)
        ensures
            r is Ok ==> final(self).duty() == old(self).duty(),
    {
        self.writes.push(ChannelEvent::SetFrequency { hz });
        if hz == 0 {
            return Err(ChannelError::Configuration);
        }
        Ok(())
    }
}

/// A delay provider that records each requested wait instead of blocking.
pub struct RecordingDelay {
    waits: Vec<u32>,
    ns_requests: Vec<u32>,
}

impl RecordingDelay {
    /// Create a delay provider with empty wait traces.
    pub fn new() -> (delay: RecordingDelay)
        ensures
            delay.waits_ms() == Seq::<u32>::empty(),
            delay.waits_ns() == Seq::<u32>::empty(),
    {
        RecordingDelay { waits: Vec::new(), ns_requests: Vec::new() }
    }

    /// The milliseconds requested by each millisecond wait so far, oldest
    /// first.
    pub fn waits(&self) -> (waits: &Vec<u32>)
        ensures
            waits@ == self.waits_ms(),
    {
        &self.waits
    }

    /// The nanoseconds requested by each nanosecond wait so far, oldest
    /// first.
    pub fn ns_waits(&self) -> (waits: &Vec<u32>)
        ensures
            waits@ == self.waits_ns(),
    {
        &self.ns_requests
    }

    /// The most recent millisecond wait, if any wait happened at all.
    pub fn last_ms(&self) -> (last: Option<u32>)
        ensures
            match last {
                Some(ms) => self.waits_ms().len() > 0 && ms == self.waits_ms().last(),
                None => self.waits_ms().len() == 0,
            },
    {
        if self.waits.len() == 0 {
            None
        } else {
            Some(self.waits[self.waits.len() - 1])
        }
    }
}

impl DelayNs for RecordingDelay {
    closed spec fn waits_ms(&self) -> Seq<u32> {
        self.waits@
    }

    closed spec fn waits_ns(&self) -> Seq<u32> {
        self.ns_requests@
    }

    fn delay_ms(&mut self, ms: u32) {
        self.waits.push(ms);
    }

    fn delay_ns(&mut self, ns: u32) {
        self.ns_requests.push(ns);
    }
}

} // verus!
