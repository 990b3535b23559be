//! Blocking tone sequencer over a frequency-settable PWM channel and a delay
//! provider.

use crate::hal::{ChannelError, ChannelEvent, DelayNs, SetDutyCycle, SetFrequency};
use vstd::prelude::*;

verus! {

/// The raw duty value for a duty percentage against a channel maximum:
/// `max * percent / 100` in truncating integer arithmetic, so percentages
/// that do not divide evenly into `max` are quantized downward.
pub open spec fn spec_duty_for(max: u16, percent: u8) -> u16
    recommends
        percent <= 100,
{
    (max as int * percent as int / 100) as u16
}

/// Scale a duty percentage to a raw duty value against `max`.
pub fn duty_for(max: u16, percent: u8) -> (duty: u16)
    requires
        percent <= 100,
    ensures
        duty == spec_duty_for(max, percent),
        duty as int == max as int * percent as int / 100,
{
    proof {
        assert(max as int * percent as int <= 65535 * 100 && max as int * percent as int / 100
            <= max as int) by (nonlinear_arith)
            requires
                max <= 65535,
                percent <= 100,
        ;
    }
    let scaled: u32 = (max as u32) * (percent as u32) / 100;
    scaled as u16
}

/// Simple PWM-based buzzer.
///
/// Owns a PWM channel and a delay provider for its lifetime; no other holder
/// can touch the same channel while the buzzer exists. Duty is given as a
/// percentage (0 to 100), duration in milliseconds.
pub struct Buzzer<PWM, D> where PWM: SetDutyCycle + SetFrequency, D: DelayNs {
    pwm: PWM,
    delay: D,
}

impl<PWM, D> Buzzer<PWM, D> where PWM: SetDutyCycle + SetFrequency, D: DelayNs {
    /// The owned PWM channel.
    pub closed spec fn channel(&self) -> PWM {
        self.pwm
    }

    /// The owned delay provider.
    pub closed spec fn delayer(&self) -> D {
        self.delay
    }

    /// Create a new [`Buzzer`], forcing the channel to 0% duty so the buzzer
    /// starts silent whatever state the channel was in.
    ///
    /// The result of that first zero-duty write is not escalated: a channel
    /// that failed to silence here is silenced again by every later call to
    /// [`Buzzer::tone`].
    pub fn new(pwm: PWM, delay: D) -> (buzzer: Self)
        ensures
            buzzer.channel().duty() == 0,
            buzzer.channel().max_duty() == pwm.max_duty(),
            buzzer.channel().events() == pwm.events().push(
                (ChannelEvent::SetDutyCycle { duty: 0 }),
            ),
            buzzer.delayer() == delay,
    {
        let mut pwm = pwm;
        let _ = pwm.set_duty_cycle(0);
        Buzzer { pwm, delay }
    }

    /// Play a tone of `frequency_hz` hertz at `duty_percent` volume for
    /// `duration_ms` milliseconds, then silence the channel.
    ///
    /// The channel sees exactly a frequency write, a write of the scaled
    /// duty, and a zero-duty write, in that order; the delay provider blocks
    /// exactly once, for `duration_ms` milliseconds, between the two duty
    /// writes, and is never asked for a nanosecond wait. A frequency the channel
    /// rejects is returned as the error before any sound starts, with the
    /// duty level as it was; failures of the duty writes themselves are
    /// deliberately swallowed, since the final zero-duty write is the better
    /// guard against a buzzer left stuck on.
    pub fn tone(&mut self, frequency_hz: u32, duty_percent: u8, duration_ms: u32) -> (r:
        Result<(), ChannelError>)
        requires
            duty_percent <= 100,
        ensures
            r is Ok <==> PWM::accepts(frequency_hz),
            r is Ok ==> {
                &&& final(self).channel().duty() == 0
                &&& final(self).channel().max_duty() == old(self).channel().max_duty()
                &&& final(self).channel().events() == (old(self).channel().events() + seq![
                    (ChannelEvent::SetFrequency { hz: frequency_hz }),
                    (ChannelEvent::SetDutyCycle {
                        duty: spec_duty_for(final(self).channel().max_duty(), duty_percent),
                    }),
                    (ChannelEvent::SetDutyCycle { duty: 0 }),
                ])
                &&& final(self).delayer().waits_ms() == old(self).delayer().waits_ms().push(
                    duration_ms,
                )
                &&& final(self).delayer().waits_ns() == old(self).delayer().waits_ns()
            },
            r is Err ==> {
                &&& final(self).channel().duty() == old(self).channel().duty()
                &&& final(self).channel().max_duty() == old(self).channel().max_duty()
                &&& final(self).channel().events() == old(self).channel().events().push(
                    (ChannelEvent::SetFrequency { hz: frequency_hz }),
                )
                &&& final(self).delayer() == old(self).delayer()
            },
    {
        match self.pwm.set_frequency(frequency_hz) {
            Ok(()) => {},
            Err(e) => {
                return Err(e);
            },
        }
        let max: u16 = self.pwm.max_duty_cycle();
        let duty: u16 = duty_for(max, duty_percent);
        let _ = self.pwm.set_duty_cycle(duty);
        self.delay.delay_ms(duration_ms);
        let _ = self.pwm.set_duty_cycle(0);
        proof {
            assert(self.channel().events() =~= old(self).channel().events() + seq![
                (ChannelEvent::SetFrequency { hz: frequency_hz }),
                (ChannelEvent::SetDutyCycle { duty: spec_duty_for(max, duty_percent) }),
                (ChannelEvent::SetDutyCycle { duty: 0 }),
            ]);
        }
        Ok(())
    }

    /// Borrow the owned channel, for inspection after a sequence of tones.
    pub fn channel_ref(&self) -> (pwm: &PWM)
        ensures
            *pwm == self.channel(),
    {
        &self.pwm
    }

    /// Borrow the owned delay provider.
    pub fn delay_ref(&self) -> (delay: &D)
        ensures
            *delay == self.delayer(),
    {
        &self.delay
    }
}

} // verus!
