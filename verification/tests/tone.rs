use buzzer::buzzer::Buzzer;
use buzzer::hal::{ChannelError, ChannelEvent, SetDutyCycle, SetFrequency};
use buzzer::mock::{RecordingChannel, RecordingDelay};

#[test]
fn test_tone_sets_and_clears_duty_and_delays() {
    let pwm = RecordingChannel::new(u16::MAX);
    let delay = RecordingDelay::new();

    let mut buzzer = Buzzer::new(pwm, delay);
    buzzer.tone(440, 100 / 2, 200).unwrap();

    assert_eq!(
        *buzzer.channel_ref().writes(),
        vec![
            ChannelEvent::SetDutyCycle { duty: 0 },
            ChannelEvent::SetFrequency { hz: 440 },
            ChannelEvent::SetDutyCycle { duty: u16::MAX / 2 },
            ChannelEvent::SetDutyCycle { duty: 0 },
        ]
    );
    assert_eq!(buzzer.delay_ref().last_ms(), Some(200));
}

#[test]
fn construction_first_write_is_zero_duty() {
    let mut pwm = RecordingChannel::new(u16::MAX);
    pwm.set_duty_cycle(123).unwrap();

    let buzzer = Buzzer::new(pwm, RecordingDelay::new());

    assert_eq!(buzzer.channel_ref().current_duty(), 0);
    assert_eq!(
        *buzzer.channel_ref().writes(),
        vec![
            ChannelEvent::SetDutyCycle { duty: 123 },
            ChannelEvent::SetDutyCycle { duty: 0 },
        ]
    );
}

#[test]
fn tone_ends_silent_for_every_duty_percent() {
    let mut buzzer = Buzzer::new(RecordingChannel::new(u16::MAX), RecordingDelay::new());
    for percent in 0u8..=100 {
        buzzer.tone(1000, percent, 1).unwrap();
        assert_eq!(buzzer.channel_ref().current_duty(), 0);
    }
}

#[test]
fn tone_duty_write_truncates() {
    let mut buzzer = Buzzer::new(RecordingChannel::new(u16::MAX), RecordingDelay::new());
    buzzer.tone(440, 50, 10).unwrap();

    // 65535 * 50 / 100 truncates to 32767, never rounds up to 32768.
    assert_eq!(
        buzzer.channel_ref().writes()[2],
        ChannelEvent::SetDutyCycle { duty: 32767 }
    );
}

#[test]
fn tone_rejects_zero_frequency_without_sounding() {
    let mut buzzer = Buzzer::new(RecordingChannel::new(u16::MAX), RecordingDelay::new());
    buzzer.tone(880, 75, 5).unwrap();

    let result = buzzer.tone(0, 50, 100);

    assert_eq!(result, Err(ChannelError::Configuration));
    // The rejected call issued only the frequency write: no duty write, no wait.
    assert_eq!(buzzer.channel_ref().current_duty(), 0);
    assert_eq!(
        buzzer.channel_ref().writes().last(),
        Some(&ChannelEvent::SetFrequency { hz: 0 })
    );
    assert_eq!(buzzer.delay_ref().waits().len(), 1);
    assert_eq!(buzzer.delay_ref().last_ms(), Some(5));
}

#[test]
fn end_to_end_tone_at_440() {
    let mut buzzer = Buzzer::new(RecordingChannel::new(u16::MAX), RecordingDelay::new());
    let result = buzzer.tone(440, 50, 200);

    assert_eq!(result, Ok(()));
    assert_eq!(
        *buzzer.channel_ref().writes(),
        vec![
            ChannelEvent::SetDutyCycle { duty: 0 },
            ChannelEvent::SetFrequency { hz: 440 },
            ChannelEvent::SetDutyCycle { duty: 32767 },
            ChannelEvent::SetDutyCycle { duty: 0 },
        ]
    );
    assert_eq!(*buzzer.delay_ref().waits(), vec![200]);
    assert!(buzzer.delay_ref().ns_waits().is_empty());
}

#[test]
fn recording_channel_clamps_duty_above_max() {
    let mut pwm = RecordingChannel::new(100);
    pwm.set_duty_cycle(200).unwrap();
    assert_eq!(pwm.current_duty(), 100);
    assert_eq!(pwm.max_duty_cycle(), 100);
}
