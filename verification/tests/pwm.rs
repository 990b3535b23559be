use buzzer::buzzer::{duty_for, Buzzer};
use buzzer::delay::BusyDelay;
use buzzer::hal::{ChannelError, SetDutyCycle, SetFrequency};
use buzzer::pwm::{register_value, BuzzerPwm};

#[test]
fn register_value_for_440_hz() {
    // 16 MHz clock, prescaler 64, toggle factor 2: floor(125000 / 440) - 1.
    assert_eq!(register_value(440), 283);
}

#[test]
fn register_value_clamps_lowest_frequencies() {
    // 1 Hz asks for a period of 124999 intervals, beyond the 16-bit register.
    assert_eq!(register_value(1), u16::MAX);
}

#[test]
fn register_value_saturates_high_frequencies() {
    // Above the toggle rate the quotient is below 1: saturate to the shortest
    // period instead of wrapping below zero.
    assert_eq!(register_value(200_000), 0);
    assert_eq!(register_value(125_000), 0);
    assert_eq!(register_value(62_500), 1);
}

#[test]
fn duty_for_truncates_exactly() {
    assert_eq!(duty_for(65535, 50), 32767);
    assert_eq!(duty_for(65535, 100), 65535);
    assert_eq!(duty_for(65535, 0), 0);
    assert_eq!(duty_for(1000, 33), 330);
}

#[test]
fn driver_starts_silent_and_programs_compare_register() {
    let mut drv = BuzzerPwm::new();
    assert_eq!(drv.compare_register(), 0);
    assert_eq!(drv.max_duty_cycle(), u16::MAX);

    drv.set_frequency(440).unwrap();
    assert_eq!(drv.compare_register(), 283);

    drv.set_duty_cycle(0).unwrap();
    assert_eq!(drv.compare_register(), 0);
}

#[test]
fn driver_rejects_zero_hz_before_dividing() {
    let mut drv = BuzzerPwm::new();
    drv.set_frequency(440).unwrap();

    let result = drv.set_frequency(0);

    assert_eq!(result, Err(ChannelError::Configuration));
    // The failed call left the period register alone.
    assert_eq!(drv.compare_register(), 283);
}

#[test]
fn tone_on_timer_driver_ends_silent() {
    let mut buzzer = Buzzer::new(BuzzerPwm::new(), BusyDelay::new());
    buzzer.tone(440, 50, 2).unwrap();
    assert_eq!(buzzer.channel_ref().compare_register(), 0);

    let rejected = buzzer.tone(0, 50, 2);
    assert_eq!(rejected, Err(ChannelError::Configuration));
    assert_eq!(buzzer.channel_ref().compare_register(), 0);
}
