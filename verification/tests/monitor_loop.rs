use co2::co2_mod::data_ready_color;
use co2::monitor::{temperature_color, Monitor, Unit};
use co2::rgb_led::Color;

#[test]
fn starts_in_celsius() {
    let monitor = Monitor::new();
    assert_eq!(monitor.millis, 0);
    assert_eq!(monitor.unit, Unit::Celsius);
    assert!(monitor.temperature_due());
    assert!(monitor.button_due());
}

#[test]
fn unit_cycles_on_release() {
    let mut monitor = Monitor::new();
    let mut units = Vec::new();
    for _ in 0..3 {
        assert!(!monitor.sample_button(true));
        assert!(monitor.sample_button(false));
        units.push(monitor.unit);
    }
    assert_eq!(units, vec![Unit::Fahrenheit, Unit::Kelvin, Unit::Celsius]);
}

#[test]
fn unit_next() {
    assert_eq!(Unit::Celsius.next(), Unit::Fahrenheit);
    assert_eq!(Unit::Fahrenheit.next(), Unit::Kelvin);
    assert_eq!(Unit::Kelvin.next(), Unit::Celsius);
}

#[test]
fn schedule_of_passes() {
    let mut monitor = Monitor::new();
    let mut temperature_passes = 0;
    let mut button_passes = 0;
    for _ in 0..2000 {
        if monitor.temperature_due() {
            temperature_passes += 1;
            assert!(monitor.button_due());
        }
        if monitor.button_due() {
            button_passes += 1;
        }
        monitor.tick();
    }
    assert_eq!(monitor.millis, 2000);
    assert_eq!(temperature_passes, 2);
    assert_eq!(button_passes, 400);
}

#[test]
fn time_stops_at_the_end() {
    let mut monitor = Monitor::new();
    monitor.millis = u64::MAX - 1;
    monitor.tick();
    assert_eq!(monitor.millis, u64::MAX);
    monitor.tick();
    assert_eq!(monitor.millis, u64::MAX);
}

#[test]
fn temperature_thresholds() {
    assert_eq!(temperature_color(97), Color::Red);
    assert_eq!(temperature_color(96), Color::Green);
    assert_eq!(temperature_color(94), Color::Green);
    assert_eq!(temperature_color(92), Color::Green);
    assert_eq!(temperature_color(91), Color::Blue);
    assert_eq!(temperature_color(i32::MIN), Color::Blue);
    assert_eq!(temperature_color(i32::MAX), Color::Red);
}

#[test]
fn sensor_wait_colors() {
    assert_eq!(data_ready_color(true), Color::Green);
    assert_eq!(data_ready_color(false), Color::Red);
}

#[test]
fn unit_moves_once_per_release() {
    let mut monitor = Monitor::new();
    let samples = [true, false, true, true, false, false, true, false, true];
    let mut releases = 0;
    for s in samples {
        if monitor.sample_button(s) {
            releases += 1;
        }
    }
    assert_eq!(releases, 3);
    assert_eq!(monitor.unit, Unit::Celsius);
    assert!(!monitor.sample_button(true));
    assert!(monitor.sample_button(false));
    assert_eq!(monitor.unit, Unit::Fahrenheit);
}
