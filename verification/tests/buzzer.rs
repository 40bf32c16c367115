use co2::buzz::{duration_to_range, frequency_to_delay, Buzzer};
use co2::pulse::{PulseStep, PulseTrain};
use co2::rgb_led::Level;

fn drain(train: &mut PulseTrain) -> Vec<PulseStep> {
    let mut steps = Vec::new();
    while let Some(step) = train.next_step() {
        steps.push(step);
    }
    steps
}

#[test]
fn frequency_to_delay_rounds_down() {
    assert_eq!(frequency_to_delay(&440), 2);
    assert_eq!(frequency_to_delay(&1000), 1);
    assert_eq!(frequency_to_delay(&1), 1000);
    assert_eq!(frequency_to_delay(&3), 333);
    assert_eq!(frequency_to_delay(&2000), 0);
}

#[test]
fn duration_to_range_counts_whole_periods() {
    assert_eq!(duration_to_range(500, &440), 125);
    assert_eq!(duration_to_range(0, &440), 0);
    assert_eq!(duration_to_range(3, &440), 0);
    assert_eq!(duration_to_range(7, &440), 1);
    assert_eq!(duration_to_range(u32::MAX, &1000), 2_147_483_647);
    assert_eq!(duration_to_range(1000, &1), 0);
    assert_eq!(duration_to_range(2000, &1), 1);
}

#[test]
fn buzzer_starts_low() {
    let buzzer = Buzzer::init();
    assert_eq!(buzzer.level(), Level::Low);
}

#[test]
fn buzzer_high_and_low() {
    let mut buzzer = Buzzer::init();
    buzzer.high();
    assert_eq!(buzzer.level(), Level::High);
    buzzer.low();
    assert_eq!(buzzer.level(), Level::Low);
}

#[test]
fn tone_of_440_hz_for_half_a_second() {
    let mut buzzer = Buzzer::init();
    let mut tone = buzzer.buzz(440, 500);
    assert_eq!(tone.steps_left(), 500);
    let steps = drain(&mut tone);
    assert_eq!(steps.len(), 500);
    assert_eq!(&steps[0..4], &[PulseStep::On, PulseStep::Wait(2), PulseStep::Off, PulseStep::Wait(2)]);
    let mut waited: u64 = 0;
    let mut sounding_steps = 0;
    for step in &steps {
        buzzer.apply(*step);
        if let PulseStep::Wait(ms) = step {
            waited += *ms as u64;
            if buzzer.level() == Level::High {
                sounding_steps += 1;
            }
        }
    }
    assert_eq!(waited, 500);
    assert_eq!(sounding_steps, 125);
    assert_eq!(buzzer.level(), Level::Low);
}

#[test]
fn tone_never_exceeds_duration() {
    let buzzer = Buzzer::init();
    for (f, d) in [(440u32, 501u32), (3, 2000), (1, 1999), (999, 10), (250, 17)] {
        let mut tone = buzzer.buzz(f, d);
        let waited: u64 = drain(&mut tone)
            .iter()
            .map(|s| match s {
                PulseStep::Wait(ms) => *ms as u64,
                _ => 0,
            })
            .sum();
        let delay = frequency_to_delay(&f) as u64;
        assert!(waited <= d as u64);
        assert!((d as u64) < waited + 2 * delay);
    }
}

#[test]
fn too_short_tone_is_silent() {
    let mut buzzer = Buzzer::init();
    let mut tone = buzzer.buzz(1, 1999);
    assert_eq!(tone.next_step(), None);
    assert_eq!(buzzer.level(), Level::Low);
    buzzer.high();
    let mut tone = buzzer.buzz(1000, 1);
    assert_eq!(tone.next_step(), None);
    assert_eq!(buzzer.level(), Level::High);
}

#[test]
fn apply_wait_keeps_level() {
    let mut buzzer = Buzzer::init();
    buzzer.apply(PulseStep::On);
    buzzer.apply(PulseStep::Wait(5));
    assert_eq!(buzzer.level(), Level::High);
    buzzer.apply(PulseStep::Off);
    buzzer.apply(PulseStep::Wait(5));
    assert_eq!(buzzer.level(), Level::Low);
}

#[test]
fn buzzer_is_low_after_every_tone() {
    let mut buzzer = Buzzer::init();
    for (f, d) in [(440u32, 500u32), (1, 100), (1000, 7), (3, 2000), (1000, 1)] {
        let mut tone = buzzer.buzz(f, d);
        while let Some(step) = tone.next_step() {
            buzzer.apply(step);
        }
        assert_eq!(buzzer.level(), Level::Low);
    }
}
