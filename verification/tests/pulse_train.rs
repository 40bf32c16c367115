use co2::pulse::{PulseStep, PulseTrain};

#[test]
fn train_of_two_periods() {
    let mut train = PulseTrain::new(2, 7);
    assert_eq!(train.steps_left(), 8);
    let expected = [
        PulseStep::On,
        PulseStep::Wait(7),
        PulseStep::Off,
        PulseStep::Wait(7),
        PulseStep::On,
        PulseStep::Wait(7),
        PulseStep::Off,
        PulseStep::Wait(7),
    ];
    for (i, step) in expected.iter().enumerate() {
        assert_eq!(train.next_step(), Some(*step));
        assert_eq!(train.steps_left(), (7 - i) as u64);
    }
    assert_eq!(train.next_step(), None);
    assert_eq!(train.next_step(), None);
    assert_eq!(train.steps_left(), 0);
}

#[test]
fn empty_train() {
    let mut train = PulseTrain::new(0, 100);
    assert_eq!(train.steps_left(), 0);
    assert_eq!(train.next_step(), None);
}

#[test]
fn longest_train_counts_its_steps() {
    let train = PulseTrain::new(u32::MAX, 1);
    assert_eq!(train.steps_left(), 4 * u32::MAX as u64);
}
