//! The piezo buzzer: a tone is a square wave on one pin, made of whole
//! periods of `2 * delay` milliseconds.

use vstd::prelude::*;
use crate::pulse::{PulseStep, PulseTrain, pulse_steps, total_wait, on_after, lemma_pulse_total_wait, lemma_pulse_ends_off, time_on, lemma_pulse_time_on};
use crate::rgb_led::Level;

verus! {

/// Half a period of a tone of `frequency_hz`, in whole milliseconds.
pub open spec fn spec_frequency_to_delay(frequency_hz: u32) -> int {
    1000int / (frequency_hz as int)
}

/// How many whole periods of a tone of `frequency_hz` fit in `duration_ms`.
pub open spec fn spec_duration_to_range(duration_ms: u32, frequency_hz: u32) -> int {
    (duration_ms as int) / (2 * spec_frequency_to_delay(frequency_hz))
}

/// The frequencies the buzzer can play: the half period must be at least
/// one millisecond.
pub open spec fn playable(frequency_hz: u32) -> bool {
    1 <= frequency_hz <= 1000
}

/// Half a period of the tone, in milliseconds, rounded down.
pub fn frequency_to_delay(frequency_hz: &u32) -> (delay: u32)
    requires
        *frequency_hz != 0,
    ensures
        delay == spec_frequency_to_delay(*frequency_hz),
        delay <= 1000,
{
    1000 / *frequency_hz
}

/// The number of full periods that fit in `duration_ms`.
pub fn duration_to_range(duration_ms: u32, frequency_hz: &u32) -> (range: i32)
    requires
        playable(*frequency_hz),
    ensures
        range == spec_duration_to_range(duration_ms, *frequency_hz),
        range >= 0,
{
    let delay = frequency_to_delay(frequency_hz);
    proof {
        lemma_playable_delay(*frequency_hz, duration_ms);
    }
    let max_range = duration_ms / (delay * 2u32);
    max_range as i32
}

/// The steps of a tone of `frequency_hz` that lasts at most `duration_ms`.
pub open spec fn tone_steps(frequency_hz: u32, duration_ms: u32) -> Seq<PulseStep> {
    pulse_steps(
        spec_duration_to_range(duration_ms, frequency_hz) as nat,
        spec_frequency_to_delay(frequency_hz) as u32,
    )
}

/// The buzzer's pin. It sounds while the pin is high.
pub struct Buzzer {
    level: Level,
}

impl View for Buzzer {
    /// Whether the pin is high.
    type V = bool;

    closed spec fn view(&self) -> bool {
        self.level == Level::High
    }
}

impl Buzzer {
    /// The buzzer as its pin is set up: low, silent.
    pub fn init() -> (buzzer: Buzzer)
        ensures
            !buzzer@,
    {
        Buzzer { level: Level::Low }
    }

    /// Drives the pin high.
    pub fn high(&mut self)
        ensures
            final(self)@,
    {
        self.level = Level::High;
    }

    /// Drives the pin low.
    pub fn low(&mut self)
        ensures
            !final(self)@,
    {
        self.level = Level::Low;
    }

    /// The level the pin must have.
    pub fn level(&self) -> (level: Level)
        ensures
            (level == Level::High) == self@,
    {
        self.level
    }

    /// The tone of `frequency_hz` for `duration_ms`: as many whole periods of
    /// `2 * frequency_to_delay(frequency_hz)` milliseconds as fit in the
    /// duration. The steps are carried out with `apply` and the waits by a
    /// timer.
    pub fn buzz(&self, frequency_hz: u32, duration_ms: u32) -> (tone: PulseTrain)
        requires
            playable(frequency_hz),
        ensures
            tone@ == tone_steps(frequency_hz, duration_ms),
    {
        let delay_ms = frequency_to_delay(&frequency_hz);
        let max_range = duration_to_range(duration_ms, &frequency_hz);
        PulseTrain::new(max_range as u32, delay_ms)
    }

    /// Carries out one step of a tone on the pin.
    pub fn apply(&mut self, step: PulseStep)
        ensures
            final(self)@ == on_after(old(self)@, seq![step]),
            step is On ==> final(self)@,
            step is Off ==> !final(self)@,
            step is Wait ==> final(self)@ == old(self)@,
    {
        let ghost steps = seq![step];
        assert(steps.drop_last() =~= Seq::<PulseStep>::empty());
        assert(steps.last() == step);
        assert(on_after(self@, steps.drop_last()) == self@);
        match step {
            PulseStep::On => self.high(),
            PulseStep::Off => self.low(),
            PulseStep::Wait(_) => {},
        }
    }
}

/// A playable frequency has a half period of at least one millisecond, so
/// the number of periods of any tone is well defined and not negative.
pub proof fn lemma_playable_delay(frequency_hz: u32, duration_ms: u32)
    requires
        playable(frequency_hz),
    ensures
        1 <= spec_frequency_to_delay(frequency_hz) <= 1000,
        0 <= spec_duration_to_range(duration_ms, frequency_hz) <= duration_ms / 2,
{
    let d = spec_frequency_to_delay(frequency_hz);
    assert(1 <= d <= 1000) by (nonlinear_arith)
        requires
            d == 1000int / (frequency_hz as int),
            1 <= frequency_hz <= 1000,
    ;
    assert(0 <= (duration_ms as int) / (2 * d) <= duration_ms / 2) by (nonlinear_arith)
        requires
            d >= 1,
    ;
}

/// Half a period is the longest whole number of milliseconds that fits in
/// half a period of the tone: `delay * frequency <= 1000 < (delay + 1) * frequency`.
pub proof fn lemma_delay_rounds_down(frequency_hz: u32)
    requires
        frequency_hz != 0,
    ensures
        spec_frequency_to_delay(frequency_hz) * frequency_hz <= 1000,
        1000 < (spec_frequency_to_delay(frequency_hz) + 1) * frequency_hz,
{
    let f = frequency_hz as int;
    let d = spec_frequency_to_delay(frequency_hz);
    assert(d * f <= 1000 < (d + 1) * f) by (nonlinear_arith)
        requires
            d == 1000int / f,
            f > 0,
    ;
}

/// A tone never lasts longer than asked, and falls short by less than one
/// period: its waits add up to `2 * range * delay`, which is at most
/// `duration_ms` and more than `duration_ms - 2 * delay`.
pub proof fn lemma_tone_duration(frequency_hz: u32, duration_ms: u32)
    requires
        playable(frequency_hz),
    ensures
        total_wait(tone_steps(frequency_hz, duration_ms)) <= duration_ms,
        duration_ms < total_wait(tone_steps(frequency_hz, duration_ms)) + 2
            * spec_frequency_to_delay(frequency_hz),
{
    lemma_playable_delay(frequency_hz, duration_ms);
    let d = spec_frequency_to_delay(frequency_hz);
    let r = spec_duration_to_range(duration_ms, frequency_hz);
    lemma_pulse_total_wait(r as nat, d as u32);
    assert(2 * r * d <= duration_ms < 2 * r * d + 2 * d) by (nonlinear_arith)
        requires
            r == (duration_ms as int) / (2 * d),
            d >= 1,
    ;
}

/// The buzzer sounds for half of a tone: over a tone of `range` periods of
/// half period `delay`, the pin is high during exactly `range * delay` of the
/// waited milliseconds, whatever it was before.
pub proof fn lemma_tone_sound_time(sounding: bool, frequency_hz: u32, duration_ms: u32)
    requires
        playable(frequency_hz),
    ensures
        time_on(sounding, tone_steps(frequency_hz, duration_ms)) == spec_duration_to_range(
            duration_ms,
            frequency_hz,
        ) * spec_frequency_to_delay(frequency_hz),
{
    lemma_playable_delay(frequency_hz, duration_ms);
    lemma_pulse_time_on(
        sounding,
        spec_duration_to_range(duration_ms, frequency_hz) as nat,
        spec_frequency_to_delay(frequency_hz) as u32,
    );
}

/// After a tone of at least one period the buzzer is silent.
pub proof fn lemma_tone_ends_silent(sounding: bool, frequency_hz: u32, duration_ms: u32)
    requires
        playable(frequency_hz),
        spec_duration_to_range(duration_ms, frequency_hz) >= 1,
    ensures
        !on_after(sounding, tone_steps(frequency_hz, duration_ms)),
{
    lemma_pulse_ends_off(
        sounding,
        spec_duration_to_range(duration_ms, frequency_hz) as nat,
        spec_frequency_to_delay(frequency_hz) as u32,
    );
}

/// The state of the buzzer's pin (high: true) after a run of tones, each
/// carried out in full with `apply`, starting from `sounding`. Each tone is
/// a pair of a frequency and a duration, as given to `buzz`.
pub open spec fn sounding_after_tones(sounding: bool, tones: Seq<(u32, u32)>) -> bool
    decreases tones.len(),
{
    if tones.len() == 0 {
        sounding
    } else {
        let last = tones.last();
        on_after(sounding_after_tones(sounding, tones.drop_last()), tone_steps(last.0, last.1))
    }
}

/// A buzzer that starts silent, as `Buzzer::init` leaves it, is silent
/// again after every tone that it plays in full: a tone of at least one
/// period ends by driving the pin low, and a tone of no period drives
/// nothing.
pub proof fn lemma_silent_between_tones(tones: Seq<(u32, u32)>)
    requires
        forall|i: int| 0 <= i < tones.len() ==> playable(#[trigger] tones[i].0),
    ensures
        !sounding_after_tones(false, tones),
    decreases tones.len(),
{
    if tones.len() > 0 {
        let before = tones.drop_last();
        assert forall|i: int| 0 <= i < before.len() implies playable(#[trigger] before[i].0) by {
            assert(before[i] == tones[i]);
        }
        lemma_silent_between_tones(before);
        let last = tones.last();
        assert(playable(tones[tones.len() - 1].0));
        lemma_playable_delay(last.0, last.1);
        lemma_pulse_ends_off(
            false,
            spec_duration_to_range(last.1, last.0) as nat,
            spec_frequency_to_delay(last.0) as u32,
        );
    }
}

} // verus!
