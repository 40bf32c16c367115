//! The temperature monitor's loop. It runs once per millisecond: every
//! `TEMPERATURE_PERIOD_MS` it measures the temperature and sets the LED by
//! it, and every `BUTTON_PERIOD_MS` it samples the button, whose release
//! switches the display unit. The measuring, the pins and the printing are
//! done by the application; the monitor decides when and what.

use vstd::prelude::*;
use crate::button::{Button, rising_edge, last_sample, count_releases, prev_sample};
use crate::rgb_led::Color;

verus! {

/// The unit that temperatures are displayed in.
#[derive(Clone, Copy, PartialEq, Eq, Structural, Debug)]
pub enum Unit {
    Fahrenheit,
    Celsius,
    Kelvin,
}

/// The unit that follows `unit` when the button is released.
pub open spec fn spec_next_unit(unit: Unit) -> Unit {
    match unit {
        Unit::Fahrenheit => Unit::Kelvin,
        Unit::Kelvin => Unit::Celsius,
        Unit::Celsius => Unit::Fahrenheit,
    }
}

impl Unit {
    /// The unit that follows this one.
    pub fn next(&self) -> (unit: Unit)
        ensures
            unit == spec_next_unit(*self),
    {
        match self {
            Unit::Fahrenheit => Unit::Kelvin,
            Unit::Kelvin => Unit::Celsius,
            Unit::Celsius => Unit::Fahrenheit,
        }
    }
}

/// Milliseconds between two temperature measurements.
pub const TEMPERATURE_PERIOD_MS: u64 = 1000;

/// Milliseconds between two samples of the button.
pub const BUTTON_PERIOD_MS: u64 = 5;

/// Above 24 °C the LED shows red. Temperatures are in quarters of a degree
/// Celsius, the resolution of the chip's temperature sensor.
pub const HOT_QUARTER_DEGREES: i32 = 96;

/// Below 23 °C the LED shows blue, in quarters of a degree Celsius.
pub const COLD_QUARTER_DEGREES: i32 = 92;

/// The colour for a temperature of `quarter_degrees / 4` °C.
pub open spec fn spec_temperature_color(quarter_degrees: i32) -> Color {
    if quarter_degrees > HOT_QUARTER_DEGREES {
        Color::Red
    } else if quarter_degrees < COLD_QUARTER_DEGREES {
        Color::Blue
    } else {
        Color::Green
    }
}

/// The colour for a temperature of `quarter_degrees / 4` °C: red when it is
/// too warm, blue when it is too cold, green in between (both bounds
/// included).
pub fn temperature_color(quarter_degrees: i32) -> (color: Color)
    ensures
        color == spec_temperature_color(quarter_degrees),
{
    if quarter_degrees > HOT_QUARTER_DEGREES {
        Color::Red
    } else if quarter_degrees < COLD_QUARTER_DEGREES {
        Color::Blue
    } else {
        Color::Green
    }
}

/// The state of the monitor's loop.
pub struct Monitor {
    /// Milliseconds since start; it stops at `u64::MAX`.
    pub millis: u64,
    /// The unit that temperatures are displayed in.
    pub unit: Unit,
    /// The button's edge detector.
    pub button: Button,
}

impl Monitor {
    /// The monitor at start: no time elapsed, Celsius, button released.
    pub fn new() -> (monitor: Monitor)
        ensures
            monitor.millis == 0,
            monitor.unit == Unit::Celsius,
            !monitor.button@,
    {
        Monitor { millis: 0, unit: Unit::Celsius, button: Button::new() }
    }

    /// Whether this pass measures the temperature.
    pub fn temperature_due(&self) -> (due: bool)
        ensures
            due == (self.millis % TEMPERATURE_PERIOD_MS == 0),
    {
        self.millis % TEMPERATURE_PERIOD_MS == 0
    }

    /// Whether this pass samples the button.
    pub fn button_due(&self) -> (due: bool)
        ensures
            due == (self.millis % BUTTON_PERIOD_MS == 0),
    {
        self.millis % BUTTON_PERIOD_MS == 0
    }

    /// Takes a sample of the button (`is_pressed`: held now); on a release
    /// the display unit moves on. Tells whether the unit changed.
    pub fn sample_button(&mut self, is_pressed: bool) -> (changed: bool)
        ensures
            changed == rising_edge(old(self).button@, is_pressed),
            final(self).button@ == is_pressed,
            final(self).unit == (if changed {
                spec_next_unit(old(self).unit)
            } else {
                old(self).unit
            }),
            final(self).unit == unit_after_samples(old(self).unit, old(self).button@, seq![is_pressed]),
            final(self).millis == old(self).millis,
    {
        let ghost one = seq![is_pressed];
        assert(one.drop_last() =~= Seq::<bool>::empty());
        assert(one.last() == is_pressed);
        assert(unit_after_samples(self.unit, self.button@, one.drop_last()) == self.unit);
        assert(last_sample(self.button@, one.drop_last()) == self.button@);
        let changed = self.button.check_rising_edge(is_pressed);
        if changed {
            self.unit = self.unit.next();
        }
        changed
    }

    /// Ends a pass of the loop: one more millisecond, stopping at `u64::MAX`.
    pub fn tick(&mut self)
        ensures
            final(self).millis == (if old(self).millis == u64::MAX {
                u64::MAX as int
            } else {
                old(self).millis + 1
            }),
            final(self).unit == old(self).unit,
            final(self).button@ == old(self).button@,
    {
        self.millis = self.millis.saturating_add(1);
    }
}

/// Three releases bring the unit back, and each release changes it:
/// Celsius, then Fahrenheit, then Kelvin, then Celsius again.
pub proof fn lemma_unit_cycle(unit: Unit)
    ensures
        spec_next_unit(spec_next_unit(spec_next_unit(unit))) == unit,
        spec_next_unit(unit) != unit,
        spec_next_unit(spec_next_unit(unit)) != unit,
        spec_next_unit(Unit::Celsius) == Unit::Fahrenheit,
        spec_next_unit(Unit::Fahrenheit) == Unit::Kelvin,
        spec_next_unit(Unit::Kelvin) == Unit::Celsius,
{
}

/// Every pass that measures the temperature also samples the button.
pub proof fn lemma_temperature_pass_samples_button(millis: u64)
    ensures
        millis % TEMPERATURE_PERIOD_MS == 0 ==> millis % BUTTON_PERIOD_MS == 0,
{
}

/// The warmer the temperature, the warmer the colour: blue below green
/// below red.
pub open spec fn warmth(color: Color) -> int {
    match color {
        Color::Blue => 0,
        Color::Green => 1,
        Color::Red => 2,
        _ => 1,
    }
}

/// A warmer temperature never gets a colder colour, and the temperature
/// colour is never yellow nor off.
pub proof fn lemma_temperature_color_monotone(t1: i32, t2: i32)
    requires
        t1 <= t2,
    ensures
        warmth(spec_temperature_color(t1)) <= warmth(spec_temperature_color(t2)),
        spec_temperature_color(t1) != Color::Yellow,
        spec_temperature_color(t1) != Color::Off,
{
}

/// The display unit after sampling the button with each of `samples` in
/// turn, one `sample_button` per sample.
pub open spec fn unit_after_samples(unit: Unit, was_pressed: bool, samples: Seq<bool>) -> Unit
    decreases samples.len(),
{
    if samples.len() == 0 {
        unit
    } else {
        let before = samples.drop_last();
        let u = unit_after_samples(unit, was_pressed, before);
        if rising_edge(last_sample(was_pressed, before), samples.last()) {
            spec_next_unit(u)
        } else {
            u
        }
    }
}

/// The unit `n` steps along the cycle from `unit`.
pub open spec fn advance_unit(unit: Unit, n: nat) -> Unit
    decreases n,
{
    if n == 0 {
        unit
    } else {
        spec_next_unit(advance_unit(unit, (n - 1) as nat))
    }
}

/// Only the number of steps modulo three matters.
proof fn lemma_advance_unit_mod(unit: Unit, n: nat)
    ensures
        advance_unit(unit, n) == advance_unit(unit, n % 3),
    decreases n,
{
    if n >= 3 {
        let m = (n - 3) as nat;
        lemma_advance_unit_mod(unit, m);
        assert(m % 3 == n % 3);
        assert(advance_unit(unit, (m + 1) as nat) == spec_next_unit(advance_unit(unit, m)));
        assert(advance_unit(unit, (m + 2) as nat) == spec_next_unit(
            advance_unit(unit, (m + 1) as nat),
        ));
        assert(advance_unit(unit, n) == spec_next_unit(advance_unit(unit, (m + 2) as nat)));
        lemma_unit_cycle(advance_unit(unit, m));
    }
}

/// A run of button samples switches the unit once per release: the unit
/// ends as many steps along the cycle as there were releases, which is the
/// number of releases modulo three.
pub proof fn lemma_unit_follows_releases(unit: Unit, was_pressed: bool, samples: Seq<bool>)
    ensures
        unit_after_samples(unit, was_pressed, samples) == advance_unit(
            unit,
            count_releases(was_pressed, samples),
        ),
        unit_after_samples(unit, was_pressed, samples) == advance_unit(
            unit,
            count_releases(was_pressed, samples) % 3,
        ),
    decreases samples.len(),
{
    if samples.len() > 0 {
        let before = samples.drop_last();
        lemma_unit_follows_releases(unit, was_pressed, before);
        let k = count_releases(was_pressed, before);
        assert(last_sample(was_pressed, before) == prev_sample(
            was_pressed,
            samples,
            samples.len() - 1,
        ));
        if rising_edge(last_sample(was_pressed, before), samples.last()) {
            assert(advance_unit(unit, k + 1) == spec_next_unit(advance_unit(unit, k)));
        }
    }
    lemma_advance_unit_mod(unit, count_releases(was_pressed, samples));
}

} // verus!
