//! The RGB status LED. Its three channels are wired active-low: a channel
//! is lit while its pin is driven low. The library holds the level that each
//! pin must have; whoever owns the pins writes those levels out.

use vstd::prelude::*;
use crate::pulse::{PulseStep, PulseTrain, pulse_steps, total_wait, lemma_pulse_total_wait, lemma_last_period};

verus! {

/// The level of an output pin.
#[derive(Clone, Copy, PartialEq, Eq, Structural, Debug)]
pub enum Level {
    Low,
    High,
}

/// What the RGB LED shows.
#[derive(Clone, Copy, PartialEq, Eq, Structural, Debug)]
pub enum Color {
    Red,
    Blue,
    Green,
    Yellow,
    Off,
}

/// The levels of the red, blue and green pins of the RGB LED.
#[derive(Clone, Copy, PartialEq, Eq, Structural, Debug)]
pub struct LEDColor {
    pub r: Level,
    pub b: Level,
    pub g: Level,
}

/// Number of red flashes that signal an error.
pub const ERROR_BLINKS: u32 = 10;

/// Time the LED stays red, then dark, in each error flash (milliseconds).
pub const ERROR_BLINK_MS: u32 = 200;

/// Whether a channel whose pin has `level` is lit.
pub open spec fn is_lit(level: Level) -> bool {
    level == Level::Low
}

/// The pin levels that show `color`.
pub open spec fn color_levels(color: Color) -> LEDColor {
    match color {
        Color::Red => LEDColor { r: Level::Low, b: Level::High, g: Level::High },
        Color::Blue => LEDColor { r: Level::High, b: Level::Low, g: Level::High },
        Color::Green => LEDColor { r: Level::High, b: Level::High, g: Level::Low },
        Color::Yellow => LEDColor { r: Level::Low, b: Level::High, g: Level::Low },
        Color::Off => LEDColor { r: Level::High, b: Level::High, g: Level::High },
    }
}

/// The LED after one step of the error blinking: red when the wave is on,
/// dark when it is off, unchanged while waiting.
pub open spec fn blink_step(led: LEDColor, step: PulseStep) -> LEDColor {
    match step {
        PulseStep::On => color_levels(Color::Red),
        PulseStep::Off => color_levels(Color::Off),
        PulseStep::Wait(_) => led,
    }
}

/// The LED after a sequence of blinking steps.
pub open spec fn blink_after(led: LEDColor, steps: Seq<PulseStep>) -> LEDColor
    decreases steps.len(),
{
    if steps.len() == 0 {
        led
    } else {
        blink_step(blink_after(led, steps.drop_last()), steps.last())
    }
}

/// The time, in milliseconds, that the LED shows red during the waits of
/// `steps`, starting from `led`: a wait counts when the LED is red once the
/// wait has been carried out.
pub open spec fn red_time(led: LEDColor, steps: Seq<PulseStep>) -> nat
    decreases steps.len(),
{
    if steps.len() == 0 {
        0
    } else {
        red_time(led, steps.drop_last()) + match steps.last() {
            PulseStep::Wait(ms) => if blink_after(led, steps) == color_levels(Color::Red) {
                ms as nat
            } else {
                0
            },
            _ => 0,
        }
    }
}

impl LEDColor {
    /// The LED as its pins are set up: every pin high, so every channel dark.
    pub fn init() -> (led: LEDColor)
        ensures
            led == color_levels(Color::Off),
    {
        LEDColor { r: Level::High, b: Level::High, g: Level::High }
    }

    /// Shows red.
    pub fn red(&mut self)
        ensures
            *final(self) == color_levels(Color::Red),
    {
        self.r = Level::Low;
        self.g = Level::High;
        self.b = Level::High;
    }

    /// Shows blue.
    pub fn blue(&mut self)
        ensures
            *final(self) == color_levels(Color::Blue),
    {
        self.r = Level::High;
        self.g = Level::High;
        self.b = Level::Low;
    }

    /// Shows green.
    pub fn green(&mut self)
        ensures
            *final(self) == color_levels(Color::Green),
    {
        self.r = Level::High;
        self.g = Level::Low;
        self.b = Level::High;
    }

    /// Shows yellow: red and green together.
    pub fn yellow(&mut self)
        ensures
            *final(self) == color_levels(Color::Yellow),
    {
        self.r = Level::Low;
        self.g = Level::Low;
        self.b = Level::High;
    }

    /// Turns every channel off.
    pub fn off(&mut self)
        ensures
            *final(self) == color_levels(Color::Off),
    {
        self.r = Level::High;
        self.g = Level::High;
        self.b = Level::High;
    }

    /// Shows `color`.
    pub fn show(&mut self, color: Color)
        ensures
            *final(self) == color_levels(color),
    {
        match color {
            Color::Red => self.red(),
            Color::Blue => self.blue(),
            Color::Green => self.green(),
            Color::Yellow => self.yellow(),
            Color::Off => self.off(),
        }
    }

    /// The error signal: `ERROR_BLINKS` flashes of red, each lit for
    /// `ERROR_BLINK_MS` and then dark for as long. The steps are carried out
    /// with `apply_blink` and the waits by a timer.
    pub fn error_blink_red(&self) -> (blink: PulseTrain)
        ensures
            blink@ == pulse_steps(ERROR_BLINKS as nat, ERROR_BLINK_MS),
    {
        PulseTrain::new(ERROR_BLINKS, ERROR_BLINK_MS)
    }

    /// Carries out one step of the error blinking on the LED.
    pub fn apply_blink(&mut self, step: PulseStep)
        ensures
            *final(self) == blink_step(*old(self), step),
            step is On ==> final(self).r == Level::Low && final(self).b == Level::High
                && final(self).g == Level::High,
            step is Off ==> final(self).r == Level::High && final(self).b == Level::High
                && final(self).g == Level::High,
            step is Wait ==> *final(self) == *old(self),
    {
        match step {
            PulseStep::On => self.red(),
            PulseStep::Off => self.off(),
            PulseStep::Wait(_) => {},
        }
    }
}

/// Each colour lights exactly its own channels: red the red one, blue the
/// blue one, green the green one, yellow the red and the green ones, and off
/// none.
pub proof fn lemma_lit_channels(color: Color)
    ensures
        is_lit(color_levels(color).r) <==> (color == Color::Red || color == Color::Yellow),
        is_lit(color_levels(color).g) <==> (color == Color::Green || color == Color::Yellow),
        is_lit(color_levels(color).b) <==> color == Color::Blue,
{
}

/// Different colours drive the pins differently, so what the LED shows tells
/// which colour was asked for.
pub proof fn lemma_colors_distinct(c1: Color, c2: Color)
    requires
        c1 != c2,
    ensures
        color_levels(c1) != color_levels(c2),
{
}

/// A wave of at least one period leaves the LED dark, whatever it showed
/// before.
pub proof fn lemma_blink_ends_off(led: LEDColor, cycles: nat, half_period_ms: u32)
    requires
        cycles >= 1,
    ensures
        blink_after(led, pulse_steps(cycles, half_period_ms)) == color_levels(Color::Off),
{
    let s = pulse_steps(cycles, half_period_ms);
    lemma_last_period(cycles, half_period_ms);
    assert(blink_after(led, s.drop_last()) == color_levels(Color::Off));
}

/// The error signal takes `2 * ERROR_BLINKS * ERROR_BLINK_MS` milliseconds
/// and leaves the LED dark.
pub proof fn lemma_error_blink(led: LEDColor)
    ensures
        total_wait(pulse_steps(ERROR_BLINKS as nat, ERROR_BLINK_MS)) == 2 * ERROR_BLINKS
            * ERROR_BLINK_MS,
        blink_after(led, pulse_steps(ERROR_BLINKS as nat, ERROR_BLINK_MS)) == color_levels(
            Color::Off,
        ),
{
    lemma_pulse_total_wait(ERROR_BLINKS as nat, ERROR_BLINK_MS);
    lemma_blink_ends_off(led, ERROR_BLINKS as nat, ERROR_BLINK_MS);
}

/// Waiting never changes what the LED shows: whatever it showed, and after
/// whatever steps, a wait of any length leaves every pin as it was.
pub proof fn lemma_blink_wait_keeps_led(led: LEDColor, steps: Seq<PulseStep>, ms: u32)
    ensures
        blink_step(led, PulseStep::Wait(ms)) == led,
        blink_after(led, steps.push(PulseStep::Wait(ms))) == blink_after(led, steps),
{
    assert(steps.push(PulseStep::Wait(ms)).drop_last() =~= steps);
}

/// In flash `k` of a blinking wave the LED is red (red pin low, the others
/// high) for the whole first wait and dark for the whole second one.
pub proof fn lemma_blink_period_shape(led: LEDColor, cycles: nat, half_period_ms: u32, k: int)
    requires
        0 <= k < cycles,
    ensures
        blink_after(led, pulse_steps(cycles, half_period_ms).take(4 * k + 2)) == (LEDColor {
            r: Level::Low,
            b: Level::High,
            g: Level::High,
        }),
        pulse_steps(cycles, half_period_ms)[4 * k + 1] == PulseStep::Wait(half_period_ms),
        blink_after(led, pulse_steps(cycles, half_period_ms).take(4 * k + 4)) == (LEDColor {
            r: Level::High,
            b: Level::High,
            g: Level::High,
        }),
        pulse_steps(cycles, half_period_ms)[4 * k + 3] == PulseStep::Wait(half_period_ms),
{
    let s = pulse_steps(cycles, half_period_ms);
    let a = s.take(4 * k + 2);
    let b = s.take(4 * k + 4);
    assert((4 * k) % 4 == 0 && (4 * k + 1) % 4 == 1 && (4 * k + 2) % 4 == 2 && (4 * k + 3) % 4
        == 3);
    assert(a.last() == PulseStep::Wait(half_period_ms));
    assert(a.drop_last().last() == PulseStep::On);
    assert(blink_after(led, a) == blink_after(led, a.drop_last()));
    assert(b.last() == PulseStep::Wait(half_period_ms));
    assert(b.drop_last().last() == PulseStep::Off);
    assert(blink_after(led, b) == blink_after(led, b.drop_last()));
}

/// A blinking wave of `cycles` periods shows red for exactly
/// `cycles * half_period_ms` of its waiting time: half of it.
pub proof fn lemma_blink_red_time(led: LEDColor, cycles: nat, half_period_ms: u32)
    ensures
        red_time(led, pulse_steps(cycles, half_period_ms)) == cycles * half_period_ms,
    decreases cycles,
{
    let red = color_levels(Color::Red);
    if cycles > 0 {
        let c1 = (cycles - 1) as nat;
        lemma_blink_red_time(led, c1, half_period_ms);
        let s = pulse_steps(cycles, half_period_ms);
        let s1 = s.drop_last();
        let s2 = s1.drop_last();
        let s3 = s2.drop_last();
        let s4 = s3.drop_last();
        let n = 4 * cycles;
        assert((n - 1) % 4 == 3 && (n - 2) % 4 == 2 && (n - 3) % 4 == 1 && (n - 4) % 4 == 0);
        assert(s4 =~= pulse_steps(c1, half_period_ms));
        assert(s.last() == PulseStep::Wait(half_period_ms));
        assert(s1.last() == PulseStep::Off);
        assert(s2.last() == PulseStep::Wait(half_period_ms));
        assert(s3.last() == PulseStep::On);
        assert(blink_after(led, s1) != red);
        assert(blink_after(led, s) == blink_after(led, s1));
        assert(blink_after(led, s3) == red);
        assert(blink_after(led, s2) == blink_after(led, s3));
        assert(red_time(led, s) == red_time(led, s1));
        assert(red_time(led, s1) == red_time(led, s2));
        assert(red_time(led, s2) == red_time(led, s3) + half_period_ms);
        assert(red_time(led, s3) == red_time(led, s4));
        assert(c1 * half_period_ms + half_period_ms == cycles * half_period_ms)
            by (nonlinear_arith)
            requires
                c1 + 1 == cycles,
        ;
    } else {
        assert(pulse_steps(cycles, half_period_ms).len() == 0);
        assert(cycles * half_period_ms == 0) by (nonlinear_arith)
            requires
                cycles == 0,
        ;
    }
}

/// The error signal shows red for `ERROR_BLINKS * ERROR_BLINK_MS`
/// milliseconds: `ERROR_BLINK_MS` after each of its flashes.
pub proof fn lemma_error_blink_red_time(led: LEDColor)
    ensures
        red_time(led, pulse_steps(ERROR_BLINKS as nat, ERROR_BLINK_MS)) == ERROR_BLINKS
            * ERROR_BLINK_MS,
{
    lemma_blink_red_time(led, ERROR_BLINKS as nat, ERROR_BLINK_MS);
}

} // verus!
