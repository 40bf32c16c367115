//! The colour cycle of the LED demo: while the button is held the LED steps
//! through red, blue and green, once per pass of the loop.

use vstd::prelude::*;
use crate::rgb_led::Color;

verus! {

/// Number of colours in the cycle.
pub const LED_STATES: i32 = 3;

/// The state after one pass of the loop: one step further while the button
/// is held, back to the first colour after the last one.
pub open spec fn spec_cycle_led_state(led_state: i32, pressed: bool) -> int {
    let stepped = if pressed {
        led_state + 1
    } else {
        led_state as int
    };
    if stepped >= LED_STATES {
        0
    } else {
        stepped
    }
}

/// The colour of each state.
pub open spec fn spec_led_state_color(led_state: i32) -> Color {
    if led_state == 0 {
        Color::Red
    } else if led_state == 1 {
        Color::Blue
    } else if led_state == 2 {
        Color::Green
    } else {
        Color::Off
    }
}

/// One pass of the loop over the state.
pub fn cycle_led_state(led_state: i32, pressed: bool) -> (next: i32)
    requires
        pressed ==> led_state < i32::MAX,
    ensures
        next == spec_cycle_led_state(led_state, pressed),
{
    let mut state = led_state;
    if pressed {
        state += 1;
    }
    if state >= LED_STATES {
        state = 0;
    }
    state
}

/// The colour that the LED shows in a state.
pub fn led_state_color(led_state: i32) -> (color: Color)
    ensures
        color == spec_led_state_color(led_state),
{
    match led_state {
        0 => Color::Red,
        1 => Color::Blue,
        2 => Color::Green,
        _ => Color::Off,
    }
}

/// From a state of the cycle the loop only reaches states of the cycle, and
/// none of them leaves the LED dark.
pub proof fn lemma_cycle_stays_in_range(led_state: i32, pressed: bool)
    requires
        0 <= led_state < LED_STATES,
    ensures
        0 <= spec_cycle_led_state(led_state, pressed) < LED_STATES,
        spec_led_state_color(led_state) != Color::Off,
        spec_led_state_color(spec_cycle_led_state(led_state, pressed) as i32) != Color::Off,
{
}

/// Holding the button for three passes comes back to the same colour, and a
/// pass with the button released changes nothing.
pub proof fn lemma_cycle_period(led_state: i32)
    requires
        0 <= led_state < LED_STATES,
    ensures
        spec_cycle_led_state(
            spec_cycle_led_state(spec_cycle_led_state(led_state, true) as i32, true) as i32,
            true,
        ) == led_state,
        spec_cycle_led_state(led_state, false) == led_state,
        spec_cycle_led_state(led_state, true) != led_state,
{
}

} // verus!
