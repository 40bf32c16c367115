//! The CO2 sensor demo: while the sensor has no measurement ready the LED
//! shows red, and it turns green once data is ready.

use vstd::prelude::*;
use crate::rgb_led::Color;

verus! {

/// The colour shown while waiting for the sensor's first measurement.
pub fn data_ready_color(ready: bool) -> (color: Color)
    ensures
        ready ==> color == Color::Green,
        !ready ==> color == Color::Red,
{
    if ready {
        Color::Green
    } else {
        Color::Red
    }
}

} // verus!
