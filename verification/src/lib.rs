//! Logic of a CO2 / temperature monitor for the nRF52840 development kit:
//! the colour code of the RGB status LED, the buzzer's tone schedule, the
//! button's edge detection and the decisions of the monitoring loops.
//! The board's pins, timers and sensors are driven by the application around
//! this library; the library decides what they are told.

pub mod buzz;
pub mod pulse;
pub mod rgb_led;
pub mod button;
pub mod color_cycle;
pub mod co2_mod;
pub mod monitor;
