use co2::color_cycle::{cycle_led_state, led_state_color};
use co2::rgb_led::Color;

#[test]
fn held_button_steps_through_colors() {
    let mut state = 0;
    let mut colors = Vec::new();
    for _ in 0..6 {
        state = cycle_led_state(state, true);
        colors.push(led_state_color(state));
    }
    assert_eq!(
        colors,
        vec![Color::Blue, Color::Green, Color::Red, Color::Blue, Color::Green, Color::Red]
    );
}

#[test]
fn released_button_keeps_color() {
    assert_eq!(cycle_led_state(0, false), 0);
    assert_eq!(cycle_led_state(2, false), 2);
    assert_eq!(led_state_color(0), Color::Red);
}

#[test]
fn out_of_cycle_states() {
    assert_eq!(cycle_led_state(7, false), 0);
    assert_eq!(cycle_led_state(-1, true), 0);
    assert_eq!(cycle_led_state(-5, false), -5);
    assert_eq!(cycle_led_state(i32::MAX, false), 0);
    assert_eq!(led_state_color(3), Color::Off);
    assert_eq!(led_state_color(-1), Color::Off);
}
