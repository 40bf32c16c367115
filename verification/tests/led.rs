use co2::pulse::PulseStep;
use co2::rgb_led::{Color, LEDColor, Level, ERROR_BLINKS, ERROR_BLINK_MS};

fn levels(led: &LEDColor) -> (Level, Level, Level) {
    (led.r, led.g, led.b)
}

#[test]
fn init_is_dark() {
    let led = LEDColor::init();
    assert_eq!(levels(&led), (Level::High, Level::High, Level::High));
}

#[test]
fn each_color_drives_its_pins_low() {
    let mut led = LEDColor::init();
    led.red();
    assert_eq!(levels(&led), (Level::Low, Level::High, Level::High));
    led.green();
    assert_eq!(levels(&led), (Level::High, Level::Low, Level::High));
    led.blue();
    assert_eq!(levels(&led), (Level::High, Level::High, Level::Low));
    led.yellow();
    assert_eq!(levels(&led), (Level::Low, Level::Low, Level::High));
    led.off();
    assert_eq!(levels(&led), (Level::High, Level::High, Level::High));
}

#[test]
fn show_matches_named_methods() {
    let colors = [Color::Red, Color::Blue, Color::Green, Color::Yellow, Color::Off];
    let mut seen = Vec::new();
    for color in colors {
        let mut shown = LEDColor::init();
        shown.show(color);
        let mut named = LEDColor::init();
        match color {
            Color::Red => named.red(),
            Color::Blue => named.blue(),
            Color::Green => named.green(),
            Color::Yellow => named.yellow(),
            Color::Off => named.off(),
        }
        assert_eq!(shown, named);
        assert!(!seen.contains(&shown));
        seen.push(shown);
    }
}

#[test]
fn error_blink_is_ten_red_flashes() {
    let mut led = LEDColor::init();
    led.green();
    let mut blink = led.error_blink_red();
    assert_eq!(blink.steps_left(), 4 * ERROR_BLINKS as u64);
    let mut red_flashes = 0;
    let mut waited = 0u32;
    while let Some(step) = blink.next_step() {
        led.apply_blink(step);
        match step {
            PulseStep::On => {
                red_flashes += 1;
                assert_eq!(levels(&led), (Level::Low, Level::High, Level::High));
            }
            PulseStep::Off => assert_eq!(levels(&led), (Level::High, Level::High, Level::High)),
            PulseStep::Wait(ms) => {
                assert_eq!(ms, ERROR_BLINK_MS);
                waited += ms;
            }
        }
    }
    assert_eq!(red_flashes, 10);
    assert_eq!(waited, 4000);
    assert_eq!(levels(&led), (Level::High, Level::High, Level::High));
}
