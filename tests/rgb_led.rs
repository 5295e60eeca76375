use ft_hal::line::{OutputLine, PinLevel};
use ft_hal::rgb_led::{Color, RgbLed};

const H: PinLevel = PinLevel::High;
const L: PinLevel = PinLevel::Low;

fn shown(color: Color) -> (Vec<PinLevel>, Vec<PinLevel>, Vec<PinLevel>) {
    let mut led = RgbLed::new(OutputLine::new(), OutputLine::new(), OutputLine::new());
    led.show_color(color);
    led.take_pending()
}

#[test]
fn yellow_is_red_and_green() {
    assert_eq!(shown(Color::Yellow), (vec![H], vec![H], vec![L]));
}

#[test]
fn off_is_all_low() {
    assert_eq!(shown(Color::Off), (vec![L], vec![L], vec![L]));
    let mut led = RgbLed::new(OutputLine::new(), OutputLine::new(), OutputLine::new());
    led.show_color(Color::White);
    led.take_pending();
    led.off();
    assert_eq!(led.take_pending(), (vec![L], vec![L], vec![L]));
}

#[test]
fn every_color_has_its_own_triple() {
    let table = [
        (Color::Off, (L, L, L)),
        (Color::Red, (H, L, L)),
        (Color::Green, (L, H, L)),
        (Color::Blue, (L, L, H)),
        (Color::Yellow, (H, H, L)),
        (Color::Cyan, (L, H, H)),
        (Color::Magenta, (H, L, H)),
        (Color::White, (H, H, H)),
    ];
    let mut seen = Vec::new();
    for (color, (r, g, b)) in table {
        let got = shown(color);
        assert_eq!(got, (vec![r], vec![g], vec![b]));
        assert!(!seen.contains(&got));
        seen.push(got);
    }
}
