//! The color/power composition algebra and the two actuator models.

use mqtt_pico::leds::{Anim, Color, LedStatus, Level, PwmRgbLed, RgbLed, PWM_DUTY_DENOMINATOR};

fn status(color: Option<Color>, power: Option<u8>) -> LedStatus {
    LedStatus {
        color,
        power,
        anim: Anim::Off,
    }
}

#[test]
fn color_and_power_compose_scaled() {
    let s = status(Some(Color::new(255, 0, 0)), Some(128));
    assert_eq!(s.compose(), Color::new(127, 0, 0));
}

#[test]
fn power_only_composes_achromatic() {
    let s = status(None, Some(200));
    assert_eq!(s.compose(), Color::new(200, 200, 200));
}

#[test]
fn color_only_passes_through() {
    let s = status(Some(Color::new(10, 20, 30)), None);
    assert_eq!(s.compose(), Color::new(10, 20, 30));
}

#[test]
fn nothing_set_composes_black() {
    let s = status(None, None);
    assert_eq!(s.compose(), Color::new(0, 0, 0));
}

#[test]
fn mul_truncates_toward_zero() {
    assert_eq!(Color::new(255, 0, 0).mul(128), Color::new(127, 0, 0));
    assert_eq!(Color::new(255, 255, 255).mul(255), Color::new(254, 254, 254));
    assert_eq!(Color::new(1, 2, 3).mul(255), Color::new(0, 1, 2));
    assert_eq!(Color::new(100, 100, 100).mul(0), Color::new(0, 0, 0));
}

#[test]
fn named_colors() {
    assert_eq!(Color::red(), Color::new(255, 0, 0));
    assert_eq!(Color::green(), Color::new(0, 255, 0));
    assert_eq!(Color::blue(), Color::new(0, 0, 255));
    assert_eq!(Color::off(), Color::new(0, 0, 0));
}

#[test]
fn binary_levels_are_active_low() {
    assert_eq!(RgbLed::binary_to_level(true), Level::Low);
    assert_eq!(RgbLed::binary_to_level(false), Level::High);
}

#[test]
fn binary_actuator_thresholds_each_channel() {
    let mut led = RgbLed {
        red: Level::High,
        green: Level::High,
        blue: Level::High,
    };
    led.set_color(Color::new(0, 240, 1));
    assert_eq!(led.red, Level::High);
    assert_eq!(led.green, Level::Low);
    assert_eq!(led.blue, Level::Low);
}

#[test]
fn binary_actuator_applies_composed_state() {
    let mut led = RgbLed {
        red: Level::High,
        green: Level::High,
        blue: Level::High,
    };
    // Color red at power 1 scales to (0,0,0): every channel off.
    led.apply(&status(Some(Color::red()), Some(1)));
    assert_eq!((led.red, led.green, led.blue), (Level::High, Level::High, Level::High));
    led.apply(&status(Some(Color::red()), None));
    assert_eq!((led.red, led.green, led.blue), (Level::Low, Level::High, Level::High));
}

#[test]
fn pwm_duty_is_square_of_channel() {
    let mut led = PwmRgbLed {
        red: 0,
        green: 0,
        blue: 0,
    };
    led.set(16, 255, 0);
    assert_eq!(led.red, 256);
    assert_eq!(led.green, 65025);
    assert_eq!(led.blue, 0);
    assert!(led.green < PWM_DUTY_DENOMINATOR);
}

#[test]
fn pwm_actuator_applies_composed_state() {
    let mut led = PwmRgbLed {
        red: 0,
        green: 0,
        blue: 0,
    };
    led.apply(&status(None, Some(200)));
    assert_eq!((led.red, led.green, led.blue), (40000, 40000, 40000));
}
