use raytracer::colors::{Color, ColorName};
use raytracer::scalar::Scalar;

fn s(value: f64) -> Scalar {
    Scalar::from_bits(value.to_bits())
}

fn f(value: Scalar) -> f64 {
    f64::from_bits(value.to_bits())
}

fn f64_lt(a: f64, b: f64) -> bool {
    a <= b + f64::EPSILON
}

fn f64_gt(a: f64, b: f64) -> bool {
    a >= b - f64::EPSILON
}

#[test]
fn new_color_with_high_value_is_clamped() {
    let color = Color::new(s(10.0), s(10.0), s(10.0));
    assert!(f64_lt(f(color.red()), 1.0));
    assert!(f64_lt(f(color.green()), 1.0));
    assert!(f64_lt(f(color.blue()), 1.0));
}

#[test]
fn new_color_with_low_value_is_clamped() {
    let color = Color::new(s(-10.0), s(-10.0), s(-10.0));
    assert!(f64_gt(f(color.red()), 0.0));
    assert!(f64_gt(f(color.green()), 0.0));
    assert!(f64_gt(f(color.blue()), 0.0));
}

#[test]
fn add_with_high_color_is_clamped() {
    let color_1 = Color::new(s(1.0), s(1.0), s(1.0));
    let color_2 = Color::new(s(1.0), s(1.0), s(1.0));
    let result = Color::new(
        s(f(color_1.red()) + f(color_2.red())),
        s(f(color_1.green()) + f(color_2.green())),
        s(f(color_1.blue()) + f(color_2.blue())),
    );
    assert!(f64_lt(f(result.red()), 1.0));
    assert!(f64_lt(f(result.green()), 1.0));
    assert!(f64_lt(f(result.blue()), 1.0));
}

#[test]
fn mul_with_high_constant_is_clamped() {
    let color = Color::new(s(1.0), s(1.0), s(1.0));
    let result = Color::new(
        s(10.0 * f(color.red())),
        s(10.0 * f(color.green())),
        s(10.0 * f(color.blue())),
    );
    assert!(f64_lt(f(result.red()), 1.0));
    assert!(f64_lt(f(result.green()), 1.0));
    assert!(f64_lt(f(result.blue()), 1.0));
}

#[test]
fn new_color_keeps_channels_in_range() {
    let color = Color::new(s(0.25), s(0.0), s(1.0));
    assert_eq!(f(color.red()), 0.25);
    assert_eq!(f(color.green()), 0.0);
    assert_eq!(f(color.blue()), 1.0);
}

#[test]
fn new_color_clamps_each_channel_on_its_own() {
    let color = Color::new(s(-3.0), s(0.5), s(7.0));
    assert_eq!(f(color.red()), 0.0);
    assert_eq!(f(color.green()), 0.5);
    assert_eq!(f(color.blue()), 1.0);
}

#[test]
fn every_channel_of_a_color_is_in_the_unit_interval() {
    let values = [
        -1e300,
        -10.0,
        -1e-300,
        -0.0,
        0.0,
        1e-300,
        0.5,
        1.0,
        1.0 + f64::EPSILON,
        10.0,
        1e300,
        f64::INFINITY,
        f64::NEG_INFINITY,
    ];
    for r in values {
        for g in values {
            let color = Color::new(s(r), s(g), s(r));
            for channel in [color.red(), color.green(), color.blue()] {
                let value = f(channel);
                assert!(value >= 0.0 && value <= 1.0, "{:?}", value);
            }
        }
    }
}

#[test]
fn a_nan_channel_stays_a_nan() {
    let color = Color::new(s(f64::NAN), s(2.0), s(-2.0));
    assert!(f(color.red()).is_nan());
    assert_eq!(f(color.green()), 1.0);
    assert_eq!(f(color.blue()), 0.0);
}

#[test]
fn default_color_is_black() {
    let color = <Color as Default>::default();
    assert_eq!(f(color.red()), 0.0);
    assert_eq!(f(color.green()), 0.0);
    assert_eq!(f(color.blue()), 0.0);
}

#[test]
fn named_colors_have_their_channels() {
    let expected = [
        (ColorName::Black, (0.0, 0.0, 0.0)),
        (ColorName::White, (1.0, 1.0, 1.0)),
        (ColorName::Red, (1.0, 0.0, 0.0)),
        (ColorName::Green, (0.0, 1.0, 0.0)),
        (ColorName::Blue, (0.0, 0.0, 1.0)),
        (ColorName::Yellow, (1.0, 1.0, 0.0)),
    ];
    for (name, (r, g, b)) in expected {
        let color = Color::named(name);
        assert_eq!(f(color.red()), r);
        assert_eq!(f(color.green()), g);
        assert_eq!(f(color.blue()), b);
    }
}

#[test]
fn color_from_str_reads_the_names() {
    let yellow = Color::from_str("yellow").unwrap();
    assert_eq!(
        (f(yellow.red()), f(yellow.green()), f(yellow.blue())),
        (1.0, 1.0, 0.0)
    );
    let blue = Color::from_str("blue").unwrap();
    assert_eq!(
        (f(blue.red()), f(blue.green()), f(blue.blue())),
        (0.0, 0.0, 1.0)
    );
    assert!(Color::from_str("black").is_ok());
    assert!(Color::from_str("white").is_ok());
    assert!(Color::from_str("green").is_ok());
}

#[test]
fn color_from_str_ignores_the_case() {
    let red = Color::from_str("RED").unwrap();
    assert_eq!((f(red.red()), f(red.green()), f(red.blue())), (1.0, 0.0, 0.0));
    let white = Color::from_str("WhItE").unwrap();
    assert_eq!(
        (f(white.red()), f(white.green()), f(white.blue())),
        (1.0, 1.0, 1.0)
    );
}

#[test]
fn color_from_str_refuses_other_texts() {
    assert_eq!(
        Color::from_str("Purple").unwrap_err(),
        "purple is not a valid color reference"
    );
    assert_eq!(
        Color::from_str("").unwrap_err(),
        " is not a valid color reference"
    );
    assert!(Color::from_str("red ").is_err());
}

#[test]
fn color_name_from_lowercase_is_exact() {
    assert_eq!(
        ColorName::from_lowercase(&"green".to_string()),
        Some(ColorName::Green)
    );
    assert_eq!(ColorName::from_lowercase(&"Green".to_string()), None);
    assert_eq!(ColorName::from_lowercase(&"".to_string()), None);
}
