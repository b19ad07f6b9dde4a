use harmony::client::colors::ColorShape;
use harmony::client::colors::LinearGradient;
use harmony::client::colors::RadialGradient;
use harmony::client::colors::Rgb;
use harmony::client::colors::Rgba;

#[test]
fn rgb_renders_decimal_components() {
    assert_eq!(Rgb::new(1, 2, 3).to_css(), "rgb(1, 2, 3)");
    assert_eq!(Rgb::new(0, 128, 255).to_css(), "rgb(0, 128, 255)");
}

#[test]
fn rgba_renders_four_components() {
    assert_eq!(Rgba::new(255, 0, 10, 128).to_css(), "rgba(255, 0, 10, 128)");
}

#[test]
fn linear_gradient_with_percents() {
    let g = LinearGradient::new("red".to_string(), 50, "blue".to_string(), 100);
    assert_eq!(g.to_css(), "linear-gradient(red 50%, blue)");
}

#[test]
fn repeating_linear_gradient() {
    let g = LinearGradient::new_repeating("red".to_string(), 100, "blue".to_string(), 25);
    assert_eq!(g.to_css(), "repeating-linear-gradient(red, blue 25%)");
}

#[test]
fn radial_gradient_with_position() {
    let g = RadialGradient::new(
        ColorShape::Circle,
        30,
        "red".to_string(),
        "blue".to_string(),
    );
    assert_eq!(g.to_css(), "radial-gradient(circle at 30%, red, blue)");
}

#[test]
fn radial_gradient_full_position_omits_at() {
    let g = RadialGradient::new_repeating(
        ColorShape::Ellipse,
        100,
        "red".to_string(),
        "blue".to_string(),
    );
    assert_eq!(g.to_css(), "repeating-radial-gradient(ellipse, red, blue)");
}
