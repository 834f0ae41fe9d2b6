use iced_plotter::colormap::{lerp_color, Color, ColormapName};
use iced_plotter::plotter::ColorMode;

#[test]
fn test_colormap_bounds() {
    // Fractions outside [0, 1] are clamped.
    let c = ColormapName::Viridis.sample(1500, 1000);
    for ch in [c.r, c.g, c.b] {
        let v = ch as f32 / 255.0;
        assert!(v >= 0.0 && v <= 1.0);
    }
    assert_eq!(c, ColormapName::Viridis.sample(1000, 1000));

    let c = ColormapName::Viridis.sample(-500, 1000);
    for ch in [c.r, c.g, c.b] {
        let v = ch as f32 / 255.0;
        assert!(v >= 0.0 && v <= 1.0);
    }
    assert_eq!(c, ColormapName::Viridis.sample(0, 1000));
}

#[test]
fn test_colormap_endpoints() {
    let start = ColormapName::Viridis.sample(0, 1000);
    let end = ColormapName::Viridis.sample(1000, 1000);
    let f = |v: u8| v as f32 / 255.0;

    // Start should be dark purple-ish
    assert!(f(start.r) < 0.5 && f(start.b) > 0.2);

    // End should be yellow-ish
    assert!(f(end.r) > 0.9 && f(end.g) > 0.8 && f(end.b) < 0.3);
}

#[test]
fn colormap_endpoints_are_first_and_last_stops() {
    assert_eq!(ColormapName::Heat.sample(0, 7), Color::from_rgb(0, 0, 0));
    assert_eq!(ColormapName::Heat.sample(7, 7), Color::from_rgb(255, 255, 0));
    assert_eq!(ColormapName::Grayscale.sample(0, 3), Color::from_rgb(0, 0, 0));
    assert_eq!(ColormapName::Grayscale.sample(3, 3), Color::from_rgb(255, 255, 255));
    assert_eq!(ColormapName::Turbo.sample(1, 1), Color::from_rgb(224, 0, 0));
}

#[test]
fn colormap_interpolates_between_stops() {
    // Heat: halfway between (0.25, dark red 128) and (0.5, red 255).
    let c = ColormapName::Heat.sample(375, 1000);
    assert_eq!(c, Color::from_rgb(191, 0, 0));
    // Exactly on a stop.
    assert_eq!(ColormapName::Heat.sample(1, 2), Color::from_rgb(255, 0, 0));
    // Grayscale is linear.
    assert_eq!(ColormapName::Grayscale.sample(1, 2), Color::from_rgb(127, 127, 127));
}

#[test]
fn lerp_color_blends_and_clamps() {
    let blue = Color::from_rgb(0, 0, 255);
    let red = Color::from_rgb(255, 0, 0);
    assert_eq!(lerp_color(blue, red, 0, 10), blue);
    assert_eq!(lerp_color(blue, red, 10, 10), red);
    assert_eq!(lerp_color(blue, red, 1, 2), Color::from_rgb(127, 0, 127));
    assert_eq!(lerp_color(blue, red, -5, 10), blue);
    assert_eq!(lerp_color(blue, red, 50, 10), red);
    // The blend is opaque.
    let faint = Color::from_rgba(10, 20, 30, 40);
    assert_eq!(lerp_color(faint, faint, 1, 3).a, 255);
}

#[test]
fn representative_colors() {
    let blue = Color::from_rgb(0, 0, 255);
    let red = Color::from_rgb(255, 0, 0);
    assert_eq!(ColorMode::solid(blue).representative_color(), blue);
    assert_eq!(ColorMode::value_gradient(blue, red).representative_color(), Color::from_rgb(127, 0, 127));
    assert_eq!(ColorMode::index_gradient(red, red).representative_color(), red);
    assert_eq!(
        ColorMode::colormap(ColormapName::Grayscale).representative_color(),
        Color::from_rgb(127, 127, 127)
    );
}
