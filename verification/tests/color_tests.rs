use khafre::color::{ColorRef, ColorScheme, Rgb, ThemePreference};
use khafre::theme::get_color_scheme;

#[test]
fn test_ansi_slots_resolve_to_scheme() {
    let dark = ColorScheme::dark();
    let light = ColorScheme::light();
    for i in 0..16u8 {
        let d = dark.resolve_ansi(i);
        assert_eq!((d.r, d.g, d.b), (dark.ansi[i as usize].r, dark.ansi[i as usize].g, dark.ansi[i as usize].b));
        let l = light.resolve_ansi(i);
        assert_eq!((l.r, l.g, l.b), (light.ansi[i as usize].r, light.ansi[i as usize].g, light.ansi[i as usize].b));
    }
}

#[test]
fn test_cube_corners_and_grayscale_ends() {
    let scheme = ColorScheme::dark();
    let c16 = scheme.resolve_ansi(16);
    assert_eq!((c16.r, c16.g, c16.b), (0, 0, 0));
    let c231 = scheme.resolve_ansi(231);
    assert_eq!((c231.r, c231.g, c231.b), (255, 255, 255));
    let c232 = scheme.resolve_ansi(232);
    assert_eq!((c232.r, c232.g, c232.b), (8, 8, 8));
    let c255 = scheme.resolve_ansi(255);
    assert_eq!((c255.r, c255.g, c255.b), (238, 238, 238));
}

#[test]
fn test_cube_level_set() {
    let scheme = ColorScheme::dark();
    // index 16 + 1*36 + 2*6 + 3 = 67 -> levels (51, 102, 153)
    let c = scheme.resolve_ansi(67);
    assert_eq!((c.r, c.g, c.b), (51, 102, 153));
}

#[test]
fn test_resolve_references() {
    let scheme = ColorScheme::dark();
    let fg = scheme.resolve(ColorRef::Foreground);
    assert_eq!((fg.r, fg.g, fg.b), (212, 212, 212));
    let bg = scheme.resolve(ColorRef::Background);
    assert_eq!((bg.r, bg.g, bg.b), (30, 30, 30));
    let cur = scheme.resolve(ColorRef::Cursor);
    assert_eq!((cur.r, cur.g, cur.b), (212, 212, 212));
    let idx = scheme.resolve(ColorRef::Indexed(1));
    assert_eq!((idx.r, idx.g, idx.b), (205, 49, 49));
    let direct = scheme.resolve(ColorRef::Direct(Rgb::new(1, 2, 3)));
    assert_eq!((direct.r, direct.g, direct.b), (1, 2, 3));
}

#[test]
fn test_rgb_to_css_and_hex() {
    let c = Rgb::new(30, 7, 212);
    assert_eq!(c.to_css(), "rgb(30,7,212)");
    assert_eq!(c.to_hex(), "#1e07d4");
    assert_eq!(Rgb::new(0, 0, 0).to_hex(), "#000000");
    assert_eq!(Rgb::new(255, 255, 255).to_hex(), "#ffffff");
}

#[test]
fn test_get_color_scheme_preferences() {
    let light = get_color_scheme(ThemePreference::Light, true);
    assert_eq!((light.background.r, light.background.g, light.background.b), (255, 255, 255));
    let dark = get_color_scheme(ThemePreference::Dark, false);
    assert_eq!((dark.background.r, dark.background.g, dark.background.b), (30, 30, 30));
    let sys_dark = get_color_scheme(ThemePreference::System, true);
    assert_eq!((sys_dark.background.r, sys_dark.background.g, sys_dark.background.b), (30, 30, 30));
    let sys_light = get_color_scheme(ThemePreference::System, false);
    assert_eq!(
        (sys_light.background.r, sys_light.background.g, sys_light.background.b),
        (255, 255, 255)
    );
}
