use cacao::color::{
    Color, ColorAccessor, ColorOp, Contrast, ObjectHandle, OsVersion, ResolveEnv, Style, Theme,
};

fn modern_env() -> ResolveEnv {
    ResolveEnv {
        fallbacks_enabled: true,
        os: OsVersion { major: 11, minor: 2, patch: 3 },
    }
}

fn old_env() -> ResolveEnv {
    ResolveEnv {
        fallbacks_enabled: true,
        os: OsVersion { major: 10, minor: 9, patch: 5 },
    }
}

fn old_env_no_fallbacks() -> ResolveEnv {
    ResolveEnv {
        fallbacks_enabled: false,
        os: OsVersion { major: 10, minor: 9, patch: 5 },
    }
}

fn all_symbolic() -> Vec<Color> {
    vec![
        Color::SystemBlack,
        Color::SystemWhite,
        Color::SystemBrown,
        Color::SystemBlue,
        Color::SystemGreen,
        Color::SystemIndigo,
        Color::SystemOrange,
        Color::SystemPink,
        Color::SystemPurple,
        Color::SystemRed,
        Color::SystemTeal,
        Color::SystemYellow,
        Color::SystemGray,
        Color::SystemGray2,
        Color::SystemGray3,
        Color::SystemGray4,
        Color::SystemGray5,
        Color::SystemGray6,
        Color::Clear,
        Color::Label,
        Color::LabelSecondary,
        Color::LabelTertiary,
        Color::LabelQuaternary,
        Color::SystemFill,
        Color::SystemFillSecondary,
        Color::SystemFillTertiary,
        Color::SystemFillQuaternary,
        Color::PlaceholderText,
        Color::SystemBackground,
        Color::SystemBackgroundSecondary,
        Color::SystemBackgroundTertiary,
        Color::Separator,
        Color::OpaqueSeparator,
        Color::Link,
        Color::DarkText,
        Color::LightText,
    ]
}

#[test]
fn every_symbolic_color_resolves_to_an_accessor() {
    let symbolic = all_symbolic();
    assert_eq!(symbolic.len(), 36);
    for env in [modern_env(), old_env(), old_env_no_fallbacks()] {
        for color in &symbolic {
            match color.resolve(&env) {
                ColorOp::Accessor(_) => {}
                other => panic!("symbolic color resolved to {:?}", other),
            }
        }
    }
}

#[test]
fn rgb_defaults_alpha_to_opaque() {
    for (r, g, b) in [(0, 0, 0), (255, 255, 255), (12, 34, 56), (1, 0, 255)] {
        assert_eq!(Color::rgb(r, g, b), Color::rgba(r, g, b, 255));
    }
}

#[test]
fn hsb_defaults_alpha_to_opaque() {
    for (h, s, b) in [(0, 0, 0), (255, 255, 255), (200, 100, 50)] {
        assert_eq!(Color::hsb(h, s, b), Color::hsba(h, s, b, 255));
    }
}

#[test]
fn hex_is_the_documented_stub() {
    for input in ["", "#ff0000", "00ff00", "not a color", "aabbccdd"] {
        assert_eq!(Color::hex(input), Color::hexa(input, 255));
        assert_eq!(Color::hex(input), Color::SystemRed);
        assert_eq!(Color::hexa(input, 0), Color::SystemRed);
    }
}

#[test]
fn rgba_keeps_its_components() {
    assert_eq!(
        Color::rgba(1, 2, 3, 4),
        Color::Rgba { red: 1, green: 2, blue: 3, alpha: 4 }
    );
    assert_eq!(
        Color::hsba(5, 6, 7, 8),
        Color::Hsba { hue: 5, saturation: 6, brightness: 7, alpha: 8 }
    );
}

#[test]
fn custom_colors_resolve_to_their_construction() {
    let env = modern_env();
    assert_eq!(
        Color::rgba(10, 20, 30, 40).resolve(&env),
        ColorOp::MakeRgba { red: 10, green: 20, blue: 30, alpha: 40 }
    );
    assert_eq!(
        Color::hsba(50, 60, 70, 80).resolve(&env),
        ColorOp::MakeHsba { hue: 50, saturation: 60, brightness: 70, alpha: 80 }
    );
    let handle = ObjectHandle { raw: 0x1234 };
    assert_eq!(Color::Object(handle).resolve(&env), ColorOp::Use(handle));
}

#[test]
fn modern_systems_use_primary_accessors() {
    let env = modern_env();
    assert_eq!(
        Color::SystemRed.resolve(&env),
        ColorOp::Accessor(ColorAccessor::SystemRed)
    );
    assert_eq!(
        Color::Label.resolve(&env),
        ColorOp::Accessor(ColorAccessor::Label)
    );
    assert_eq!(
        Color::SystemBlack.resolve(&env),
        ColorOp::Accessor(ColorAccessor::Black)
    );
    assert_eq!(
        Color::Clear.resolve(&env),
        ColorOp::Accessor(ColorAccessor::Clear)
    );
}

#[test]
fn old_systems_degrade_to_fallback_accessors() {
    let env = old_env();
    assert_eq!(
        Color::SystemRed.resolve(&env),
        ColorOp::Accessor(ColorAccessor::Red)
    );
    assert_eq!(
        Color::SystemTeal.resolve(&env),
        ColorOp::Accessor(ColorAccessor::Blue)
    );
    assert_eq!(
        Color::SystemIndigo.resolve(&env),
        ColorOp::Accessor(ColorAccessor::Magenta)
    );
    assert_eq!(
        Color::Label.resolve(&env),
        ColorOp::Accessor(ColorAccessor::Black)
    );
    assert_eq!(
        Color::Separator.resolve(&env),
        ColorOp::Accessor(ColorAccessor::LightGray)
    );
    // Colors available everywhere keep their accessor even here.
    assert_eq!(
        Color::SystemWhite.resolve(&env),
        ColorOp::Accessor(ColorAccessor::White)
    );
}

#[test]
fn disabled_fallbacks_skip_the_version_check() {
    let env = old_env_no_fallbacks();
    assert_eq!(
        Color::SystemRed.resolve(&env),
        ColorOp::Accessor(ColorAccessor::SystemRed)
    );
    assert_eq!(
        Color::Label.resolve(&env),
        ColorOp::Accessor(ColorAccessor::Label)
    );
}

#[test]
fn version_comparison_is_lexicographic() {
    let v = OsVersion { major: 10, minor: 10, patch: 0 };
    assert!(v.at_least(10, 10, 0));
    assert!(v.at_least(10, 9, 9));
    assert!(v.at_least(9, 99, 99));
    assert!(!v.at_least(10, 10, 1));
    assert!(!v.at_least(10, 11, 0));
    assert!(!v.at_least(11, 0, 0));
    let w = OsVersion { major: 10, minor: 13, patch: 2 };
    assert!(w.at_least(10, 10, 0));
    assert!(!w.at_least(11, 0, 0));
}

#[test]
fn dynamic_colors_store_each_combination_at_construction() {
    let c = Color::dynamic(|style: Style| match (style.theme, style.contrast) {
        (Theme::Light, Contrast::Normal) => Color::rgb(1, 2, 3),
        (Theme::Light, Contrast::High) => Color::rgb(4, 5, 6),
        (Theme::Dark, Contrast::Normal) => Color::rgb(7, 8, 9),
        (Theme::Dark, Contrast::High) => Color::rgb(10, 11, 12),
    });
    let pairs = [
        (Theme::Light, Contrast::Normal, Color::rgb(1, 2, 3)),
        (Theme::Light, Contrast::High, Color::rgb(4, 5, 6)),
        (Theme::Dark, Contrast::Normal, Color::rgb(7, 8, 9)),
        (Theme::Dark, Contrast::High, Color::rgb(10, 11, 12)),
    ];
    for (theme, contrast, expected) in pairs {
        assert_eq!(*c.select(&Style { theme, contrast }), expected);
    }
}

#[test]
fn dynamic_colors_are_frozen_against_later_changes() {
    let mut shade = 100u8;
    let c = {
        let captured = shade;
        Color::dynamic(move |style: Style| {
            if let Theme::Dark = style.theme {
                Color::rgb(captured, captured, captured)
            } else {
                Color::SystemWhite
            }
        })
    };
    shade = 200;
    let _ = shade;
    let dark = Style { theme: Theme::Dark, contrast: Contrast::Normal };
    assert_eq!(*c.select(&dark), Color::rgb(100, 100, 100));
}

#[test]
fn non_dynamic_colors_select_themselves() {
    let c = Color::rgb(1, 2, 3);
    for theme in [Theme::Light, Theme::Dark] {
        for contrast in [Contrast::Normal, Contrast::High] {
            assert_eq!(*c.select(&Style { theme, contrast }), c);
        }
    }
}

#[test]
fn dynamic_colors_resolve_to_their_stored_operations() {
    let env = modern_env();
    let c = Color::dynamic(|style: Style| {
        if let Theme::Dark = style.theme {
            Color::SystemBlack
        } else {
            Color::rgb(9, 9, 9)
        }
    });
    match c.resolve(&env) {
        ColorOp::MakeDynamic { light_normal, light_high, dark_normal, dark_high } => {
            assert_eq!(
                *light_normal,
                ColorOp::MakeRgba { red: 9, green: 9, blue: 9, alpha: 255 }
            );
            assert_eq!(
                *light_high,
                ColorOp::MakeRgba { red: 9, green: 9, blue: 9, alpha: 255 }
            );
            assert_eq!(*dark_normal, ColorOp::Accessor(ColorAccessor::Black));
            assert_eq!(*dark_high, ColorOp::Accessor(ColorAccessor::Black));
        }
        other => panic!("dynamic color resolved to {:?}", other),
    }
}

#[test]
fn clone_preserves_the_color() {
    let colors = [
        Color::SystemTeal,
        Color::rgba(1, 2, 3, 4),
        Color::Object(ObjectHandle { raw: 77 }),
        Color::dynamic(|_style: Style| Color::rgb(5, 5, 5)),
    ];
    for c in &colors {
        assert_eq!(&c.clone(), c);
    }
}
