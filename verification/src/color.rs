//! A wrapper type for the platform's color objects (`NSColor` on macOS,
//! `UIColor` elsewhere). A [`Color`] is either one of the ~35 system-provided
//! symbolic colors, a custom color described by its construction data, or an
//! opaque handle to a platform object supplied from outside. Resolution maps
//! every color to the single platform operation that realizes it, picking a
//! fallback accessor for symbolic colors when the running OS is too old and
//! fallbacks are enabled.

use vstd::prelude::*;

verus! {

/// Represents a rendering style - dark mode or light mode.
#[derive(Clone, Copy, Debug, PartialEq, Eq, Structural)]
pub enum Theme {
    /// The "default" theme on a platform. On macOS, this is Aqua.
    Light,
    /// Dark mode.
    Dark,
}

/// Represents the contrast level for a rendering context.
#[derive(Clone, Copy, Debug, PartialEq, Eq, Structural)]
pub enum Contrast {
    /// The default contrast level for the system.
    Normal,
    /// The high contrast level for the system.
    High,
}

/// A `Style` is passed to you when doing dynamic color calculations. You can
/// opt to provide different colors depending on the settings in here -
/// notably, this is useful for supporting dark mode and high contrast
/// accessibility contexts.
#[derive(Clone, Copy, Debug, PartialEq, Eq, Structural)]
pub struct Style {
    /// The current theme for where this color may render.
    pub theme: Theme,

    /// The current contrast level for where this color may render.
    pub contrast: Contrast,
}

/// The style made of the given theme and contrast.
pub open spec fn style_of(theme: Theme, contrast: Contrast) -> Style {
    Style { theme, contrast }
}

/// An operating system version, as reported by the platform's version query.
#[derive(Clone, Copy, Debug, PartialEq, Eq, Structural)]
pub struct OsVersion {
    pub major: u64,
    pub minor: u64,
    pub patch: u64,
}

/// True when `v` is at least `major`.`minor`.`patch`, comparing the three
/// components lexicographically.
pub open spec fn spec_version_at_least(v: OsVersion, major: u64, minor: u64, patch: u64) -> bool {
    ||| v.major > major
    ||| (v.major == major && v.minor > minor)
    ||| (v.major == major && v.minor == minor && v.patch >= patch)
}

impl OsVersion {
    /// Whether this version is at least `major`.`minor`.`patch`.
    pub fn at_least(&self, major: u64, minor: u64, patch: u64) -> (b: bool)
        ensures
            b == spec_version_at_least(*self, major, minor, patch),
    {
        if self.major != major {
            self.major > major
        } else if self.minor != minor {
            self.minor > minor
        } else {
            self.patch >= patch
        }
    }
}

/// What resolution may read of its surroundings: whether fallback accessors
/// for older systems were compiled in, and the running OS version.
#[derive(Clone, Copy, Debug, PartialEq, Eq, Structural)]
pub struct ResolveEnv {
    /// Whether fallback accessors are enabled at all; when disabled, no
    /// version check occurs and the primary accessor is always used.
    pub fallbacks_enabled: bool,

    /// The version of the running operating system.
    pub os: OsVersion,
}

/// An opaque reference to a platform-owned color object, for colors created
/// outside this crate. The crate never looks inside it; resolution hands it
/// back unchanged.
#[derive(Clone, Copy, Debug, PartialEq, Eq, Structural)]
pub struct ObjectHandle {
    /// The platform object's address, as a plain value. Whoever wraps an
    /// object here is responsible for keeping it retained.
    pub raw: usize,
}

/// The colors a dynamic color stores: one pre-computed color for each of the
/// four (theme, contrast) combinations, frozen at construction time.
#[derive(Debug, PartialEq)]
pub struct DynamicColor {
    /// The color for the light theme at normal contrast.
    pub light_normal: Box<Color>,
    /// The color for the light theme at high contrast.
    pub light_high: Box<Color>,
    /// The color for the dark theme at normal contrast.
    pub dark_normal: Box<Color>,
    /// The color for the dark theme at high contrast.
    pub dark_high: Box<Color>,
}

/// Represents a Color. You can create custom colors using the various
/// initializers, or opt to use a system-provided color. The system provided
/// colors automatically switch to the correct shades for the active
/// appearance when the platform resolves them.
#[derive(Debug, PartialEq)]
pub enum Color {
    /// An existing platform color object, wrapped by the caller. You
    /// typically don't create this variant yourself; use the initializers
    /// found on this enum.
    Object(ObjectHandle),

    /// A custom color in the RGB space, held as the byte components it was
    /// constructed from. The platform object is made at resolution time, with
    /// each byte normalized to the unit interval.
    Rgba { red: u8, green: u8, blue: u8, alpha: u8 },

    /// A custom color in the HSB space, held as the byte components it was
    /// constructed from, normalized like `Rgba` at resolution time.
    Hsba { hue: u8, saturation: u8, brightness: u8, alpha: u8 },

    /// A dynamic color: one pre-computed color per (theme, contrast)
    /// combination, chosen by the platform at paint time.
    Dynamic(DynamicColor),

    /// The system-provided black. Harsh - you probably don't want to use this.
    SystemBlack,

    /// The system-provided absolute white.
    SystemWhite,

    /// The system-provided brown.
    SystemBrown,

    /// The system-provided blue.
    SystemBlue,

    /// The system-provided green.
    SystemGreen,

    /// The system-provided indigo.
    SystemIndigo,

    /// The system-provided orange.
    SystemOrange,

    /// The system-provided pink.
    SystemPink,

    /// The system-provided purple.
    SystemPurple,

    /// The system-provided red.
    SystemRed,

    /// The system-provided teal.
    SystemTeal,

    /// The system-provided yellow.
    SystemYellow,

    /// The system-provided base gray color.
    SystemGray,

    /// The system-provided secondary-level gray color.
    SystemGray2,

    /// The system-provided third-level gray color.
    SystemGray3,

    /// The system-provided fourth-level gray color.
    SystemGray4,

    /// The system-provided fifth-level gray color.
    SystemGray5,

    /// The system-provided sixth-level gray color.
    SystemGray6,

    /// Represents a clear color.
    Clear,

    /// The default label color.
    Label,

    /// The default color for a second-level label.
    LabelSecondary,

    /// The default color for a third-level label.
    LabelTertiary,

    /// The default color for a fourth-level label.
    LabelQuaternary,

    /// The default system fill color.
    SystemFill,

    /// The default system second-level fill color.
    SystemFillSecondary,

    /// The default system third-level fill color.
    SystemFillTertiary,

    /// The default system fourth-level fill color.
    SystemFillQuaternary,

    /// The default color to use for placeholder text.
    PlaceholderText,

    /// The default system background color.
    SystemBackground,

    /// The default system second-level background color.
    SystemBackgroundSecondary,

    /// The default system third-level background color.
    SystemBackgroundTertiary,

    /// The default color to use for thin separators/lines that still allow
    /// content to be visible underneath.
    Separator,

    /// The default color to use for thin separators/lines that do not allow
    /// content underneath to be visible.
    OpaqueSeparator,

    /// The default color to use for rendering links.
    Link,

    /// The un-adaptable color for text on a light background.
    DarkText,

    /// The un-adaptable color for text on a dark background.
    LightText,
}

/// The name of a class accessor on the platform's color class: sending this
/// accessor to the class yields a system-provided color object.
#[derive(Clone, Copy, Debug, PartialEq, Eq, Structural)]
pub enum ColorAccessor {
    Black,
    White,
    Brown,
    Clear,
    SystemBlue,
    Blue,
    SystemGreen,
    Green,
    SystemIndigo,
    Magenta,
    SystemOrange,
    Orange,
    SystemPink,
    Pink,
    SystemPurple,
    Purple,
    SystemRed,
    Red,
    SystemTeal,
    SystemYellow,
    Yellow,
    SystemGray,
    DarkGray,
    SystemGray2,
    Gray,
    SystemGray3,
    LightGray,
    SystemGray4,
    SystemGray5,
    SystemGray6,
    Label,
    SecondaryLabel,
    TertiaryLabel,
    QuaternaryLabel,
    SystemFill,
    SecondarySystemFill,
    TertiarySystemFill,
    QuaternarySystemFill,
    PlaceholderText,
    SystemBackground,
    SecondarySystemBackground,
    TertiarySystemBackground,
    Separator,
    OpaqueSeparator,
    Link,
    DarkText,
    LightText,
}

/// The single platform operation that realizes a color as a platform object.
#[derive(Debug, PartialEq)]
pub enum ColorOp {
    /// Hand back the wrapped platform object unchanged.
    Use(ObjectHandle),

    /// Send the accessor to the platform's color class.
    Accessor(ColorAccessor),

    /// Create an RGB-space color from the byte components, each normalized
    /// to the unit interval.
    MakeRgba { red: u8, green: u8, blue: u8, alpha: u8 },

    /// Create an HSB-space color from the byte components, each normalized
    /// to the unit interval.
    MakeHsba { hue: u8, saturation: u8, brightness: u8, alpha: u8 },

    /// Create a dynamic platform color holding the four realized colors, one
    /// per (theme, contrast) combination, queried by the platform at paint
    /// time. Realizing a nested dynamic color this way is unsupported by the
    /// platform shell and may fail there.
    MakeDynamic {
        light_normal: Box<ColorOp>,
        light_high: Box<ColorOp>,
        dark_normal: Box<ColorOp>,
        dark_high: Box<ColorOp>,
    },
}

impl Clone for DynamicColor {
    /// Clones the four stored colors; the copy equals the original.
    fn clone(&self) -> (c: Self)
        ensures
            c == *self,
        decreases *self,
    {
        DynamicColor {
            light_normal: Box::new((*self.light_normal).clone()),
            light_high: Box::new((*self.light_high).clone()),
            dark_normal: Box::new((*self.dark_normal).clone()),
            dark_high: Box::new((*self.dark_high).clone()),
        }
    }
}

impl Clone for Color {
    /// Clones the color; the copy equals the original.
    fn clone(&self) -> (c: Self)
        ensures
            c == *self,
        decreases *self,
    {
        match self {
            Color::Object(h) => Color::Object(*h),
            Color::Rgba { red, green, blue, alpha } => Color::Rgba {
                red: *red,
                green: *green,
                blue: *blue,
                alpha: *alpha,
            },
            Color::Hsba { hue, saturation, brightness, alpha } => Color::Hsba {
                hue: *hue,
                saturation: *saturation,
                brightness: *brightness,
                alpha: *alpha,
            },
            Color::Dynamic(d) => Color::Dynamic(d.clone()),
            Color::SystemBlack => Color::SystemBlack,
            Color::SystemWhite => Color::SystemWhite,
            Color::SystemBrown => Color::SystemBrown,
            Color::SystemBlue => Color::SystemBlue,
            Color::SystemGreen => Color::SystemGreen,
            Color::SystemIndigo => Color::SystemIndigo,
            Color::SystemOrange => Color::SystemOrange,
            Color::SystemPink => Color::SystemPink,
            Color::SystemPurple => Color::SystemPurple,
            Color::SystemRed => Color::SystemRed,
            Color::SystemTeal => Color::SystemTeal,
            Color::SystemYellow => Color::SystemYellow,
            Color::SystemGray => Color::SystemGray,
            Color::SystemGray2 => Color::SystemGray2,
            Color::SystemGray3 => Color::SystemGray3,
            Color::SystemGray4 => Color::SystemGray4,
            Color::SystemGray5 => Color::SystemGray5,
            Color::SystemGray6 => Color::SystemGray6,
            Color::Clear => Color::Clear,
            Color::Label => Color::Label,
            Color::LabelSecondary => Color::LabelSecondary,
            Color::LabelTertiary => Color::LabelTertiary,
            Color::LabelQuaternary => Color::LabelQuaternary,
            Color::SystemFill => Color::SystemFill,
            Color::SystemFillSecondary => Color::SystemFillSecondary,
            Color::SystemFillTertiary => Color::SystemFillTertiary,
            Color::SystemFillQuaternary => Color::SystemFillQuaternary,
            Color::PlaceholderText => Color::PlaceholderText,
            Color::SystemBackground => Color::SystemBackground,
            Color::SystemBackgroundSecondary => Color::SystemBackgroundSecondary,
            Color::SystemBackgroundTertiary => Color::SystemBackgroundTertiary,
            Color::Separator => Color::Separator,
            Color::OpaqueSeparator => Color::OpaqueSeparator,
            Color::Link => Color::Link,
            Color::DarkText => Color::DarkText,
            Color::LightText => Color::LightText,
        }
    }
}

/// The color `Color::rgba` returns for the given byte components.
pub open spec fn spec_rgba(red: u8, green: u8, blue: u8, alpha: u8) -> Color {
    Color::Rgba { red, green, blue, alpha }
}

/// The color `Color::hsba` returns for the given byte components.
pub open spec fn spec_hsba(hue: u8, saturation: u8, brightness: u8, alpha: u8) -> Color {
    Color::Hsba { hue, saturation, brightness, alpha }
}

impl Color {
    /// Creates and returns a color in the RGB space, with the specified
    /// alpha level.
    pub fn rgba(red: u8, green: u8, blue: u8, alpha: u8) -> (c: Color)
        ensures
            c == spec_rgba(red, green, blue, alpha),
    {
        Color::Rgba { red, green, blue, alpha }
    }

    /// Creates and returns a color in the RGB space, with the alpha level
    /// set to `255` by default. Shorthand for `rgba`.
    pub fn rgb(red: u8, green: u8, blue: u8) -> (c: Color)
        ensures
            c == spec_rgba(red, green, blue, 255),
    {
        Color::rgba(red, green, blue, 255)
    }

    /// Creates and returns a color in the HSB space, with the specified
    /// alpha level.
    pub fn hsba(hue: u8, saturation: u8, brightness: u8, alpha: u8) -> (c: Color)
        ensures
            c == spec_hsba(hue, saturation, brightness, alpha),
    {
        Color::Hsba { hue, saturation, brightness, alpha }
    }

    /// Creates and returns a color in the HSB space, with the alpha level
    /// set to `255` by default. Shorthand for `hsba`.
    pub fn hsb(hue: u8, saturation: u8, brightness: u8) -> (c: Color)
        ensures
            c == spec_hsba(hue, saturation, brightness, 255),
    {
        Color::hsba(hue, saturation, brightness, 255)
    }

    /// Given a hex code and alpha level, returns a `Color` in the RGB space.
    ///
    /// This is a declared but intentionally incomplete convenience path: the
    /// input is ignored and the system red is always returned, whatever the
    /// string holds. Known stub, not a parser.
    pub fn hexa(hex: &str, alpha: u8) -> (c: Color)
        ensures
            c == Color::SystemRed,
    {
        Color::SystemRed
    }

    /// Given a hex code, returns a `Color` in the RGB space with alpha
    /// pre-set to `255`. The same stub as `hexa`: the system red is always
    /// returned, whatever the string holds.
    pub fn hex(hex: &str) -> (c: Color)
        ensures
            c == Color::SystemRed,
    {
        Color::hexa(hex, 255)
    }

    /// Creates and returns a dynamic color, which evaluates the handler once
    /// for each of the four (theme, contrast) combinations, eagerly at
    /// construction, and stores each resulting color keyed by combination.
    /// At paint time the platform picks the stored color for the active
    /// combination; the handler is never invoked again, so a dynamic color
    /// is frozen at construction.
    ///
    /// Returning a dynamic color in your handler is unsupported and may fail
    /// when the color is realized on the platform.
    pub fn dynamic<F: Fn(Style) -> Color>(handler: F) -> (c: Color)
        requires
            forall|s: Style| call_requires(handler, (s,)),
        ensures
            ({
                &&& c matches Color::Dynamic(d)
                &&& call_ensures(handler, (style_of(Theme::Light, Contrast::Normal),),
                    *d.light_normal)
                &&& call_ensures(handler, (style_of(Theme::Light, Contrast::High),), *d.light_high)
                &&& call_ensures(handler, (style_of(Theme::Dark, Contrast::Normal),),
                    *d.dark_normal)
                &&& call_ensures(handler, (style_of(Theme::Dark, Contrast::High),), *d.dark_high)
            }),
    {
        let light_normal = handler(Style { theme: Theme::Light, contrast: Contrast::Normal });
        let light_high = handler(Style { theme: Theme::Light, contrast: Contrast::High });
        let dark_normal = handler(Style { theme: Theme::Dark, contrast: Contrast::Normal });
        let dark_high = handler(Style { theme: Theme::Dark, contrast: Contrast::High });
        Color::Dynamic(DynamicColor {
            light_normal: Box::new(light_normal),
            light_high: Box::new(light_high),
            dark_normal: Box::new(dark_normal),
            dark_high: Box::new(dark_high),
        })
    }

    /// Whether this color is one of the symbolic, system-provided ones.
    pub open spec fn is_symbolic(self) -> bool {
        !(self is Object || self is Rgba || self is Hsba || self is Dynamic)
    }
}

/// The version below which a symbolic color's fallback accessor is used,
/// when fallbacks are enabled: major component.
pub const FALLBACK_BELOW_MAJOR: u64 = 10;

/// The version below which a symbolic color's fallback accessor is used,
/// when fallbacks are enabled: minor component.
pub const FALLBACK_BELOW_MINOR: u64 = 10;

/// The version below which a symbolic color's fallback accessor is used,
/// when fallbacks are enabled: patch component.
pub const FALLBACK_BELOW_PATCH: u64 = 0;

/// The accessor a symbolic color resolves to on systems that provide the
/// full set of system colors.
pub open spec fn spec_primary_accessor(c: Color) -> ColorAccessor
    recommends
        c.is_symbolic(),
{
    match c {
        Color::SystemBlack => ColorAccessor::Black,
        Color::SystemWhite => ColorAccessor::White,
        Color::SystemBrown => ColorAccessor::Brown,
        Color::SystemBlue => ColorAccessor::SystemBlue,
        Color::SystemGreen => ColorAccessor::SystemGreen,
        Color::SystemIndigo => ColorAccessor::SystemIndigo,
        Color::SystemOrange => ColorAccessor::SystemOrange,
        Color::SystemPink => ColorAccessor::SystemPink,
        Color::SystemPurple => ColorAccessor::SystemPurple,
        Color::SystemRed => ColorAccessor::SystemRed,
        Color::SystemTeal => ColorAccessor::SystemTeal,
        Color::SystemYellow => ColorAccessor::SystemYellow,
        Color::SystemGray => ColorAccessor::SystemGray,
        Color::SystemGray2 => ColorAccessor::SystemGray2,
        Color::SystemGray3 => ColorAccessor::SystemGray3,
        Color::SystemGray4 => ColorAccessor::SystemGray4,
        Color::SystemGray5 => ColorAccessor::SystemGray5,
        Color::SystemGray6 => ColorAccessor::SystemGray6,
        Color::Clear => ColorAccessor::Clear,
        Color::Label => ColorAccessor::Label,
        Color::LabelSecondary => ColorAccessor::SecondaryLabel,
        Color::LabelTertiary => ColorAccessor::TertiaryLabel,
        Color::LabelQuaternary => ColorAccessor::QuaternaryLabel,
        Color::SystemFill => ColorAccessor::SystemFill,
        Color::SystemFillSecondary => ColorAccessor::SecondarySystemFill,
        Color::SystemFillTertiary => ColorAccessor::TertiarySystemFill,
        Color::SystemFillQuaternary => ColorAccessor::QuaternarySystemFill,
        Color::PlaceholderText => ColorAccessor::PlaceholderText,
        Color::SystemBackground => ColorAccessor::SystemBackground,
        Color::SystemBackgroundSecondary => ColorAccessor::SecondarySystemBackground,
        Color::SystemBackgroundTertiary => ColorAccessor::TertiarySystemBackground,
        Color::Separator => ColorAccessor::Separator,
        Color::OpaqueSeparator => ColorAccessor::OpaqueSeparator,
        Color::Link => ColorAccessor::Link,
        Color::DarkText => ColorAccessor::DarkText,
        Color::LightText => ColorAccessor::LightText,
        _ => ColorAccessor::Black,
    }
}

/// The accessor a symbolic color degrades to on systems older than the
/// fallback threshold, when fallbacks are enabled. A color whose primary
/// accessor exists everywhere falls back to that same accessor.
pub open spec fn spec_fallback_accessor(c: Color) -> ColorAccessor
    recommends
        c.is_symbolic(),
{
    match c {
        Color::SystemBlack => ColorAccessor::Black,
        Color::SystemWhite => ColorAccessor::White,
        Color::SystemBrown => ColorAccessor::Brown,
        Color::SystemBlue => ColorAccessor::Blue,
        Color::SystemGreen => ColorAccessor::Green,
        Color::SystemIndigo => ColorAccessor::Magenta,
        Color::SystemOrange => ColorAccessor::Orange,
        Color::SystemPink => ColorAccessor::Pink,
        Color::SystemPurple => ColorAccessor::Purple,
        Color::SystemRed => ColorAccessor::Red,
        Color::SystemTeal => ColorAccessor::Blue,
        Color::SystemYellow => ColorAccessor::Yellow,
        Color::SystemGray => ColorAccessor::DarkGray,
        Color::SystemGray2 => ColorAccessor::Gray,
        Color::SystemGray3 => ColorAccessor::LightGray,
        Color::SystemGray4 => ColorAccessor::LightGray,
        Color::SystemGray5 => ColorAccessor::LightGray,
        Color::SystemGray6 => ColorAccessor::LightGray,
        Color::Clear => ColorAccessor::Clear,
        Color::Label => ColorAccessor::Black,
        Color::LabelSecondary => ColorAccessor::Black,
        Color::LabelTertiary => ColorAccessor::Black,
        Color::LabelQuaternary => ColorAccessor::Black,
        Color::SystemFill => ColorAccessor::Clear,
        Color::SystemFillSecondary => ColorAccessor::Clear,
        Color::SystemFillTertiary => ColorAccessor::Clear,
        Color::SystemFillQuaternary => ColorAccessor::Clear,
        Color::PlaceholderText => ColorAccessor::DarkGray,
        Color::SystemBackground => ColorAccessor::Clear,
        Color::SystemBackgroundSecondary => ColorAccessor::Clear,
        Color::SystemBackgroundTertiary => ColorAccessor::Clear,
        Color::Separator => ColorAccessor::LightGray,
        Color::OpaqueSeparator => ColorAccessor::DarkGray,
        Color::Link => ColorAccessor::Blue,
        Color::DarkText => ColorAccessor::Black,
        Color::LightText => ColorAccessor::White,
        _ => ColorAccessor::Black,
    }
}

/// Whether resolution uses the fallback accessors: only when they were
/// compiled in and the running OS is below the fallback threshold. When
/// fallbacks are disabled, no version check occurs and the primary accessor
/// is always used.
pub open spec fn spec_use_fallback(env: ResolveEnv) -> bool {
    env.fallbacks_enabled && !spec_version_at_least(
        env.os,
        FALLBACK_BELOW_MAJOR,
        FALLBACK_BELOW_MINOR,
        FALLBACK_BELOW_PATCH,
    )
}

/// The accessor a symbolic color resolves to under the given environment.
pub open spec fn spec_accessor(c: Color, env: ResolveEnv) -> ColorAccessor
    recommends
        c.is_symbolic(),
{
    if spec_use_fallback(env) {
        spec_fallback_accessor(c)
    } else {
        spec_primary_accessor(c)
    }
}

/// The platform operation that realizes a color under the given
/// environment: symbolic colors become a class accessor, custom colors the
/// construction of a platform object from their components, wrapped objects
/// themselves, and dynamic colors the construction of a platform dynamic
/// color from the four realized stored colors.
pub open spec fn spec_resolve(c: Color, env: ResolveEnv) -> ColorOp
    decreases c,
{
    match c {
        Color::Object(h) => ColorOp::Use(h),
        Color::Rgba { red, green, blue, alpha } => ColorOp::MakeRgba { red, green, blue, alpha },
        Color::Hsba { hue, saturation, brightness, alpha } => ColorOp::MakeHsba {
            hue,
            saturation,
            brightness,
            alpha,
        },
        Color::Dynamic(d) => ColorOp::MakeDynamic {
            light_normal: Box::new(spec_resolve(*d.light_normal, env)),
            light_high: Box::new(spec_resolve(*d.light_high, env)),
            dark_normal: Box::new(spec_resolve(*d.dark_normal, env)),
            dark_high: Box::new(spec_resolve(*d.dark_high, env)),
        },
        _ => ColorOp::Accessor(spec_accessor(c, env)),
    }
}

/// The color a dynamic color stores for the given style; any other color
/// stands for itself under every style.
pub open spec fn spec_select(c: Color, style: Style) -> Color {
    match c {
        Color::Dynamic(d) => match (style.theme, style.contrast) {
            (Theme::Light, Contrast::Normal) => *d.light_normal,
            (Theme::Light, Contrast::High) => *d.light_high,
            (Theme::Dark, Contrast::Normal) => *d.dark_normal,
            (Theme::Dark, Contrast::High) => *d.dark_high,
        },
        _ => c,
    }
}

impl Color {
    /// The accessor this symbolic color resolves to on systems that provide
    /// the full set of system colors.
    fn primary_accessor(&self) -> (a: ColorAccessor)
        requires
            self.is_symbolic(),
        ensures
            a == spec_primary_accessor(*self),
    {
        match self {
            Color::SystemBlack => ColorAccessor::Black,
            Color::SystemWhite => ColorAccessor::White,
            Color::SystemBrown => ColorAccessor::Brown,
            Color::SystemBlue => ColorAccessor::SystemBlue,
            Color::SystemGreen => ColorAccessor::SystemGreen,
            Color::SystemIndigo => ColorAccessor::SystemIndigo,
            Color::SystemOrange => ColorAccessor::SystemOrange,
            Color::SystemPink => ColorAccessor::SystemPink,
            Color::SystemPurple => ColorAccessor::SystemPurple,
            Color::SystemRed => ColorAccessor::SystemRed,
            Color::SystemTeal => ColorAccessor::SystemTeal,
            Color::SystemYellow => ColorAccessor::SystemYellow,
            Color::SystemGray => ColorAccessor::SystemGray,
            Color::SystemGray2 => ColorAccessor::SystemGray2,
            Color::SystemGray3 => ColorAccessor::SystemGray3,
            Color::SystemGray4 => ColorAccessor::SystemGray4,
            Color::SystemGray5 => ColorAccessor::SystemGray5,
            Color::SystemGray6 => ColorAccessor::SystemGray6,
            Color::Clear => ColorAccessor::Clear,
            Color::Label => ColorAccessor::Label,
            Color::LabelSecondary => ColorAccessor::SecondaryLabel,
            Color::LabelTertiary => ColorAccessor::TertiaryLabel,
            Color::LabelQuaternary => ColorAccessor::QuaternaryLabel,
            Color::SystemFill => ColorAccessor::SystemFill,
            Color::SystemFillSecondary => ColorAccessor::SecondarySystemFill,
            Color::SystemFillTertiary => ColorAccessor::TertiarySystemFill,
            Color::SystemFillQuaternary => ColorAccessor::QuaternarySystemFill,
            Color::PlaceholderText => ColorAccessor::PlaceholderText,
            Color::SystemBackground => ColorAccessor::SystemBackground,
            Color::SystemBackgroundSecondary => ColorAccessor::SecondarySystemBackground,
            Color::SystemBackgroundTertiary => ColorAccessor::TertiarySystemBackground,
            Color::Separator => ColorAccessor::Separator,
            Color::OpaqueSeparator => ColorAccessor::OpaqueSeparator,
            Color::Link => ColorAccessor::Link,
            Color::DarkText => ColorAccessor::DarkText,
            Color::LightText => ColorAccessor::LightText,
            _ => ColorAccessor::Black,
        }
    }

    /// The accessor this symbolic color degrades to on systems older than
    /// the fallback threshold.
    fn fallback_accessor(&self) -> (a: ColorAccessor)
        requires
            self.is_symbolic(),
        ensures
            a == spec_fallback_accessor(*self),
    {
        match self {
            Color::SystemBlack => ColorAccessor::Black,
            Color::SystemWhite => ColorAccessor::White,
            Color::SystemBrown => ColorAccessor::Brown,
            Color::SystemBlue => ColorAccessor::Blue,
            Color::SystemGreen => ColorAccessor::Green,
            Color::SystemIndigo => ColorAccessor::Magenta,
            Color::SystemOrange => ColorAccessor::Orange,
            Color::SystemPink => ColorAccessor::Pink,
            Color::SystemPurple => ColorAccessor::Purple,
            Color::SystemRed => ColorAccessor::Red,
            Color::SystemTeal => ColorAccessor::Blue,
            Color::SystemYellow => ColorAccessor::Yellow,
            Color::SystemGray => ColorAccessor::DarkGray,
            Color::SystemGray2 => ColorAccessor::Gray,
            Color::SystemGray3 => ColorAccessor::LightGray,
            Color::SystemGray4 => ColorAccessor::LightGray,
            Color::SystemGray5 => ColorAccessor::LightGray,
            Color::SystemGray6 => ColorAccessor::LightGray,
            Color::Clear => ColorAccessor::Clear,
            Color::Label => ColorAccessor::Black,
            Color::LabelSecondary => ColorAccessor::Black,
            Color::LabelTertiary => ColorAccessor::Black,
            Color::LabelQuaternary => ColorAccessor::Black,
            Color::SystemFill => ColorAccessor::Clear,
            Color::SystemFillSecondary => ColorAccessor::Clear,
            Color::SystemFillTertiary => ColorAccessor::Clear,
            Color::SystemFillQuaternary => ColorAccessor::Clear,
            Color::PlaceholderText => ColorAccessor::DarkGray,
            Color::SystemBackground => ColorAccessor::Clear,
            Color::SystemBackgroundSecondary => ColorAccessor::Clear,
            Color::SystemBackgroundTertiary => ColorAccessor::Clear,
            Color::Separator => ColorAccessor::LightGray,
            Color::OpaqueSeparator => ColorAccessor::DarkGray,
            Color::Link => ColorAccessor::Blue,
            Color::DarkText => ColorAccessor::Black,
            Color::LightText => ColorAccessor::White,
            _ => ColorAccessor::Black,
        }
    }

    /// Maps this color to the platform operation that realizes it under the
    /// given environment. For symbolic colors this picks the primary
    /// accessor, or the fallback accessor when fallbacks are enabled and the
    /// running OS is below the fallback threshold; the mapping is total,
    /// every color resolves to some operation.
    pub fn resolve(&self, env: &ResolveEnv) -> (op: ColorOp)
        ensures
            op == spec_resolve(*self, *env),
        decreases *self,
    {
        match self {
            Color::Object(h) => ColorOp::Use(*h),
            Color::Rgba { red, green, blue, alpha } => ColorOp::MakeRgba {
                red: *red,
                green: *green,
                blue: *blue,
                alpha: *alpha,
            },
            Color::Hsba { hue, saturation, brightness, alpha } => ColorOp::MakeHsba {
                hue: *hue,
                saturation: *saturation,
                brightness: *brightness,
                alpha: *alpha,
            },
            Color::Dynamic(d) => ColorOp::MakeDynamic {
                light_normal: Box::new(d.light_normal.resolve(env)),
                light_high: Box::new(d.light_high.resolve(env)),
                dark_normal: Box::new(d.dark_normal.resolve(env)),
                dark_high: Box::new(d.dark_high.resolve(env)),
            },
            _ => {
                let use_fallback = env.fallbacks_enabled && !env.os.at_least(
                    FALLBACK_BELOW_MAJOR,
                    FALLBACK_BELOW_MINOR,
                    FALLBACK_BELOW_PATCH,
                );
                if use_fallback {
                    ColorOp::Accessor(self.fallback_accessor())
                } else {
                    ColorOp::Accessor(self.primary_accessor())
                }
            },
        }
    }

    /// The color this color stands for under the given style: a dynamic
    /// color hands back the color stored for that (theme, contrast)
    /// combination at construction, without invoking any handler; any other
    /// color stands for itself.
    pub fn select(&self, style: &Style) -> (c: &Color)
        ensures
            *c == spec_select(*self, *style),
    {
        match self {
            Color::Dynamic(d) => match (style.theme, style.contrast) {
                (Theme::Light, Contrast::Normal) => &d.light_normal,
                (Theme::Light, Contrast::High) => &d.light_high,
                (Theme::Dark, Contrast::Normal) => &d.dark_normal,
                (Theme::Dark, Contrast::High) => &d.dark_high,
            },
            _ => self,
        }
    }
}

/// Totality of symbolic resolution: every symbolic color resolves to a
/// class accessor, under every environment - never to an absence.
pub proof fn lemma_symbolic_resolution_total(c: Color, env: ResolveEnv)
    requires
        c.is_symbolic(),
    ensures
        spec_resolve(c, env) is Accessor,
{
}

/// A dynamic color is frozen at construction: under each of the four
/// (theme, contrast) combinations it stands for exactly the color stored
/// for that combination, and selection consults no handler and nothing
/// outside the color itself.
pub proof fn lemma_dynamic_selection_frozen(d: DynamicColor)
    ensures
        spec_select(Color::Dynamic(d), style_of(Theme::Light, Contrast::Normal))
            == *d.light_normal,
        spec_select(Color::Dynamic(d), style_of(Theme::Light, Contrast::High)) == *d.light_high,
        spec_select(Color::Dynamic(d), style_of(Theme::Dark, Contrast::Normal)) == *d.dark_normal,
        spec_select(Color::Dynamic(d), style_of(Theme::Dark, Contrast::High)) == *d.dark_high,
{
}

} // verus!
