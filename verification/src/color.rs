//! Colors: exact RGB triples, symbolic color references as stored in the
//! grid, and the color scheme that resolves a reference to an RGB value.
//!
//! The grid never stores resolved colors: cells hold a [`ColorRef`], and
//! resolution against the active [`ColorScheme`] happens only when a
//! snapshot is taken, so swapping the scheme needs no re-parsing.

use vstd::prelude::*;
use crate::text::{dec_digits, hex_digits, push_u8_dec, push_u8_hex};

verus! {

/// An exact color, one byte per channel.
#[derive(Clone, Copy, Debug, Default, PartialEq, Eq, Structural)]
pub struct Rgb {
    pub r: u8,
    pub g: u8,
    pub b: u8,
}

/// The text form `rgb(r,g,b)` of a color, channels in decimal.
pub open spec fn css_text(c: Rgb) -> Seq<char> {
    "rgb("@ + dec_digits(c.r) + ","@ + dec_digits(c.g) + ","@ + dec_digits(c.b) + ")"@
}

/// The text form `#rrggbb` of a color, channels in lowercase hex.
pub open spec fn hex_text(c: Rgb) -> Seq<char> {
    "#"@ + hex_digits(c.r) + hex_digits(c.g) + hex_digits(c.b)
}

impl Rgb {
    /// Build a color from its three channels.
    pub fn new(r: u8, g: u8, b: u8) -> (c: Rgb)
        ensures
            c == (Rgb { r, g, b }),
    {
        Rgb { r, g, b }
    }

    /// The CSS `rgb(...)` form of this color.
    pub fn to_css(&self) -> (s: String)
        ensures
            s@ == css_text(*self),
    {
        let mut s = String::new();
        s.append("rgb(");
        push_u8_dec(&mut s, self.r);
        s.append(",");
        push_u8_dec(&mut s, self.g);
        s.append(",");
        push_u8_dec(&mut s, self.b);
        s.append(")");
        proof {
            assert(s@ =~= css_text(*self));
        }
        s
    }

    /// The CSS hex form `#rrggbb` of this color.
    pub fn to_hex(&self) -> (s: String)
        ensures
            s@ == hex_text(*self),
    {
        let mut s = String::new();
        s.append("#");
        push_u8_hex(&mut s, self.r);
        push_u8_hex(&mut s, self.g);
        push_u8_hex(&mut s, self.b);
        proof {
            assert(s@ =~= hex_text(*self));
        }
        s
    }
}

/// A symbolic color as stored in a grid cell: one of the scheme's named
/// slots, an indexed palette entry, or a direct RGB value.
#[derive(Clone, Copy, Debug, PartialEq, Eq, Structural)]
pub enum ColorRef {
    /// The scheme's default foreground.
    Foreground,
    /// The scheme's default background.
    Background,
    /// The scheme's cursor color.
    Cursor,
    /// One of the 256 palette entries.
    Indexed(u8),
    /// An exact color, passed through unchanged.
    Direct(Rgb),
}

/// The color of palette entry `i + 16`: the 6x6x6 cube over the level
/// set {0, 51, 102, 153, 204, 255}.
pub open spec fn cube_color(i: u8) -> Rgb
    recommends
        i < 216,
{
    Rgb { r: ((i / 36) * 51) as u8, g: (((i / 6) % 6) * 51) as u8, b: ((i % 6) * 51) as u8 }
}

/// The color of palette entry `i + 232`: the 24-step grayscale ramp
/// 8, 18, ..., 238.
pub open spec fn grayscale_color(i: u8) -> Rgb
    recommends
        i < 24,
{
    Rgb { r: (i * 10 + 8) as u8, g: (i * 10 + 8) as u8, b: (i * 10 + 8) as u8 }
}

/// What resolving palette index `index` against `scheme` must return:
/// the scheme's own slot below 16, the color cube up to 231, and the
/// grayscale ramp above.
pub open spec fn resolve_ansi_spec(scheme: ColorScheme, index: u8) -> Rgb {
    if index < 16 {
        scheme.ansi@[index as int]
    } else if index < 232 {
        cube_color((index - 16) as u8)
    } else {
        grayscale_color((index - 232) as u8)
    }
}

/// What resolving a color reference against `scheme` must return.
pub open spec fn resolve_spec(scheme: ColorScheme, c: ColorRef) -> Rgb {
    match c {
        ColorRef::Foreground => scheme.foreground,
        ColorRef::Background => scheme.background,
        ColorRef::Cursor => scheme.cursor,
        ColorRef::Indexed(index) => resolve_ansi_spec(scheme, index),
        ColorRef::Direct(rgb) => rgb,
    }
}

/// The value [`ColorScheme::dark`] returns.
pub open spec fn dark_scheme() -> ColorScheme {
    ColorScheme {
        background: Rgb { r: 30, g: 30, b: 30 },
        foreground: Rgb { r: 212, g: 212, b: 212 },
        cursor: Rgb { r: 212, g: 212, b: 212 },
        selection_bg: Rgb { r: 38, g: 79, b: 120 },
        selection_fg: Rgb { r: 212, g: 212, b: 212 },
        ansi: [
            Rgb { r: 0, g: 0, b: 0 },
            Rgb { r: 205, g: 49, b: 49 },
            Rgb { r: 13, g: 188, b: 121 },
            Rgb { r: 229, g: 229, b: 16 },
            Rgb { r: 36, g: 114, b: 200 },
            Rgb { r: 188, g: 63, b: 188 },
            Rgb { r: 17, g: 168, b: 205 },
            Rgb { r: 229, g: 229, b: 229 },
            Rgb { r: 102, g: 102, b: 102 },
            Rgb { r: 241, g: 76, b: 76 },
            Rgb { r: 35, g: 209, b: 139 },
            Rgb { r: 245, g: 245, b: 67 },
            Rgb { r: 59, g: 142, b: 234 },
            Rgb { r: 214, g: 112, b: 214 },
            Rgb { r: 41, g: 184, b: 219 },
            Rgb { r: 255, g: 255, b: 255 },
        ],
    }
}

/// The value [`ColorScheme::light`] returns.
pub open spec fn light_scheme() -> ColorScheme {
    ColorScheme {
        background: Rgb { r: 255, g: 255, b: 255 },
        foreground: Rgb { r: 0, g: 0, b: 0 },
        cursor: Rgb { r: 0, g: 0, b: 0 },
        selection_bg: Rgb { r: 173, g: 214, b: 255 },
        selection_fg: Rgb { r: 0, g: 0, b: 0 },
        ansi: [
            Rgb { r: 0, g: 0, b: 0 },
            Rgb { r: 205, g: 49, b: 49 },
            Rgb { r: 0, g: 135, b: 0 },
            Rgb { r: 128, g: 128, b: 0 },
            Rgb { r: 0, g: 0, b: 128 },
            Rgb { r: 128, g: 0, b: 128 },
            Rgb { r: 0, g: 135, b: 135 },
            Rgb { r: 128, g: 128, b: 128 },
            Rgb { r: 102, g: 102, b: 102 },
            Rgb { r: 241, g: 76, b: 76 },
            Rgb { r: 0, g: 175, b: 0 },
            Rgb { r: 175, g: 135, b: 0 },
            Rgb { r: 36, g: 114, b: 200 },
            Rgb { r: 175, g: 0, b: 175 },
            Rgb { r: 0, g: 175, b: 175 },
            Rgb { r: 255, g: 255, b: 255 },
        ],
    }
}

/// A terminal color scheme: the named slots and the 16 base ANSI colors.
#[derive(Clone, Debug)]
pub struct ColorScheme {
    /// Background color.
    pub background: Rgb,
    /// Foreground color.
    pub foreground: Rgb,
    /// Cursor color.
    pub cursor: Rgb,
    /// Selection background color.
    pub selection_bg: Rgb,
    /// Selection foreground color.
    pub selection_fg: Rgb,
    /// The 16 ANSI colors: black, red, green, yellow, blue, magenta,
    /// cyan, white, then their bright variants.
    pub ansi: [Rgb; 16],
}

impl ColorScheme {
    /// The dark theme.
    pub fn dark() -> (s: ColorScheme)
        ensures
            s == dark_scheme(),
    {
        ColorScheme {
            background: Rgb { r: 30, g: 30, b: 30 },
            foreground: Rgb { r: 212, g: 212, b: 212 },
            cursor: Rgb { r: 212, g: 212, b: 212 },
            selection_bg: Rgb { r: 38, g: 79, b: 120 },
            selection_fg: Rgb { r: 212, g: 212, b: 212 },
            ansi: [
                Rgb { r: 0, g: 0, b: 0 },
                Rgb { r: 205, g: 49, b: 49 },
                Rgb { r: 13, g: 188, b: 121 },
                Rgb { r: 229, g: 229, b: 16 },
                Rgb { r: 36, g: 114, b: 200 },
                Rgb { r: 188, g: 63, b: 188 },
                Rgb { r: 17, g: 168, b: 205 },
                Rgb { r: 229, g: 229, b: 229 },
                Rgb { r: 102, g: 102, b: 102 },
                Rgb { r: 241, g: 76, b: 76 },
                Rgb { r: 35, g: 209, b: 139 },
                Rgb { r: 245, g: 245, b: 67 },
                Rgb { r: 59, g: 142, b: 234 },
                Rgb { r: 214, g: 112, b: 214 },
                Rgb { r: 41, g: 184, b: 219 },
                Rgb { r: 255, g: 255, b: 255 },
            ],
        }
    }

    /// The light theme.
    pub fn light() -> (s: ColorScheme)
        ensures
            s == light_scheme(),
    {
        ColorScheme {
            background: Rgb { r: 255, g: 255, b: 255 },
            foreground: Rgb { r: 0, g: 0, b: 0 },
            cursor: Rgb { r: 0, g: 0, b: 0 },
            selection_bg: Rgb { r: 173, g: 214, b: 255 },
            selection_fg: Rgb { r: 0, g: 0, b: 0 },
            ansi: [
                Rgb { r: 0, g: 0, b: 0 },
                Rgb { r: 205, g: 49, b: 49 },
                Rgb { r: 0, g: 135, b: 0 },
                Rgb { r: 128, g: 128, b: 0 },
                Rgb { r: 0, g: 0, b: 128 },
                Rgb { r: 128, g: 0, b: 128 },
                Rgb { r: 0, g: 135, b: 135 },
                Rgb { r: 128, g: 128, b: 128 },
                Rgb { r: 102, g: 102, b: 102 },
                Rgb { r: 241, g: 76, b: 76 },
                Rgb { r: 0, g: 175, b: 0 },
                Rgb { r: 175, g: 135, b: 0 },
                Rgb { r: 36, g: 114, b: 200 },
                Rgb { r: 175, g: 0, b: 175 },
                Rgb { r: 0, g: 175, b: 175 },
                Rgb { r: 255, g: 255, b: 255 },
            ],
        }
    }

    /// Resolve a palette index: the scheme's 16 ANSI slots below 16, the
    /// 6x6x6 color cube for 16..=231, the grayscale ramp for 232..=255.
    /// Every index maps to a defined color.
    pub fn resolve_ansi(&self, index: u8) -> (c: Rgb)
        ensures
            c == resolve_ansi_spec(*self, index),
            index < 16 ==> c == self.ansi@[index as int],
    {
        if index < 16 {
            self.ansi[index as usize]
        } else if index < 232 {
            self.compute_cube_color(index - 16)
        } else {
            self.compute_grayscale(index - 232)
        }
    }

    /// Resolve a symbolic color reference against this scheme.
    pub fn resolve(&self, c: ColorRef) -> (out: Rgb)
        ensures
            out == resolve_spec(*self, c),
    {
        match c {
            ColorRef::Foreground => self.foreground,
            ColorRef::Background => self.background,
            ColorRef::Cursor => self.cursor,
            ColorRef::Indexed(index) => self.resolve_ansi(index),
            ColorRef::Direct(rgb) => rgb,
        }
    }

    /// The color cube entry `index`, for indices already shifted down by 16.
    fn compute_cube_color(&self, index: u8) -> (c: Rgb)
        requires
            index < 216,
        ensures
            c == cube_color(index),
    {
        let r = (index / 36) * 51;
        let g = ((index / 6) % 6) * 51;
        let b = (index % 6) * 51;
        Rgb { r, g, b }
    }

    /// The grayscale ramp entry `index`, for indices already shifted down
    /// by 232.
    fn compute_grayscale(&self, index: u8) -> (c: Rgb)
        requires
            index < 24,
        ensures
            c == grayscale_color(index),
    {
        let gray = index * 10 + 8;
        Rgb { r: gray, g: gray, b: gray }
    }
}

impl Default for ColorScheme {
    /// The default scheme is the dark theme.
    fn default() -> (s: ColorScheme)
        ensures
            s == dark_scheme(),
    {
        ColorScheme::dark()
    }
}

/// Whether the user asked for the light theme, the dark theme, or
/// whatever the system prefers.
#[derive(Clone, Copy, Debug, Default, PartialEq, Eq, Structural)]
pub enum ThemePreference {
    #[default]
    System,
    Light,
    Dark,
}

} // verus!
