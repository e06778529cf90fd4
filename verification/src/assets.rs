//! Static assets: colors, the material palette, icon glyphs and fonts.
//!
//! Pure data.  Colors are plain red/green/blue triples; a palette entry names
//! one of the backend's material colors; an icon is a symbol-font glyph as
//! its NUL-terminated byte encoding; a font is named by its point size.

use vstd::prelude::*;

verus! {

/// A color, as a plain red/green/blue triple.
#[derive(Clone, Copy, Debug, PartialEq, Eq, Structural)]
pub struct LvglColor {
    /// Red channel.
    pub red: u8,
    /// Green channel.
    pub green: u8,
    /// Blue channel.
    pub blue: u8,
}

/// Identifiers of the backend's material palette entries.
pub struct LvglPalette;

impl LvglPalette {
    /// Palette identifier of the red entry.
    pub const RED: u32 = 0;

    /// Palette identifier of the pink entry.
    pub const PINK: u32 = 1;

    /// Palette identifier of the purple entry.
    pub const PURPLE: u32 = 2;

    /// Palette identifier of the deep-purple entry.
    pub const DEEP_PURPLE: u32 = 3;

    /// Palette identifier of the indigo entry.
    pub const INDIGO: u32 = 4;

    /// Palette identifier of the blue entry.
    pub const BLUE: u32 = 5;

    /// Palette identifier of the light-blue entry.
    pub const LIGHT_BLUE: u32 = 6;

    /// Palette identifier of the cyan entry.
    pub const CYAN: u32 = 7;

    /// Palette identifier of the teal entry.
    pub const TEAL: u32 = 8;

    /// Palette identifier of the green entry.
    pub const GREEN: u32 = 9;

    /// Palette identifier of the light-green entry.
    pub const LIGHT_GREEN: u32 = 10;

    /// Palette identifier of the lime entry.
    pub const LIME: u32 = 11;

    /// Palette identifier of the yellow entry.
    pub const YELLOW: u32 = 12;

    /// Palette identifier of the amber entry.
    pub const AMBER: u32 = 13;

    /// Palette identifier of the orange entry.
    pub const ORANGE: u32 = 14;

    /// Palette identifier of the deep-orange entry.
    pub const DEEP_ORANGE: u32 = 15;

    /// Palette identifier of the brown entry.
    pub const BROWN: u32 = 16;

    /// Palette identifier of the blue-grey entry.
    pub const BLUE_GREY: u32 = 17;

    /// Palette identifier of the grey entry.
    pub const GREY: u32 = 18;

    /// One past the last real palette entry.
    pub const LAST: u32 = 19;

    /// The identifier used for "no palette entry".
    pub const NONE: u32 = 255;
}

/// The color of a material palette entry.  Identifiers outside the palette
/// give black.
pub open spec fn spec_palette_color(palette: u32) -> LvglColor {
    if palette == 0 {
        LvglColor { red: 0xf4, green: 0x43, blue: 0x36 }
    } else if palette == 1 {
        LvglColor { red: 0xe9, green: 0x1e, blue: 0x63 }
    } else if palette == 2 {
        LvglColor { red: 0x9c, green: 0x27, blue: 0xb0 }
    } else if palette == 3 {
        LvglColor { red: 0x67, green: 0x3a, blue: 0xb7 }
    } else if palette == 4 {
        LvglColor { red: 0x3f, green: 0x51, blue: 0xb5 }
    } else if palette == 5 {
        LvglColor { red: 0x21, green: 0x96, blue: 0xf3 }
    } else if palette == 6 {
        LvglColor { red: 0x03, green: 0xa9, blue: 0xf4 }
    } else if palette == 7 {
        LvglColor { red: 0x00, green: 0xbc, blue: 0xd4 }
    } else if palette == 8 {
        LvglColor { red: 0x00, green: 0x96, blue: 0x88 }
    } else if palette == 9 {
        LvglColor { red: 0x4c, green: 0xaf, blue: 0x50 }
    } else if palette == 10 {
        LvglColor { red: 0x8b, green: 0xc3, blue: 0x4a }
    } else if palette == 11 {
        LvglColor { red: 0xcd, green: 0xdc, blue: 0x39 }
    } else if palette == 12 {
        LvglColor { red: 0xff, green: 0xeb, blue: 0x3b }
    } else if palette == 13 {
        LvglColor { red: 0xff, green: 0xc1, blue: 0x07 }
    } else if palette == 14 {
        LvglColor { red: 0xff, green: 0x98, blue: 0x00 }
    } else if palette == 15 {
        LvglColor { red: 0xff, green: 0x57, blue: 0x22 }
    } else if palette == 16 {
        LvglColor { red: 0x79, green: 0x55, blue: 0x48 }
    } else if palette == 17 {
        LvglColor { red: 0x60, green: 0x7d, blue: 0x8b }
    } else if palette == 18 {
        LvglColor { red: 0x9e, green: 0x9e, blue: 0x9e }
    } else {
        LvglColor { red: 0, green: 0, blue: 0 }
    }
}

#[allow(non_snake_case)]
impl LvglColor {
    /// Make a color from its red, green and blue channels.
    pub fn rvb(red: u8, green: u8, blue: u8) -> (r: Self)
        ensures
            r == (LvglColor { red, green, blue }),
    {
        LvglColor { red, green, blue }
    }

    /// The color of a material palette entry; identifiers outside the
    /// palette give black.
    fn palette(palette: u32) -> (r: Self)
        ensures
            r == spec_palette_color(palette),
    {
        if palette == 0 {
            LvglColor { red: 0xf4, green: 0x43, blue: 0x36 }
        } else if palette == 1 {
            LvglColor { red: 0xe9, green: 0x1e, blue: 0x63 }
        } else if palette == 2 {
            LvglColor { red: 0x9c, green: 0x27, blue: 0xb0 }
        } else if palette == 3 {
            LvglColor { red: 0x67, green: 0x3a, blue: 0xb7 }
        } else if palette == 4 {
            LvglColor { red: 0x3f, green: 0x51, blue: 0xb5 }
        } else if palette == 5 {
            LvglColor { red: 0x21, green: 0x96, blue: 0xf3 }
        } else if palette == 6 {
            LvglColor { red: 0x03, green: 0xa9, blue: 0xf4 }
        } else if palette == 7 {
            LvglColor { red: 0x00, green: 0xbc, blue: 0xd4 }
        } else if palette == 8 {
            LvglColor { red: 0x00, green: 0x96, blue: 0x88 }
        } else if palette == 9 {
            LvglColor { red: 0x4c, green: 0xaf, blue: 0x50 }
        } else if palette == 10 {
            LvglColor { red: 0x8b, green: 0xc3, blue: 0x4a }
        } else if palette == 11 {
            LvglColor { red: 0xcd, green: 0xdc, blue: 0x39 }
        } else if palette == 12 {
            LvglColor { red: 0xff, green: 0xeb, blue: 0x3b }
        } else if palette == 13 {
            LvglColor { red: 0xff, green: 0xc1, blue: 0x07 }
        } else if palette == 14 {
            LvglColor { red: 0xff, green: 0x98, blue: 0x00 }
        } else if palette == 15 {
            LvglColor { red: 0xff, green: 0x57, blue: 0x22 }
        } else if palette == 16 {
            LvglColor { red: 0x79, green: 0x55, blue: 0x48 }
        } else if palette == 17 {
            LvglColor { red: 0x60, green: 0x7d, blue: 0x8b }
        } else if palette == 18 {
            LvglColor { red: 0x9e, green: 0x9e, blue: 0x9e }
        } else {
            LvglColor { red: 0, green: 0, blue: 0 }
        }
    }

    /// The red palette color.
    pub fn RED() -> (r: Self)
        ensures
            r == spec_palette_color(LvglPalette::RED),
    {
        Self::palette(LvglPalette::RED)
    }

    /// The pink palette color.
    pub fn PINK() -> (r: Self)
        ensures
            r == spec_palette_color(LvglPalette::PINK),
    {
        Self::palette(LvglPalette::PINK)
    }

    /// The purple palette color.
    pub fn PURPLE() -> (r: Self)
        ensures
            r == spec_palette_color(LvglPalette::PURPLE),
    {
        Self::palette(LvglPalette::PURPLE)
    }

    /// The deep-purple palette color.
    pub fn DEEP_PURPLE() -> (r: Self)
        ensures
            r == spec_palette_color(LvglPalette::DEEP_PURPLE),
    {
        Self::palette(LvglPalette::DEEP_PURPLE)
    }

    /// The indigo palette color.
    pub fn INDIGO() -> (r: Self)
        ensures
            r == spec_palette_color(LvglPalette::INDIGO),
    {
        Self::palette(LvglPalette::INDIGO)
    }

    /// The blue palette color.
    pub fn BLUE() -> (r: Self)
        ensures
            r == spec_palette_color(LvglPalette::BLUE),
    {
        Self::palette(LvglPalette::BLUE)
    }

    /// The light-blue palette color.
    pub fn LIGHT_BLUE() -> (r: Self)
        ensures
            r == spec_palette_color(LvglPalette::LIGHT_BLUE),
    {
        Self::palette(LvglPalette::LIGHT_BLUE)
    }

    /// The cyan palette color.
    pub fn CYAN() -> (r: Self)
        ensures
            r == spec_palette_color(LvglPalette::CYAN),
    {
        Self::palette(LvglPalette::CYAN)
    }

    /// The teal palette color.
    pub fn TEAL() -> (r: Self)
        ensures
            r == spec_palette_color(LvglPalette::TEAL),
    {
        Self::palette(LvglPalette::TEAL)
    }

    /// The green palette color.
    pub fn GREEN() -> (r: Self)
        ensures
            r == spec_palette_color(LvglPalette::GREEN),
    {
        Self::palette(LvglPalette::GREEN)
    }

    /// The light-green palette color.
    pub fn LIGHT_GREEN() -> (r: Self)
        ensures
            r == spec_palette_color(LvglPalette::LIGHT_GREEN),
    {
        Self::palette(LvglPalette::LIGHT_GREEN)
    }

    /// The lime palette color.
    pub fn LIME() -> (r: Self)
        ensures
            r == spec_palette_color(LvglPalette::LIME),
    {
        Self::palette(LvglPalette::LIME)
    }

    /// The yellow palette color.
    pub fn YELLOW() -> (r: Self)
        ensures
            r == spec_palette_color(LvglPalette::YELLOW),
    {
        Self::palette(LvglPalette::YELLOW)
    }

    /// The amber palette color.
    pub fn AMBER() -> (r: Self)
        ensures
            r == spec_palette_color(LvglPalette::AMBER),
    {
        Self::palette(LvglPalette::AMBER)
    }

    /// The orange palette color.
    pub fn ORANGE() -> (r: Self)
        ensures
            r == spec_palette_color(LvglPalette::ORANGE),
    {
        Self::palette(LvglPalette::ORANGE)
    }

    /// The deep-orange palette color.
    pub fn DEEP_ORANGE() -> (r: Self)
        ensures
            r == spec_palette_color(LvglPalette::DEEP_ORANGE),
    {
        Self::palette(LvglPalette::DEEP_ORANGE)
    }

    /// The brown palette color.
    pub fn BROWN() -> (r: Self)
        ensures
            r == spec_palette_color(LvglPalette::BROWN),
    {
        Self::palette(LvglPalette::BROWN)
    }

    /// The blue-grey palette color.
    pub fn BLUE_GREY() -> (r: Self)
        ensures
            r == spec_palette_color(LvglPalette::BLUE_GREY),
    {
        Self::palette(LvglPalette::BLUE_GREY)
    }

    /// The grey palette color.
    pub fn GREY() -> (r: Self)
        ensures
            r == spec_palette_color(LvglPalette::GREY),
    {
        Self::palette(LvglPalette::GREY)
    }

    /// The color of the one-past-the-last palette identifier: black.
    pub fn LAST() -> (r: Self)
        ensures
            r == spec_palette_color(LvglPalette::LAST),
    {
        Self::palette(LvglPalette::LAST)
    }

    /// The color of the "no palette entry" identifier: black.
    pub fn NONE() -> (r: Self)
        ensures
            r == spec_palette_color(LvglPalette::NONE),
    {
        Self::palette(LvglPalette::NONE)
    }
}

/// A bitmap font of the backend, named by its point size.
#[derive(Clone, Copy, Debug, PartialEq, Eq, Structural)]
pub struct LvglFont {
    /// Point size of the font.
    pub size: u16,
}

/// The preloaded bitmap fonts, one per point size.
pub struct LvglMkFont;

impl LvglMkFont {
    /// The 10-point font.
    pub fn std_10() -> (r: LvglFont)
        ensures
            r.size == 10,
    {
        LvglFont { size: 10 }
    }

    /// The 12-point font.
    pub fn std_12() -> (r: LvglFont)
        ensures
            r.size == 12,
    {
        LvglFont { size: 12 }
    }

    /// The 14-point font.
    pub fn std_14() -> (r: LvglFont)
        ensures
            r.size == 14,
    {
        LvglFont { size: 14 }
    }

    /// The 18-point font.
    pub fn std_18() -> (r: LvglFont)
        ensures
            r.size == 18,
    {
        LvglFont { size: 18 }
    }

    /// The 22-point font.
    pub fn std_22() -> (r: LvglFont)
        ensures
            r.size == 22,
    {
        LvglFont { size: 22 }
    }

    /// The 26-point font.
    pub fn std_26() -> (r: LvglFont)
        ensures
            r.size == 26,
    {
        LvglFont { size: 26 }
    }

    /// The 30-point font.
    pub fn std_30() -> (r: LvglFont)
        ensures
            r.size == 30,
    {
        LvglFont { size: 30 }
    }

    /// The 34-point font.
    pub fn std_34() -> (r: LvglFont)
        ensures
            r.size == 34,
    {
        LvglFont { size: 34 }
    }

    /// The 40-point font.
    pub fn std_40() -> (r: LvglFont)
        ensures
            r.size == 40,
    {
        LvglFont { size: 40 }
    }

    /// The 48-point font.
    pub fn std_48() -> (r: LvglFont)
        ensures
            r.size == 48,
    {
        LvglFont { size: 48 }
    }
}

/// The icon glyphs of the symbol font: each is the three-byte UTF-8
/// encoding of the glyph's codepoint followed by a NUL terminator, four
/// bytes in all.
pub struct LvglPixmap;

#[allow(dead_code)]
impl LvglPixmap {
    /// Placeholder glyph.
    pub const DUMMY: [u8; 4] = [0xef, 0xa3, 0xbf, 0];

    /// Bullet glyph.
    pub const BULLET: [u8; 4] = [0xe2, 0x80, 0xa2, 0];

    /// Audio glyph.
    pub const AUDIO: [u8; 4] = [0xef, 0x80, 0x81, 0];

    /// Video glyph.
    pub const VIDEO: [u8; 4] = [0xef, 0x80, 0x88, 0];

    /// List glyph.
    pub const LIST: [u8; 4] = [0xef, 0x80, 0x8b, 0];

    /// OK glyph.
    pub const OK: [u8; 4] = [0xef, 0x80, 0x8c, 0];

    /// Close glyph.
    pub const CLOSE: [u8; 4] = [0xef, 0x80, 0x8d, 0];

    /// Power glyph.
    pub const POWER: [u8; 4] = [0xef, 0x80, 0x91, 0];

    /// Settings glyph.
    pub const SETTINGS: [u8; 4] = [0xef, 0x80, 0x93, 0];

    /// Home glyph.
    pub const HOME: [u8; 4] = [0xef, 0x80, 0x95, 0];

    /// Download glyph.
    pub const DOWNLOAD: [u8; 4] = [0xef, 0x80, 0x99, 0];

    /// Drive glyph.
    pub const DRIVE: [u8; 4] = [0xef, 0x80, 0x9c, 0];

    /// Refresh glyph.
    pub const REFRESH: [u8; 4] = [0xef, 0x80, 0xa1, 0];

    /// Mute glyph.
    pub const MUTE: [u8; 4] = [0xef, 0x80, 0xa6, 0];

    /// Mid-volume glyph.
    pub const VOLUME_MID: [u8; 4] = [0xef, 0x80, 0xa7, 0];

    /// Max-volume glyph.
    pub const VOLUME_MAX: [u8; 4] = [0xef, 0x80, 0xa8, 0];

    /// Image glyph.
    pub const IMAGE: [u8; 4] = [0xef, 0x80, 0xbe, 0];

    /// Tint glyph.
    pub const TINT: [u8; 4] = [0xef, 0x81, 0x83, 0];

    /// Previous-track glyph.
    pub const PREV: [u8; 4] = [0xef, 0x81, 0x88, 0];

    /// Play glyph.
    pub const PLAY: [u8; 4] = [0xef, 0x81, 0x8b, 0];

    /// Pause glyph.
    pub const PAUSE: [u8; 4] = [0xef, 0x81, 0x8c, 0];

    /// Stop glyph.
    pub const STOP: [u8; 4] = [0xef, 0x81, 0x8d, 0];

    /// Next-track glyph.
    pub const NEXT: [u8; 4] = [0xef, 0x81, 0x91, 0];

    /// Eject glyph.
    pub const EJECT: [u8; 4] = [0xef, 0x81, 0x92, 0];

    /// Left glyph.
    pub const LEFT: [u8; 4] = [0xef, 0x81, 0x93, 0];

    /// Right glyph.
    pub const RIGHT: [u8; 4] = [0xef, 0x81, 0x94, 0];

    /// Plus glyph.
    pub const PLUS: [u8; 4] = [0xef, 0x81, 0xa7, 0];

    /// Minus glyph.
    pub const MINUS: [u8; 4] = [0xef, 0x81, 0xa8, 0];

    /// Open-eye glyph.
    pub const EYE_OPEN: [u8; 4] = [0xef, 0x81, 0xae, 0];

    /// Closed-eye glyph.
    pub const EYE_CLOSE: [u8; 4] = [0xef, 0x81, 0xb0, 0];

    /// Warning glyph.
    pub const WARNING: [u8; 4] = [0xef, 0x81, 0xb1, 0];

    /// Shuffle glyph.
    pub const SHUFFLE: [u8; 4] = [0xef, 0x81, 0xb4, 0];

    /// Up glyph.
    pub const UP: [u8; 4] = [0xef, 0x81, 0xb7, 0];

    /// Down glyph.
    pub const DOWN: [u8; 4] = [0xef, 0x81, 0xb8, 0];

    /// Loop glyph.
    pub const LOOP: [u8; 4] = [0xef, 0x81, 0xb9, 0];

    /// Directory glyph.
    pub const DIRECTORY: [u8; 4] = [0xef, 0x81, 0xbb, 0];

    /// Upload glyph.
    pub const UPLOAD: [u8; 4] = [0xef, 0x82, 0x93, 0];

    /// Call glyph.
    pub const CALL: [u8; 4] = [0xef, 0x82, 0x95, 0];

    /// Cut glyph.
    pub const CUT: [u8; 4] = [0xef, 0x83, 0x84, 0];

    /// Copy glyph.
    pub const COPY: [u8; 4] = [0xef, 0x83, 0x85, 0];

    /// Save glyph.
    pub const SAVE: [u8; 4] = [0xef, 0x83, 0x87, 0];

    /// Bars glyph.
    pub const BARS: [u8; 4] = [0xef, 0x83, 0x89, 0];

    /// Envelope glyph.
    pub const ENVELOPE: [u8; 4] = [0xef, 0x83, 0xa0, 0];

    /// Charge glyph.
    pub const CHARGE: [u8; 4] = [0xef, 0x83, 0xa7, 0];

    /// Paste glyph.
    pub const PASTE: [u8; 4] = [0xef, 0x83, 0xaa, 0];

    /// Bell glyph.
    pub const BELL: [u8; 4] = [0xef, 0x83, 0xb3, 0];

    /// Keyboard glyph.
    pub const KEYBOARD: [u8; 4] = [0xef, 0x84, 0x9c, 0];

    /// GPS glyph.
    pub const GPS: [u8; 4] = [0xef, 0x84, 0xa4, 0];

    /// File glyph.
    pub const FILE: [u8; 4] = [0xef, 0x85, 0x9b, 0];

    /// Wifi glyph.
    pub const WIFI: [u8; 4] = [0xef, 0x87, 0xab, 0];

    /// Full-battery glyph.
    pub const BATTERY_FULL: [u8; 4] = [0xef, 0x89, 0x80, 0];

    /// Three-quarter-battery glyph.
    pub const BATTERY_3: [u8; 4] = [0xef, 0x89, 0x81, 0];

    /// Half-battery glyph.
    pub const BATTERY_2: [u8; 4] = [0xef, 0x89, 0x82, 0];

    /// Quarter-battery glyph.
    pub const BATTERY_1: [u8; 4] = [0xef, 0x89, 0x83, 0];

    /// Empty-battery glyph.
    pub const BATTERY_EMPTY: [u8; 4] = [0xef, 0x89, 0x84, 0];

    /// USB glyph.
    pub const USB: [u8; 4] = [0xef, 0x8a, 0x87, 0];

    /// Bluetooth glyph.
    pub const BLUETOOTH: [u8; 4] = [0xef, 0x8a, 0x93, 0];

    /// Trash glyph.
    pub const TRASH: [u8; 4] = [0xef, 0x8b, 0xad, 0];

    /// Edit glyph.
    pub const EDIT: [u8; 4] = [0xef, 0x8c, 0x84, 0];

    /// Backspace glyph.
    pub const BACKSPACE: [u8; 4] = [0xef, 0x95, 0x9a, 0];

    /// SD-card glyph.
    pub const SD_CARD: [u8; 4] = [0xef, 0x9f, 0x82, 0];

    /// New-line glyph.
    pub const NEW_LINE: [u8; 4] = [0xef, 0xa2, 0xa2, 0];
}

} // verus!
