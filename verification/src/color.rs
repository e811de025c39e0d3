//! Colours with four byte channels, and the fixed palette of the indicator.

use vstd::prelude::*;

verus! {

/// A pixel: red, green, blue and alpha, one byte each.
#[derive(Clone, Copy, PartialEq, Eq, Structural, Debug)]
pub struct Color {
    pub r: u8,
    pub g: u8,
    pub b: u8,
    pub a: u8,
}

/// Something is wrong and wants attention.
pub const COLOR_URGENT: u32 = 0xcf49_55ff;

/// Something is off the ideal, but not badly.
pub const COLOR_WARN: u32 = 0xfbc0_11ff;

/// All is well.
pub const COLOR_OK: u32 = 0x0a8c_6cff;

/// The colour of every pixel that no bar fills.
pub const COLOR_BG: u32 = 0x1616_16ff;

/// A subsystem that is switched off or silenced.
pub const COLOR_MUTE: u32 = 0x7777_77ff;

/// The ordinary working state.
pub const COLOR_NORMAL: u32 = 0x256c_cfff;

/// The six entries of the palette.
#[derive(Clone, Copy, PartialEq, Eq, Structural, Debug)]
pub enum Tone {
    Urgent,
    Warning,
    Okay,
    Background,
    Muted,
    Normal,
}

/// The colour that a packed `0xRRGGBBAA` word stands for: its four digits to
/// the base 256, the highest first.
pub open spec fn unpack(color: u32) -> Color {
    Color {
        r: (color / 0x100_0000) as u8,
        g: (color / 0x1_0000 % 0x100) as u8,
        b: (color / 0x100 % 0x100) as u8,
        a: (color % 0x100) as u8,
    }
}

/// Splits a packed `0xRRGGBBAA` word into its four channels.
pub fn rgba(color: u32) -> (c: Color)
    ensures
        c == unpack(color),
        c.packed() == color,
{
    assert((color >> 24) & 0xff == color / 0x100_0000) by (bit_vector);
    assert((color >> 16) & 0xff == color / 0x1_0000 % 0x100) by (bit_vector);
    assert((color >> 8) & 0xff == color / 0x100 % 0x100) by (bit_vector);
    assert(color & 0xff == color % 0x100) by (bit_vector);
    Color {
        r: ((color >> 24) & 0xff) as u8,
        g: ((color >> 16) & 0xff) as u8,
        b: ((color >> 8) & 0xff) as u8,
        a: (color & 0xff) as u8,
    }
}

impl Color {
    /// The packed word of the colour: red, green, blue and alpha as the
    /// digits of one number to the base 256.
    pub open spec fn packed(self) -> int {
        self.r * 0x100_0000 + self.g * 0x1_0000 + self.b * 0x100 + self.a
    }

    /// The channel that lies `k` bytes into the pixel: red, green, blue, alpha.
    pub open spec fn channel(self, k: int) -> u8 {
        if k == 0 {
            self.r
        } else if k == 1 {
            self.g
        } else if k == 2 {
            self.b
        } else {
            self.a
        }
    }
}

impl Tone {
    /// The packed word of the palette entry.
    pub open spec fn word(self) -> u32 {
        match self {
            Tone::Urgent => COLOR_URGENT,
            Tone::Warning => COLOR_WARN,
            Tone::Okay => COLOR_OK,
            Tone::Background => COLOR_BG,
            Tone::Muted => COLOR_MUTE,
            Tone::Normal => COLOR_NORMAL,
        }
    }

    /// The colour of the palette entry.
    pub open spec fn color(self) -> Color {
        match self {
            Tone::Urgent => Color { r: 0xcf, g: 0x49, b: 0x55, a: 0xff },
            Tone::Warning => Color { r: 0xfb, g: 0xc0, b: 0x11, a: 0xff },
            Tone::Okay => Color { r: 0x0a, g: 0x8c, b: 0x6c, a: 0xff },
            Tone::Background => Color { r: 0x16, g: 0x16, b: 0x16, a: 0xff },
            Tone::Muted => Color { r: 0x77, g: 0x77, b: 0x77, a: 0xff },
            Tone::Normal => Color { r: 0x25, g: 0x6c, b: 0xcf, a: 0xff },
        }
    }

    /// Looks the palette entry up.
    pub fn to_color(self) -> (c: Color)
        ensures
            c == self.color(),
    {
        proof {
            lemma_palette_words(self);
        }
        match self {
            Tone::Urgent => rgba(COLOR_URGENT),
            Tone::Warning => rgba(COLOR_WARN),
            Tone::Okay => rgba(COLOR_OK),
            Tone::Background => rgba(COLOR_BG),
            Tone::Muted => rgba(COLOR_MUTE),
            Tone::Normal => rgba(COLOR_NORMAL),
        }
    }
}

/// The colour of every palette entry is its packed word, split into channels.
pub proof fn lemma_palette_words(tone: Tone)
    ensures
        tone.color() == unpack(tone.word()),
        tone.color().packed() == tone.word(),
{
}

} // verus!
