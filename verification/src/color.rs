//! Colors as the terminal names them, and as the pixels hold them.

use vstd::prelude::*;

verus! {

/// A color as the terminal names it: one of the 256 indexed colors, or red,
/// green and blue.
#[derive(Clone, Copy, Debug, PartialEq, Eq, Structural)]
pub enum TermColor {
    Ansi(u8),
    TrueColor(u8, u8, u8),
}

/// The brightness of one of the six steps of the color cube.
pub open spec fn cube_level(step: int) -> int {
    if step == 0 {
        0
    } else {
        step * 0x28 + 0x28
    }
}

/// Red, green and blue of the indexed color `value`: sixteen named colors, a
/// cube of six steps a side, and twenty-four grays.
pub open spec fn ansi_channels(value: u8) -> (u8, u8, u8) {
    if value == 0 {
        (0x00, 0x00, 0x00)
    } else if value == 1 {
        (0x80, 0x00, 0x00)
    } else if value == 2 {
        (0x00, 0x80, 0x00)
    } else if value == 3 {
        (0x80, 0x80, 0x00)
    } else if value == 4 {
        (0x00, 0x00, 0x80)
    } else if value == 5 {
        (0x80, 0x00, 0x80)
    } else if value == 6 {
        (0x00, 0x80, 0x80)
    } else if value == 7 {
        (0xc0, 0xc0, 0xc0)
    } else if value == 8 {
        (0x80, 0x80, 0x80)
    } else if value == 9 {
        (0xff, 0x00, 0x00)
    } else if value == 10 {
        (0x00, 0xff, 0x00)
    } else if value == 11 {
        (0xff, 0xff, 0x00)
    } else if value == 12 {
        (0x00, 0x00, 0xff)
    } else if value == 13 {
        (0xff, 0x00, 0xff)
    } else if value == 14 {
        (0x00, 0xff, 0xff)
    } else if value == 15 {
        (0xff, 0xff, 0xff)
    } else if value < 232 {
        (
            cube_level((value - 16) / 36 % 6) as u8,
            cube_level((value - 16) / 6 % 6) as u8,
            cube_level((value - 16) % 6) as u8,
        )
    } else {
        (
            ((value - 232) * 10 + 8) as u8,
            ((value - 232) * 10 + 8) as u8,
            ((value - 232) * 10 + 8) as u8,
        )
    }
}

/// Three channels as one pixel, fully opaque.
pub open spec fn pack_rgb(r: u8, g: u8, b: u8) -> u32 {
    (0xFF00_0000 + r * 0x1_0000 + g * 0x100 + b) as u32
}

impl TermColor {
    /// Red, green and blue of the color.
    pub open spec fn channels(self) -> (u8, u8, u8) {
        match self {
            TermColor::TrueColor(r, g, b) => (r, g, b),
            TermColor::Ansi(value) => ansi_channels(value),
        }
    }

    /// The color as a pixel holds it.
    pub open spec fn rgb(self) -> u32 {
        pack_rgb(self.channels().0, self.channels().1, self.channels().2)
    }

    /// Red, green and blue of the color.
    pub fn to_channels(&self) -> (channels: (u8, u8, u8))
        ensures
            channels == self.channels(),
    {
        match *self {
            TermColor::TrueColor(r, g, b) => (r, g, b),
            TermColor::Ansi(value) => {
                if value == 0 {
                    (0x00, 0x00, 0x00)
                } else if value == 1 {
                    (0x80, 0x00, 0x00)
                } else if value == 2 {
                    (0x00, 0x80, 0x00)
                } else if value == 3 {
                    (0x80, 0x80, 0x00)
                } else if value == 4 {
                    (0x00, 0x00, 0x80)
                } else if value == 5 {
                    (0x80, 0x00, 0x80)
                } else if value == 6 {
                    (0x00, 0x80, 0x80)
                } else if value == 7 {
                    (0xc0, 0xc0, 0xc0)
                } else if value == 8 {
                    (0x80, 0x80, 0x80)
                } else if value == 9 {
                    (0xff, 0x00, 0x00)
                } else if value == 10 {
                    (0x00, 0xff, 0x00)
                } else if value == 11 {
                    (0xff, 0xff, 0x00)
                } else if value == 12 {
                    (0x00, 0x00, 0xff)
                } else if value == 13 {
                    (0xff, 0x00, 0xff)
                } else if value == 14 {
                    (0x00, 0xff, 0xff)
                } else if value == 15 {
                    (0xff, 0xff, 0xff)
                } else if value < 232 {
                    let index: u8 = value - 16;
                    (cube_step(index / 36 % 6), cube_step(index / 6 % 6), cube_step(index % 6))
                } else {
                    let gray: u8 = (value - 232) * 10 + 8;
                    (gray, gray, gray)
                }
            },
        }
    }

    /// The color as a pixel holds it.
    pub fn as_rgb(&self) -> (rgb: u32)
        ensures
            rgb == self.rgb(),
    {
        crate::vt::color_rgb(*self)
    }
}

/// The brightness of the step `step` of the color cube.
fn cube_step(step: u8) -> (level: u8)
    requires
        step < 6,
    ensures
        level == cube_level(step as int),
{
    if step == 0 {
        0
    } else {
        step * 0x28 + 0x28
    }
}

} // verus!
