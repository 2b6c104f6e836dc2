//! Colours of the interface: the track palette and the packed `0xRRGGBBAA`
//! form in which tracks and clips store their colour.

use vstd::prelude::*;

verus! {

/// An sRGB colour with premultiplied alpha.
#[derive(Clone, Copy, Debug, PartialEq, Eq, Structural)]
pub struct Color {
    pub r: u8,
    pub g: u8,
    pub b: u8,
    pub a: u8,
}

/// The opaque colour with the given red, green and blue components.
pub open spec fn opaque(r: u8, g: u8, b: u8) -> Color {
    Color { r, g, b, a: 255 }
}

impl Color {
    /// An opaque colour.
    pub fn from_rgb(r: u8, g: u8, b: u8) -> (c: Color)
        ensures
            c == opaque(r, g, b),
    {
        Color { r, g, b, a: 255 }
    }

    /// A colour with premultiplied alpha.
    pub fn from_rgba_premultiplied(r: u8, g: u8, b: u8, a: u8) -> (c: Color)
        ensures
            c == (Color { r, g, b, a }),
    {
        Color { r, g, b, a }
    }
}

/// `c + 20`, saturating at 255.
pub open spec fn lighter_channel(c: u8) -> u8 {
    if c + 20 > 255 {
        255
    } else {
        (c + 20) as u8
    }
}

/// Lightening never darkens a channel, and saturates at full intensity.
pub proof fn law_lighten_never_darkens(c: u8)
    ensures
        lighter_channel(c) >= c,
        lighter_channel(c) == 255 || lighter_channel(c) == c + 20,
        c >= 235 ==> lighter_channel(c) == 255,
{
}

/// Colours that can be made lighter.
pub trait ColorExt: Sized {
    /// A lighter version of the colour.
    fn lighten(&self) -> Self;
}

impl ColorExt for Color {
    /// Adds 20 to each of red, green and blue, saturating at 255; alpha stays.
    fn lighten(&self) -> (c: Color)
        ensures
            c == (Color {
                r: lighter_channel(self.r),
                g: lighter_channel(self.g),
                b: lighter_channel(self.b),
                a: self.a,
            }),
    {
        Color::from_rgba_premultiplied(
            self.r.saturating_add(20),
            self.g.saturating_add(20),
            self.b.saturating_add(20),
            self.a,
        )
    }
}

/// The number of colours in the track palette.
pub const TRACK_COLOR_COUNT: usize = 8;

/// The track palette: blue, orange, green, pink, purple, yellow, cyan, salmon.
pub open spec fn palette(i: int) -> Color {
    if i == 0 {
        opaque(100, 180, 255)
    } else if i == 1 {
        opaque(255, 150, 100)
    } else if i == 2 {
        opaque(150, 255, 150)
    } else if i == 3 {
        opaque(255, 150, 200)
    } else if i == 4 {
        opaque(200, 150, 255)
    } else if i == 5 {
        opaque(255, 255, 150)
    } else if i == 6 {
        opaque(150, 255, 255)
    } else {
        opaque(255, 180, 180)
    }
}

/// The colour `(r, g, b)` packed as `0xRRGGBBFF`.
pub open spec fn packed_rgb(r: u8, g: u8, b: u8) -> int {
    (r as u32) * 0x100_0000 + (g as u32) * 0x1_0000 + (b as u32) * 0x100 + 0xFF
}

/// Packs an opaque colour as `0xRRGGBBFF`, the form in which tracks and
/// clips store their colour.
pub fn pack_rgb(r: u8, g: u8, b: u8) -> (packed: u32)
    ensures
        packed == packed_rgb(r, g, b),
{
    let r32: u32 = r as u32;
    let g32: u32 = g as u32;
    let b32: u32 = b as u32;
    assert(((r32 << 24u32) | (g32 << 16u32) | (b32 << 8u32) | 0xFFu32) == r32 * 0x100_0000
        + g32 * 0x1_0000 + b32 * 0x100 + 0xFF) by (bit_vector)
        requires
            r32 < 256,
            g32 < 256,
            b32 < 256,
    ;
    (r32 << 24u32) | (g32 << 16u32) | (b32 << 8u32) | 0xFFu32
}

/// The opaque colour that a packed `0xRRGGBBAA` value stands for; its
/// alpha byte is ignored.
pub open spec fn unpacked(packed: u32) -> Color {
    opaque(
        (packed / 0x100_0000) as u8,
        ((packed / 0x1_0000) % 0x100) as u8,
        ((packed / 0x100) % 0x100) as u8,
    )
}

/// The opaque colour of a packed `0xRRGGBBAA` value, as a track header,
/// a mixer strip or a clip draws it.
pub fn unpack_rgb(packed: u32) -> (c: Color)
    ensures
        c == unpacked(packed),
{
    assert(((packed >> 24u32) & 0xFFu32) == packed / 0x100_0000 && ((packed >> 16u32) & 0xFFu32)
        == (packed / 0x1_0000) % 0x100 && ((packed >> 8u32) & 0xFFu32) == (packed / 0x100) % 0x100)
        by (bit_vector);
    Color::from_rgb(
        ((packed >> 24u32) & 0xFFu32) as u8,
        ((packed >> 16u32) & 0xFFu32) as u8,
        ((packed >> 8u32) & 0xFFu32) as u8,
    )
}

/// Unpacking a packed colour gives back the colour that was packed.
pub proof fn law_unpack_pack(r: u8, g: u8, b: u8)
    ensures
        unpacked(packed_rgb(r, g, b) as u32) == opaque(r, g, b),
{
    let p: int = packed_rgb(r, g, b);
    assert(p / 0x100_0000 == r) by (nonlinear_arith)
        requires
            p == r * 0x100_0000 + g * 0x1_0000 + b * 0x100 + 0xFF,
            r < 256,
            g < 256,
            b < 256,
    ;
    assert((p / 0x1_0000) % 0x100 == g) by (nonlinear_arith)
        requires
            p == r * 0x100_0000 + g * 0x1_0000 + b * 0x100 + 0xFF,
            r < 256,
            g < 256,
            b < 256,
    ;
    assert((p / 0x100) % 0x100 == b) by (nonlinear_arith)
        requires
            p == r * 0x100_0000 + g * 0x1_0000 + b * 0x100 + 0xFF,
            r < 256,
            g < 256,
            b < 256,
    ;
}

/// The palette of the interface.
pub struct DawColors;

impl DawColors {
    /// The track palette: blue, orange, green, pink, purple, yellow, cyan
    /// and salmon, assigned to tracks in turn.
    pub fn track_colors() -> (colors: [Color; 8])
        ensures
            forall|i: int| 0 <= i < TRACK_COLOR_COUNT ==> #[trigger] colors@[i] == palette(i),
    {
        let colors: [Color; 8] = [
            Color::from_rgb(100, 180, 255),
            Color::from_rgb(255, 150, 100),
            Color::from_rgb(150, 255, 150),
            Color::from_rgb(255, 150, 200),
            Color::from_rgb(200, 150, 255),
            Color::from_rgb(255, 255, 150),
            Color::from_rgb(150, 255, 255),
            Color::from_rgb(255, 180, 180),
        ];
        colors
    }

    /// The play button while playing.
    pub fn play() -> (c: Color)
        ensures
            c == opaque(50, 220, 100),
    {
        Color::from_rgb(50, 220, 100)
    }

    /// The stop button.
    pub fn stop() -> (c: Color)
        ensures
            c == opaque(200, 200, 200),
    {
        Color::from_rgb(200, 200, 200)
    }

    /// The record button while armed, and armed tracks.
    pub fn record() -> (c: Color)
        ensures
            c == opaque(255, 60, 60),
    {
        Color::from_rgb(255, 60, 60)
    }

    /// The loop button and the loop region.
    pub fn looping() -> (c: Color)
        ensures
            c == opaque(80, 170, 255),
    {
        Color::from_rgb(80, 170, 255)
    }

    /// A meter at a safe level.
    pub fn meter_green() -> (c: Color)
        ensures
            c == opaque(50, 220, 100),
    {
        Color::from_rgb(50, 220, 100)
    }

    /// A meter near full scale.
    pub fn meter_yellow() -> (c: Color)
        ensures
            c == opaque(255, 200, 50),
    {
        Color::from_rgb(255, 200, 50)
    }

    /// A meter at or over full scale.
    pub fn meter_red() -> (c: Color)
        ensures
            c == opaque(255, 60, 60),
    {
        Color::from_rgb(255, 60, 60)
    }

    /// Grid lines on bars.
    pub fn grid_bar() -> (c: Color)
        ensures
            c == opaque(60, 60, 65),
    {
        Color::from_rgb(60, 60, 65)
    }

    /// Grid lines on beats.
    pub fn grid_beat() -> (c: Color)
        ensures
            c == opaque(40, 40, 45),
    {
        Color::from_rgb(40, 40, 45)
    }

    /// The playhead.
    pub fn playhead() -> (c: Color)
        ensures
            c == opaque(255, 100, 100),
    {
        Color::from_rgb(255, 100, 100)
    }

    /// The colour assigned to the track at `index`: the palette repeats
    /// every eight tracks.
    pub fn track_color(index: usize) -> (c: Color)
        ensures
            c == palette((index % TRACK_COLOR_COUNT) as int),
    {
        let i: usize = index % TRACK_COLOR_COUNT;
        let colors: [Color; 8] = Self::track_colors();
        colors[i]
    }

    /// The colour of the track at `index`, packed as `0xRRGGBBFF`.
    pub fn track_color_u32(index: usize) -> (packed: u32)
        ensures
            packed == packed_rgb(
                palette((index % TRACK_COLOR_COUNT) as int).r,
                palette((index % TRACK_COLOR_COUNT) as int).g,
                palette((index % TRACK_COLOR_COUNT) as int).b,
            ),
    {
        let c = Self::track_color(index);
        pack_rgb(c.r, c.g, c.b)
    }
}

/// Track colours repeat every eight tracks.
pub proof fn law_track_color_period(index: int)
    ensures
        palette((index + 8) % 8) == palette(index % 8),
{
    assert((index + 8) % 8 == index % 8) by (nonlinear_arith);
}

/// The packed colour of a track unpacks to the track's palette colour.
pub proof fn law_track_color_roundtrip(index: int)
    ensures
        ({
            let c = palette(index % 8);
            unpacked(packed_rgb(c.r, c.g, c.b) as u32) == c
        }),
{
    let c = palette(index % 8);
    law_unpack_pack(c.r, c.g, c.b);
}

} // verus!
