//! Color transforms.
//!
//! A packed color holds hue, saturation and lightness in one byte each, so
//! all three are fractions with a small denominator, and so are the red,
//! green and blue factors that they convert to. This module computes with
//! the numerators: no value is rounded before the last step.
//!
//! Recoloring multiplies every color channel of an image by the factor of
//! that channel. Since a channel has only 256 values, the products are kept
//! in a table with one entry for each of them.

use vstd::prelude::*;

use crate::tee::pixels::{PixelBuffer, PixelGrid};

verus! {

/// Hue, saturation and lightness as exact fractions: the hue is `h / 255`,
/// the saturation `s / 255`, the lightness `l / 510`.
#[derive(Debug, Clone, Copy, PartialEq, Eq, Structural)]
pub struct HSL {
    pub h: u8,
    pub s: u8,
    pub l: u16,
}

/// The byte of `color` that starts at bit `shift`.
pub open spec fn packed_byte(color: u32, shift: u32) -> u32 {
    (color >> shift) & 0xff
}

/// Unpacks a packed color: the hue from bits 16 to 23, the saturation from
/// bits 8 to 15, the lightness from bits 0 to 7.
///
/// The stored lightness `low` fills only the upper half of the range: it
/// stands for `1/2 + (low / 255) / 2`, which is `(255 + low) / 510`, so an
/// unpacked color is never darker than one half.
pub fn ddnet_color_to_hsl(color: u32) -> (r: HSL)
    ensures
        r.h == packed_byte(color, 16),
        r.s == packed_byte(color, 8),
        r.l == 255 + packed_byte(color, 0),
        255 <= r.l <= 510,
{
    let h_raw: u32 = (color >> 16) & 0xff;
    let s_raw: u32 = (color >> 8) & 0xff;
    let l_raw: u32 = color & 0xff;
    assert(h_raw <= 0xff && s_raw <= 0xff && l_raw <= 0xff && l_raw == (color >> 0) & 0xff)
        by (bit_vector)
        requires
            h_raw == (color >> 16) & 0xff,
            s_raw == (color >> 8) & 0xff,
            l_raw == color & 0xff,
    ;
    HSL { h: h_raw as u8, s: s_raw as u8, l: (255 + l_raw) as u16 }
}

/// Red, green and blue factors as exact fractions: each field is the
/// numerator of a fraction with the denominator [`RGB_DENOMINATOR`].
#[derive(Debug, Clone, Copy, PartialEq, Eq, Structural)]
pub struct RGB {
    pub r: u32,
    pub g: u32,
    pub b: u32,
}

/// The denominator of the fractions in an [`RGB`]: 255 * 255 * 510.
pub const RGB_DENOMINATOR: u32 = 33_162_750;

/// The distance between two numbers.
pub open spec fn distance(a: int, b: int) -> int {
    if a >= b {
        a - b
    } else {
        b - a
    }
}

impl HSL {
    /// The lightness is at most one.
    pub open spec fn wf(self) -> bool {
        self.l <= 510
    }

    /// The chroma `c = (1 - |2l - 1|) * s`, as the numerator of a fraction
    /// over 255 * 255.
    pub open spec fn chroma(self) -> int {
        (255 - distance(self.l as int, 255)) * self.s
    }

    /// The sixth of the color circle that the hue lies in: the whole part of
    /// `h1 = 6h`, from 0 to 6.
    pub open spec fn sector(self) -> int {
        (6 * self.h) / 255
    }

    /// `1 - |(h1 mod 2) - 1|`, as the numerator of a fraction over 255.
    pub open spec fn ramp(self) -> int {
        255 - distance((6 * self.h) % 510, 255)
    }

    /// The chroma over [`RGB_DENOMINATOR`].
    pub open spec fn c(self) -> int {
        self.chroma() * 510
    }

    /// The second largest component `x = c * (1 - |(h1 mod 2) - 1|)`, over
    /// [`RGB_DENOMINATOR`].
    pub open spec fn x(self) -> int {
        self.chroma() * self.ramp() * 2
    }

    /// The lightness offset `m = l - c / 2`, over [`RGB_DENOMINATOR`].
    pub open spec fn m(self) -> int {
        (255 * self.l - self.chroma()) * 255
    }

    /// The red, green and blue factors of this color, over
    /// [`RGB_DENOMINATOR`]: `(c, x, 0)`, `(x, c, 0)`, `(0, c, x)`,
    /// `(0, x, c)`, `(x, 0, c)` for the sectors 0 to 4 and `(c, 0, x)` from
    /// sector 5 on, each component raised by `m`.
    pub open spec fn rgb(self) -> (int, int, int) {
        let (c, x, m) = (self.c(), self.x(), self.m());
        let k = self.sector();
        if k == 0 {
            (c + m, x + m, m)
        } else if k == 1 {
            (x + m, c + m, m)
        } else if k == 2 {
            (m, c + m, x + m)
        } else if k == 3 {
            (m, x + m, c + m)
        } else if k == 4 {
            (x + m, m, c + m)
        } else {
            (c + m, m, x + m)
        }
    }
}

/// The three components of a color lie between `m` and `c + m`, and those
/// between nought and one.
pub proof fn lemma_rgb_in_range(hsl: HSL)
    requires
        hsl.wf(),
    ensures
        0 <= hsl.chroma() <= 65025,
        0 <= hsl.ramp() <= 255,
        0 <= hsl.x() <= hsl.c(),
        0 <= hsl.m(),
        hsl.c() + hsl.m() <= RGB_DENOMINATOR,
        0 <= hsl.rgb().0 <= RGB_DENOMINATOR,
        0 <= hsl.rgb().1 <= RGB_DENOMINATOR,
        0 <= hsl.rgb().2 <= RGB_DENOMINATOR,
{
    let k = 255 - distance(hsl.l as int, 255);
    let s = hsl.s as int;
    let l = hsl.l as int;
    let t = hsl.ramp();
    let chroma = hsl.chroma();
    assert(0 <= k <= 255 && k <= l && k <= 510 - l);
    assert(0 <= chroma <= k * 255 && chroma == k * s) by (nonlinear_arith)
        requires
            chroma == k * s,
            0 <= k,
            0 <= s <= 255,
    ;
    assert(k * 255 <= 65025 && k * 255 <= 255 * l && k * 255 <= 255 * (510 - l));
    assert(0 <= chroma * t * 2 <= chroma * 510) by (nonlinear_arith)
        requires
            0 <= chroma,
            0 <= t <= 255,
    ;
}

/// Converts a color from hue, saturation and lightness to its red, green and
/// blue factors, none of them rounded.
pub fn hsl_to_rgb(hsl: HSL) -> (r: RGB)
    requires
        hsl.wf(),
    ensures
        (r.r as int, r.g as int, r.b as int) == hsl.rgb(),
        r.r <= RGB_DENOMINATOR,
        r.g <= RGB_DENOMINATOR,
        r.b <= RGB_DENOMINATOR,
{
    proof {
        lemma_rgb_in_range(hsl);
    }
    let l: u32 = hsl.l as u32;
    let from_middle: u32 = if l >= 255 {
        l - 255
    } else {
        255 - l
    };
    let chroma: u32 = (255 - from_middle) * hsl.s as u32;
    let h1: u32 = 6 * hsl.h as u32;
    let turn: u32 = h1 % 510;
    let from_peak: u32 = if turn >= 255 {
        turn - 255
    } else {
        255 - turn
    };
    let ramp: u32 = 255 - from_peak;
    let c: u32 = chroma * 510;
    assert(chroma * ramp <= chroma * 255) by (nonlinear_arith)
        requires
            0 <= chroma,
            0 <= ramp <= 255,
    ;
    let x: u32 = chroma * ramp * 2;
    let m: u32 = (255 * l - chroma) * 255;
    let sector: u32 = h1 / 255;
    if sector == 0 {
        RGB { r: c + m, g: x + m, b: m }
    } else if sector == 1 {
        RGB { r: x + m, g: c + m, b: m }
    } else if sector == 2 {
        RGB { r: m, g: c + m, b: x + m }
    } else if sector == 3 {
        RGB { r: m, g: x + m, b: c + m }
    } else if sector == 4 {
        RGB { r: x + m, g: m, b: c + m }
    } else {
        RGB { r: c + m, g: m, b: x + m }
    }
}

/// A channel value multiplied by a factor: `value / 255 * factor`, held
/// between nought and one, brought back to the range of a byte and cut off
/// to a whole number.
pub open spec fn tinted(value: u8, factor: u32) -> int {
    let product = (value * factor) / (RGB_DENOMINATOR as int);
    if product > 255 {
        255
    } else {
        product
    }
}

/// Computes [`tinted`].
pub fn tint(value: u8, factor: u32) -> (r: u8)
    ensures
        r == tinted(value, factor),
{
    assert(value * factor <= 255 * 0xffff_ffff) by (nonlinear_arith)
        requires
            0 <= value <= 255,
            0 <= factor <= 0xffff_ffff,
    ;
    let product: u64 = (value as u64 * factor as u64) / (RGB_DENOMINATOR as u64);
    if product > 255 {
        255
    } else {
        product as u8
    }
}

/// For each color channel, the new value of each of its 256 values.
#[derive(Debug, Clone, Copy)]
pub struct ChannelTables {
    pub red: [u8; 256],
    pub green: [u8; 256],
    pub blue: [u8; 256],
}

impl ChannelTables {
    /// The new value of `value` in channel `c`: looked up for red, green and
    /// blue (0, 1, 2), unchanged for alpha.
    pub open spec fn apply(self, c: int, value: u8) -> u8 {
        if c == 0 {
            self.red@[value as int]
        } else if c == 1 {
            self.green@[value as int]
        } else if c == 2 {
            self.blue@[value as int]
        } else {
            value
        }
    }
}

impl ChannelTables {
    /// The tables hold, for each channel, every value multiplied by the
    /// factor of that channel.
    pub open spec fn multiplies_by(self, rgb: RGB) -> bool {
        forall|v: u8|
            #![trigger tinted(v, rgb.r)]
            #![trigger tinted(v, rgb.g)]
            #![trigger tinted(v, rgb.b)]
            self.red@[v as int] == tinted(v, rgb.r) && self.green@[v as int] == tinted(v, rgb.g)
                && self.blue@[v as int] == tinted(v, rgb.b)
    }

    /// The tables that multiply each channel by its factor.
    pub fn from_rgb(rgb: RGB) -> (r: ChannelTables)
        ensures
            r.multiplies_by(rgb),
    {
        let mut tables = ChannelTables { red: [0; 256], green: [0; 256], blue: [0; 256] };
        let mut v: usize = 0;
        while v < 256
            invariant
                v <= 256,
                forall|k: u8|
                    k < v ==> tables.red@[k as int] == tinted(k, rgb.r) && tables.green@[k as int]
                        == tinted(k, rgb.g) && tables.blue@[k as int] == tinted(k, rgb.b),
            decreases 256 - v,
        {
            tables.red.set(v, tint(v as u8, rgb.r));
            tables.green.set(v, tint(v as u8, rgb.g));
            tables.blue.set(v, tint(v as u8, rgb.b));
            v = v + 1;
        }
        tables
    }

    /// The tables that multiply each channel by the factor that the color
    /// gives for it.
    pub fn from_hsl(hsl: HSL) -> (r: ChannelTables)
        requires
            hsl.wf(),
        ensures
            forall|v: u8|
                #![trigger r.red@[v as int]]
                #![trigger r.green@[v as int]]
                #![trigger r.blue@[v as int]]
                r.red@[v as int] == (v * hsl.rgb().0) / (RGB_DENOMINATOR as int) && r.green@[v as int]
                    == (v * hsl.rgb().1) / (RGB_DENOMINATOR as int) && r.blue@[v as int] == (v
                    * hsl.rgb().2) / (RGB_DENOMINATOR as int),
    {
        let rgb = hsl_to_rgb(hsl);
        let tables = ChannelTables::from_rgb(rgb);
        proof {
            assert forall|v: u8|
                #![trigger tables.red@[v as int]]
                #![trigger tables.green@[v as int]]
                #![trigger tables.blue@[v as int]]
                tables.red@[v as int] == (v * hsl.rgb().0) / (RGB_DENOMINATOR as int)
                    && tables.green@[v as int] == (v * hsl.rgb().1) / (RGB_DENOMINATOR as int)
                    && tables.blue@[v as int] == (v * hsl.rgb().2) / (RGB_DENOMINATOR as int) by {
                lemma_tinted_by_a_fraction(v, rgb.r);
                lemma_tinted_by_a_fraction(v, rgb.g);
                lemma_tinted_by_a_fraction(v, rgb.b);
            }
        }
        tables
    }
}

/// A factor of at most one never takes a channel beyond its range, so
/// nothing is cut off: the result is the whole part of the product, and no
/// more than the value was.
pub proof fn lemma_tinted_by_a_fraction(value: u8, factor: u32)
    requires
        factor <= RGB_DENOMINATOR,
    ensures
        tinted(value, factor) == (value * factor) / (RGB_DENOMINATOR as int),
        0 <= tinted(value, factor) <= value,
{
    let d = RGB_DENOMINATOR as int;
    let product = value * factor;
    assert(0 <= product <= value * d) by (nonlinear_arith)
        requires
            product == value * factor,
            0 <= value,
            0 <= factor <= d,
    ;
    vstd::arithmetic::div_mod::lemma_div_is_ordered(product, value * d, d);
    vstd::arithmetic::div_mod::lemma_div_multiples_vanish(value as int, d);
    vstd::arithmetic::div_mod::lemma_div_pos_is_pos(product, d);
}

/// An image with every color channel of every pixel sent through the tables.
pub open spec fn recolored(img: PixelGrid, tables: ChannelTables) -> PixelGrid {
    PixelGrid {
        width: img.width,
        height: img.height,
        data: Seq::new(img.data.len(), |i: int| tables.apply(i % 4, img.data[i])),
    }
}

/// An image recolored `n` times over.
pub open spec fn recolored_times(img: PixelGrid, tables: ChannelTables, n: nat) -> PixelGrid
    decreases n,
{
    if n == 0 {
        img
    } else {
        recolored(recolored_times(img, tables, (n - 1) as nat), tables)
    }
}

/// An image recolored no time is the image; recolored once, it is
/// [`recolored`].
pub proof fn lemma_recolored_once(img: PixelGrid, tables: ChannelTables)
    ensures
        recolored_times(img, tables, 0) == img,
        recolored_times(img, tables, 1) == recolored(img, tables),
{
    reveal_with_fuel(recolored_times, 2);
}

/// Sends the red, green and blue channel of every pixel through the tables,
/// in place. Alpha stays as it is, and no pixel depends on another.
pub fn img_hsl_transform(img: &mut PixelBuffer, tables: &ChannelTables)
    requires
        old(img).wf(),
    ensures
        final(img)@ == recolored(old(img)@, *tables),
        final(img).wf(),
{
    let n: usize = img.data.len();
    let mut i: usize = 0;
    while i < n
        invariant
            n == img.data@.len() == old(img).data@.len(),
            i <= n,
            img.width == old(img).width,
            img.height == old(img).height,
            forall|k: int| 0 <= k < i ==> img.data@[k] == tables.apply(k % 4, old(img).data@[k]),
            forall|k: int| i <= k < n ==> img.data@[k] == old(img).data@[k],
        decreases n - i,
    {
        let c: usize = i % 4;
        let v: u8 = img.data[i];
        if c == 0 {
            img.data.set(i, tables.red[v as usize]);
        } else if c == 1 {
            img.data.set(i, tables.green[v as usize]);
        } else if c == 2 {
            img.data.set(i, tables.blue[v as usize]);
        }
        i = i + 1;
    }
    assert(img.data@ =~= recolored(old(img)@, *tables).data);
}

/// Recoloring keeps the size of an image and every alpha value, and sets
/// each color channel to what the table of that channel holds for its old
/// value.
pub proof fn lemma_recolor_is_channel_local(
    img: PixelGrid,
    tables: ChannelTables,
    x: int,
    y: int,
)
    requires
        img.wf(),
        0 <= x < img.width,
        0 <= y < img.height,
    ensures
        recolored(img, tables).wf(),
        recolored(img, tables).width == img.width,
        recolored(img, tables).height == img.height,
        recolored(img, tables).channel(x, y, 0) == tables.red@[img.channel(x, y, 0) as int],
        recolored(img, tables).channel(x, y, 1) == tables.green@[img.channel(x, y, 1) as int],
        recolored(img, tables).channel(x, y, 2) == tables.blue@[img.channel(x, y, 2) as int],
        recolored(img, tables).channel(x, y, 3) == img.channel(x, y, 3),
{
    crate::tee::pixels::lemma_byte_index_in_range(img.width as int, img.height as int, x, y, 0);
    crate::tee::pixels::lemma_byte_index_in_range(img.width as int, img.height as int, x, y, 1);
    crate::tee::pixels::lemma_byte_index_in_range(img.width as int, img.height as int, x, y, 2);
    crate::tee::pixels::lemma_byte_index_in_range(img.width as int, img.height as int, x, y, 3);
}

/// Recoloring by the tables of three factors multiplies each color channel
/// of each pixel by the factor of that channel, as [`tinted`] says, and
/// leaves its alpha as it is.
pub proof fn lemma_recolor_multiplies(
    img: PixelGrid,
    tables: ChannelTables,
    rgb: RGB,
    x: int,
    y: int,
)
    requires
        img.wf(),
        tables.multiplies_by(rgb),
        0 <= x < img.width,
        0 <= y < img.height,
    ensures
        recolored(img, tables).channel(x, y, 0) == tinted(img.channel(x, y, 0), rgb.r),
        recolored(img, tables).channel(x, y, 1) == tinted(img.channel(x, y, 1), rgb.g),
        recolored(img, tables).channel(x, y, 2) == tinted(img.channel(x, y, 2), rgb.b),
        recolored(img, tables).channel(x, y, 3) == img.channel(x, y, 3),
{
    lemma_recolor_is_channel_local(img, tables, x, y);
    let r = img.channel(x, y, 0);
    let g = img.channel(x, y, 1);
    let b = img.channel(x, y, 2);
    assert(tables.red@[r as int] == tinted(r, rgb.r));
    assert(tables.green@[g as int] == tinted(g, rgb.g));
    assert(tables.blue@[b as int] == tinted(b, rgb.b));
}

} // verus!
