//! RGBA images as plain bytes, and the operations on them that need no codec.

use vstd::prelude::*;
use vstd::arithmetic::div_mod::{
    lemma_fundamental_div_mod, lemma_fundamental_div_mod_converse, lemma_mod_bound,
};
use vstd::arithmetic::mul::lemma_mul_is_commutative;

use crate::tee::uv::Part;

verus! {

/// Position in a row-major RGBA byte sequence of channel `c` of the pixel at
/// `(x, y)`, for an image `width` pixels wide.
pub open spec fn byte_index(width: int, x: int, y: int, c: int) -> int {
    (y * width + x) * 4 + c
}

/// An image of 8-bit RGBA pixels, row by row from the top left.
#[derive(Debug, Clone, PartialEq, Eq)]
pub struct PixelBuffer {
    pub width: u32,
    pub height: u32,
    /// Four bytes per pixel: red, green, blue, alpha.
    pub data: Vec<u8>,
}

/// What an image is to a contract: its size and its bytes.
pub struct PixelGrid {
    pub width: u32,
    pub height: u32,
    pub data: Seq<u8>,
}

impl PixelGrid {
    /// There are exactly the bytes of `width * height` pixels.
    pub open spec fn wf(self) -> bool {
        self.data.len() == self.width * self.height * 4
    }

    /// Channel `c` (0 red, 1 green, 2 blue, 3 alpha) of the pixel at `(x, y)`.
    pub open spec fn channel(self, x: int, y: int, c: int) -> u8 {
        self.data[byte_index(self.width as int, x, y, c)]
    }

    /// The image has a pixel at `(x, y)`.
    pub open spec fn contains(self, x: int, y: int) -> bool {
        0 <= x < self.width && 0 <= y < self.height
    }

    /// Laid with its top-left corner at `(left, top)` of another image, this
    /// image lies over that image's pixel at `(x, y)`.
    pub open spec fn covers(self, left: int, top: int, x: int, y: int) -> bool {
        left <= x < left + self.width && top <= y < top + self.height
    }

    /// `self` is the rectangle `part` of `source`, pixel for pixel.
    pub open spec fn is_region_of(self, source: PixelGrid, part: Part) -> bool {
        &&& self.wf()
        &&& self.width == part.w
        &&& self.height == part.h
        &&& forall|x: int, y: int, c: int|
            0 <= x < part.w && 0 <= y < part.h && 0 <= c < 4 ==> #[trigger] self.channel(x, y, c)
                == source.channel(part.x + x, part.y + y, c)
    }

    /// `self` is `source` with each row reversed, pixel for pixel.
    pub open spec fn is_mirror_of(self, source: PixelGrid) -> bool {
        &&& self.wf()
        &&& self.width == source.width
        &&& self.height == source.height
        &&& forall|x: int, y: int, c: int|
            0 <= x < self.width && 0 <= y < self.height && 0 <= c < 4 ==> #[trigger] self.channel(
                x,
                y,
                c,
            ) == source.channel(source.width - 1 - x, y, c)
    }

    /// Every byte is zero: a fully transparent image.
    pub open spec fn is_blank(self) -> bool {
        self.wf() && forall|i: int| 0 <= i < self.data.len() ==> self.data[i] == 0
    }

    /// The fully transparent image of the given size.
    pub open spec fn blank(width: u32, height: u32) -> PixelGrid {
        PixelGrid { width, height, data: Seq::new((width * height * 4) as nat, |i: int| 0u8) }
    }

    /// Column of the image that column `x` of a copied region is read from:
    /// counted from the region's left edge, or from its right edge when the
    /// copy is mirrored.
    pub open spec fn source_column(part: Part, mirrored: bool, x: int) -> int {
        if mirrored {
            part.x + part.w - 1 - x
        } else {
            part.x + x
        }
    }

    /// Position in the image's bytes of byte `k` of a copied region.
    pub open spec fn source_byte(self, part: Part, mirrored: bool, k: int) -> int {
        byte_index(
            self.width as int,
            Self::source_column(part, mirrored, (k / 4) % (part.w as int)),
            part.y + (k / 4) / (part.w as int),
            k % 4,
        )
    }

    /// The rectangle `part` of the image as an image of its own, each row
    /// reversed when `mirrored`.
    pub open spec fn region(self, part: Part, mirrored: bool) -> PixelGrid {
        PixelGrid {
            width: part.w,
            height: part.h,
            data: Seq::new(
                (part.w * part.h * 4) as nat,
                |k: int| self.data[self.source_byte(part, mirrored, k)],
            ),
        }
    }

    /// The whole image as a rectangle.
    pub open spec fn frame(self) -> Part {
        Part { x: 0, y: 0, w: self.width, h: self.height }
    }

    /// The image with left and right exchanged.
    pub open spec fn mirror(self) -> PixelGrid {
        self.region(self.frame(), true)
    }
}

impl View for PixelBuffer {
    type V = PixelGrid;

    open spec fn view(&self) -> PixelGrid {
        PixelGrid { width: self.width, height: self.height, data: self.data@ }
    }
}

impl PixelBuffer {
    /// The buffer holds exactly the bytes of `width * height` pixels.
    pub open spec fn wf(&self) -> bool {
        self@.wf()
    }

    /// Copies the rectangle `part` into an image of its own, reversing each
    /// row when `mirrored`.
    fn copy_region(&self, part: Part, mirrored: bool) -> (r: PixelBuffer)
        requires
            self.wf(),
            part.fits(self.width as int, self.height as int),
        ensures
            r.wf(),
            r@ == self@.region(part, mirrored),
    {
        let w: usize = part.w as usize;
        let h: usize = part.h as usize;
        proof {
            lemma_region_size(
                self.width as int,
                self.height as int,
                part.w as int,
                part.h as int,
            );
        }
        assert(self.data.len() == self.data@.len());
        let pixels: usize = w * h;
        let mut data: Vec<u8> = Vec::new();
        let mut p: usize = 0;
        while p < pixels
            invariant
                self.wf(),
                part.fits(self.width as int, self.height as int),
                w == part.w,
                h == part.h,
                pixels == w * h,
                pixels * 4 <= self.data.len() == self.data@.len(),
                p <= pixels,
                data@.len() == p * 4,
                forall|k: int|
                    0 <= k < p * 4 ==> data@[k] == self.data@[#[trigger] self@.source_byte(
                        part,
                        mirrored,
                        k,
                    )],
            decreases pixels - p,
        {
            proof {
                lemma_pixel_of_region(w as int, h as int, p as int);
            }
            let y: usize = p / w;
            let x: usize = p % w;
            let sx: usize = if mirrored {
                part.x as usize + (w - 1 - x)
            } else {
                part.x as usize + x
            };
            let sy: usize = part.y as usize + y;
            proof {
                lemma_byte_index_in_range(
                    self.width as int,
                    self.height as int,
                    sx as int,
                    sy as int,
                    0,
                );
            }
            let base: usize = (sy * self.width as usize + sx) * 4;
            let ghost before = data@;
            data.push(self.data[base]);
            data.push(self.data[base + 1]);
            data.push(self.data[base + 2]);
            data.push(self.data[base + 3]);
            proof {
                assert forall|k: int| 0 <= k < (p + 1) * 4 implies data@[k] == self.data@[self@.source_byte(
                    part,
                    mirrored,
                    k,
                )] by {
                    if k >= p * 4 {
                        assert(k / 4 == p as int);
                        assert(data@[k] == self.data@[base + k % 4]);
                    } else {
                        assert(data@[k] == before[k]);
                    }
                }
            }
            p = p + 1;
        }
        assert(data@ =~= self@.region(part, mirrored).data);
        PixelBuffer { width: part.w, height: part.h, data }
    }

    /// A fully transparent image of the given size.
    pub fn new(width: u32, height: u32) -> (r: PixelBuffer)
        requires
            width * height * 4 <= usize::MAX,
        ensures
            r@ == PixelGrid::blank(width, height),
            r@.is_blank(),
    {
        assert(width * height <= width * height * 4) by (nonlinear_arith)
            requires
                width >= 0,
                height >= 0,
        ;
        let n: usize = width as usize * height as usize * 4;
        let mut data: Vec<u8> = Vec::new();
        let mut i: usize = 0;
        while i < n
            invariant
                i <= n,
                data@.len() == i,
                forall|k: int| 0 <= k < i ==> data@[k] == 0,
            decreases n - i,
        {
            data.push(0);
            i = i + 1;
        }
        assert(data@ =~= PixelGrid::blank(width, height).data);
        PixelBuffer { width, height, data }
    }

    /// An image over the given bytes, if there are exactly as many as
    /// `width * height` pixels take.
    pub fn from_raw(width: u32, height: u32, data: Vec<u8>) -> (r: Option<PixelBuffer>)
        ensures
            r.is_some() <==> data@.len() == width * height * 4,
            r matches Some(img) ==> img.width == width && img.height == height && img.data@
                == data@,
    {
        assert(width * height <= 0xffff_ffff * 0xffff_ffff) by (nonlinear_arith)
            requires
                0 <= width <= 0xffff_ffff,
                0 <= height <= 0xffff_ffff,
        ;
        let pixels: u64 = width as u64 * height as u64;
        let len: u64 = data.len() as u64;
        if len % 4 == 0 && len / 4 == pixels {
            Some(PixelBuffer { width, height, data })
        } else {
            None
        }
    }

    /// Computes [`PixelBuffer::wf`].
    pub fn is_well_formed(&self) -> (r: bool)
        ensures
            r == self.wf(),
    {
        assert(self.width * self.height <= 0xffff_ffff * 0xffff_ffff && self.width * self.height
            >= 0) by (nonlinear_arith)
            requires
                0 <= self.width <= 0xffff_ffff,
                0 <= self.height <= 0xffff_ffff,
        ;
        let expected: u128 = self.width as u128 * self.height as u128 * 4;
        self.data.len() as u128 == expected
    }

    /// The four channels of the pixel at `(x, y)`.
    pub fn get_pixel(&self, x: u32, y: u32) -> (r: [u8; 4])
        requires
            self.wf(),
            x < self.width,
            y < self.height,
        ensures
            forall|c: int| 0 <= c < 4 ==> r@[c] == self@.channel(x as int, y as int, c),
    {
        proof {
            lemma_byte_index_in_range(
                self.width as int,
                self.height as int,
                x as int,
                y as int,
                0,
            );
        }
        assert(self.data.len() == self.data@.len());
        let base: usize = (y as usize * self.width as usize + x as usize) * 4;
        [self.data[base], self.data[base + 1], self.data[base + 2], self.data[base + 3]]
    }

    /// The rectangle `part` of this image, as an image of its own.
    pub fn crop(&self, part: Part) -> (r: PixelBuffer)
        requires
            self.wf(),
            part.fits(self.width as int, self.height as int),
        ensures
            r@ == self@.region(part, false),
            r@.is_region_of(self@, part),
    {
        proof {
            lemma_region_pixels(self@, part, false);
        }
        self.copy_region(part, false)
    }

    /// This image with left and right exchanged.
    pub fn flip_horizontal(&self) -> (r: PixelBuffer)
        requires
            self.wf(),
        ensures
            r@ == self@.mirror(),
            r@.is_mirror_of(self@),
    {
        proof {
            lemma_region_pixels(self@, self@.frame(), true);
        }
        self.copy_region(Part { x: 0, y: 0, w: self.width, h: self.height }, true)
    }
}

/// The pixel at `(x, y)` of a region is the pixel of the image that lies
/// `x` columns from the region's left edge, or from its right edge when the
/// region is mirrored, and `y` rows below its top.
pub proof fn lemma_region_pixels(img: PixelGrid, part: Part, mirrored: bool)
    requires
        img.wf(),
        part.fits(img.width as int, img.height as int),
    ensures
        img.region(part, mirrored).wf(),
        forall|x: int, y: int, c: int|
            0 <= x < part.w && 0 <= y < part.h && 0 <= c < 4 ==> #[trigger] img.region(
                part,
                mirrored,
            ).channel(x, y, c) == img.channel(
                PixelGrid::source_column(part, mirrored, x),
                part.y + y,
                c,
            ),
{
    let r = img.region(part, mirrored);
    lemma_region_size(img.width as int, img.height as int, part.w as int, part.h as int);
    assert forall|x: int, y: int, c: int|
        0 <= x < part.w && 0 <= y < part.h && 0 <= c < 4 implies #[trigger] r.channel(x, y, c)
        == img.channel(PixelGrid::source_column(part, mirrored, x), part.y + y, c) by {
        lemma_byte_index_in_range(part.w as int, part.h as int, x, y, c);
        lemma_byte_index_splits(part.w as int, x, y, c);
    }
}

/// Mirroring an image twice gives the image back.
pub proof fn lemma_mirror_twice(img: PixelGrid)
    requires
        img.wf(),
    ensures
        img.mirror().mirror() == img,
{
    let once = img.mirror();
    let twice = once.mirror();
    let w = img.width as int;
    let h = img.height as int;
    lemma_region_pixels(img, img.frame(), true);
    assert forall|k: int| 0 <= k < img.data.len() implies twice.data[k] == img.data[k] by {
        assert(w * h * 4 == (w * h) * 4) by (nonlinear_arith);
        lemma_pixel_of_region(w, h, k / 4);
        let x = (k / 4) % w;
        let y = (k / 4) / w;
        lemma_fundamental_div_mod(k / 4, w);
        lemma_mul_is_commutative(w, y);
        assert(k == byte_index(w, x, y, k % 4));
        lemma_byte_index_splits(w, w - 1 - x, y, k % 4);
        lemma_byte_index_in_range(w, h, w - 1 - x, y, k % 4);
        assert(once.source_byte(once.frame(), true, k) == byte_index(w, w - 1 - x, y, k % 4));
        assert(img.source_byte(img.frame(), true, byte_index(w, w - 1 - x, y, k % 4)) == k);
    }
    assert(twice.data =~= img.data);
}

/// A region inside an image has no more pixels than the image.
proof fn lemma_region_size(width: int, height: int, w: int, h: int)
    requires
        0 <= w <= width,
        0 <= h <= height,
    ensures
        0 <= w * h <= width * height,
        w * h * 4 <= width * height * 4,
{
    assert(0 <= w * h <= width * height) by (nonlinear_arith)
        requires
            0 <= w <= width,
            0 <= h <= height,
    ;
}

/// The `p`-th pixel of a region lies in row `p / w` and column `p % w`.
proof fn lemma_pixel_of_region(w: int, h: int, p: int)
    requires
        0 <= w,
        0 <= h,
        0 <= p < w * h,
    ensures
        w > 0,
        0 <= p / w < h,
        0 <= p % w < w,
{
    assert(w > 0) by (nonlinear_arith)
        requires
            0 <= w,
            0 <= p < w * h,
    ;
    lemma_fundamental_div_mod(p, w);
    lemma_mod_bound(p, w);
    let q = p / w;
    assert(0 <= q < h) by (nonlinear_arith)
        requires
            p == w * q + p % w,
            0 <= p % w < w,
            0 <= p < w * h,
            w > 0,
    ;
}

/// A channel of a pixel inside the image lies inside the byte sequence.
pub proof fn lemma_byte_index_in_range(width: int, height: int, x: int, y: int, c: int)
    requires
        0 <= x < width,
        0 <= y < height,
        0 <= c < 4,
    ensures
        0 <= byte_index(width, x, y, c) < width * height * 4,
        0 <= y * width <= y * width + x < width * height,
{
    assert(y * width >= 0) by (nonlinear_arith)
        requires
            y >= 0,
            width >= 0,
    ;
    assert(y * width + width <= height * width) by (nonlinear_arith)
        requires
            y + 1 <= height,
            width >= 0,
    ;
    assert(height * width == width * height) by (nonlinear_arith);
}

/// A byte position determines its pixel and channel.
pub proof fn lemma_byte_index_splits(width: int, x: int, y: int, c: int)
    requires
        0 <= x < width,
        0 <= y,
        0 <= c < 4,
    ensures
        byte_index(width, x, y, c) % 4 == c,
        byte_index(width, x, y, c) / 4 == y * width + x,
        (y * width + x) % width == x,
        (y * width + x) / width == y,
{
    let p = y * width + x;
    lemma_mul_is_commutative(p, 4);
    lemma_fundamental_div_mod_converse(byte_index(width, x, y, c), 4, p, c);
    lemma_mul_is_commutative(y, width);
    lemma_fundamental_div_mod_converse(p, width, y, x);
}

} // verus!
