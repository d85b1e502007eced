//! The work that the `image` crate does for this library: decoding and
//! encoding, resampling, and alpha blending. Verus does not see inside these
//! calls. Each function here states what is assumed of the call it makes.

use vstd::prelude::*;

use image::imageops;
use image::imageops::FilterType;
use image::{GenericImageView, ImageBuffer, ImageError, ImageFormat, ImageReader, Rgba};
use std::io::Cursor;

use crate::tee::pixels::{PixelBuffer, PixelGrid};

verus! {

/// `image::ImageFormat`, the formats that the `image` crate knows by name.
/// Verus reads the names of its variants and nothing else of it.
#[verifier::external_type_specification]
pub struct ExImageFormat(ImageFormat);

/// What decoding `data` as `format` gives: the width, the height and the RGBA
/// bytes of the picture, or `None` where the `image` crate reports an error.
pub uninterp spec fn decoded_image(data: Seq<u8>, format: ImageFormat) -> Option<
    (u32, u32, Seq<u8>),
>;

/// Decodes `data` in the given format to RGBA pixels.
///
/// Calls `image::ImageReader::decode` on the bytes with the format set, and
/// reads the whole picture out through `GenericImageView::view(..).to_image()`.
/// Assumed: the outcome depends on the bytes and the format alone, and a
/// decoded picture has four bytes for each of its `width * height` pixels.
#[verifier::external_body]
pub(crate) fn decode_image(data: &[u8], format: ImageFormat) -> (r: Result<
    PixelBuffer,
    ImageError,
>)
    ensures
        r.is_ok() <==> decoded_image(data@, format).is_some(),
        r matches Ok(img) ==> img.wf() && decoded_image(data@, format) == Some(
            (img.width, img.height, img.data@),
        ),
{
    let mut reader = ImageReader::new(Cursor::new(data));
    reader.set_format(format);
    let img = reader.decode()?;
    let (width, height) = img.dimensions();
    let data = img.view(0, 0, width, height).to_image().into_raw();
    Ok(PixelBuffer { width, height, data })
}

/// What encoding an image in `format` gives: the bytes of the file, or `None`
/// where the `image` crate reports an error.
pub uninterp spec fn encoded_image(img: PixelGrid, format: ImageFormat) -> Option<Seq<u8>>;

/// Encodes an image in the given format.
///
/// Calls `image::ImageBuffer::write_to` on the pixels, writing into memory.
/// Assumed: the outcome depends on the pixels and the format alone.
#[verifier::external_body]
pub(crate) fn encode_image(img: &PixelBuffer, format: ImageFormat) -> (r: Result<
    Vec<u8>,
    ImageError,
>)
    requires
        img.wf(),
    ensures
        r.is_ok() <==> encoded_image(img@, format).is_some(),
        r matches Ok(bytes) ==> encoded_image(img@, format) == Some(bytes@),
{
    let pixels = img.data.as_slice();
    let source = ImageBuffer::<Rgba<u8>, &[u8]>::from_raw(img.width, img.height, pixels);
    let mut bytes = Vec::new();
    source.expect("well-formed image").write_to(&mut Cursor::new(&mut bytes), format)?;
    Ok(bytes)
}

/// The bytes of `img` resampled to `width` by `height` pixels with the
/// triangle (linear) filter.
pub uninterp spec fn resized_image(img: PixelGrid, width: u32, height: u32) -> Seq<u8>;

/// The sizes for which resampling can allocate its buffers: the intermediate
/// one holds four 32-bit numbers for each of `source_width * height` pixels,
/// the result four bytes for each of `width * height`.
pub open spec fn can_resize(source_width: u32, width: u32, height: u32) -> bool {
    source_width * height * 16 <= isize::MAX && width * height * 4 <= isize::MAX
}

/// Whether resampling an image `source_width` wide to `width` by `height`
/// can allocate its buffers.
pub fn resize_fits(source_width: u32, width: u32, height: u32) -> (r: bool)
    ensures
        r == can_resize(source_width, width, height),
{
    assert(source_width * height * 16 <= 0xffff_ffff * 0xffff_ffff * 16 && width * height * 4
        <= 0xffff_ffff * 0xffff_ffff * 4) by (nonlinear_arith)
        requires
            0 <= source_width <= 0xffff_ffff,
            0 <= width <= 0xffff_ffff,
            0 <= height <= 0xffff_ffff,
    ;
    assert(source_width * height >= 0 && width * height >= 0) by (nonlinear_arith)
        requires
            0 <= source_width,
            0 <= width,
            0 <= height,
    ;
    let limit: u128 = isize::MAX as u128;
    let rows: u128 = height as u128;
    source_width as u128 * rows * 16 <= limit && width as u128 * rows * 4 <= limit
}

/// Resamples an image to the given size with the triangle filter.
///
/// Calls `image::imageops::resize` with `FilterType::Triangle`. Assumed: the
/// result has the size asked for, four bytes a pixel, and depends on the
/// source image and the size alone; and an image resampled to its own size
/// is copied as it is.
#[verifier::external_body]
pub(crate) fn resize_image(img: &PixelBuffer, width: u32, height: u32) -> (r: PixelBuffer)
    requires
        img.wf(),
        can_resize(img.width, width, height),
    ensures
        r.wf(),
        r.width == width,
        r.height == height,
        r.data@ == resized_image(img@, width, height),
        width == img.width && height == img.height ==> r.data@ == img.data@,
{
    let pixels = img.data.as_slice();
    let source = ImageBuffer::<Rgba<u8>, &[u8]>::from_raw(img.width, img.height, pixels);
    let source = source.expect("well-formed image");
    let data = imageops::resize(&source, width, height, FilterType::Triangle).into_raw();
    PixelBuffer { width, height, data }
}

/// The bytes of `bottom` after `top` has been blended onto it with its
/// top-left corner at `(x, y)`.
pub uninterp spec fn overlaid_image(bottom: PixelGrid, top: PixelGrid, x: i64, y: i64) -> Seq<u8>;

/// What is known of the single pixels of `after`, which is `before` with
/// `top` blended onto it at `(x, y)`: a pixel that `top` does not lie over,
/// or lies over with alpha 0, is as before; one that `top` lies over with
/// alpha 255 is the pixel of `top`. Of the alphas between, nothing is said
/// here.
pub open spec fn blended_onto(
    after: PixelGrid,
    before: PixelGrid,
    top: PixelGrid,
    x: int,
    y: int,
) -> bool {
    forall|i: int, j: int, c: int|
        #![trigger after.channel(i, j, c)]
        before.contains(i, j) && 0 <= c < 4 ==> if !top.covers(x, y, i, j) || top.channel(
            i - x,
            j - y,
            3,
        ) == 0 {
            after.channel(i, j, c) == before.channel(i, j, c)
        } else {
            top.channel(i - x, j - y, 3) == 255 ==> after.channel(i, j, c) == top.channel(
                i - x,
                j - y,
                c,
            )
        }
}

/// Blends `top` onto `bottom` by alpha, with its top-left corner at `(x, y)`;
/// what falls outside `bottom` is left out.
///
/// Calls `image::imageops::overlay`. Assumed: `bottom` keeps its size, and
/// its new bytes depend on the two images and the position alone. Assumed of
/// single pixels, as [`blended_onto`] says: `overlay` touches only the pixels
/// that `top` lies over, and blends each with `Pixel::blend`, which leaves
/// the pixel for alpha 0 and replaces it for alpha 255.
#[verifier::external_body]
pub(crate) fn overlay_image(bottom: &mut PixelBuffer, top: &PixelBuffer, x: i64, y: i64)
    requires
        old(bottom).wf(),
        top.wf(),
    ensures
        final(bottom).wf(),
        final(bottom).width == old(bottom).width,
        final(bottom).height == old(bottom).height,
        final(bottom).data@ == overlaid_image(old(bottom)@, top@, x, y),
        blended_onto(final(bottom)@, old(bottom)@, top@, x as int, y as int),
{
    let (width, height) = (bottom.width, bottom.height);
    let canvas = ImageBuffer::<Rgba<u8>, &mut [u8]>::from_raw(width, height, &mut bottom.data[..]);
    let pixels = top.data.as_slice();
    let layer = ImageBuffer::<Rgba<u8>, &[u8]>::from_raw(top.width, top.height, pixels);
    imageops::overlay(
        &mut canvas.expect("well-formed image"),
        &layer.expect("well-formed image"),
        x,
        y,
    );
}

} // verus!
