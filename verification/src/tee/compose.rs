//! Composing a portrait: the layers of a Tee, resampled and blended onto a
//! canvas in a fixed order.

use vstd::prelude::*;

use image::ImageFormat;

use crate::error::{Result, TeeError};
use crate::tee::codec::{
    blended_onto, can_resize, encode_image, encoded_image, overlaid_image, overlay_image,
    resize_fits, resize_image, resized_image,
};
use crate::tee::parts::{EyeType, TeePart};
use crate::tee::pixels::{PixelBuffer, PixelGrid};
use crate::tee::skin::{Postion, Size, SizedSkin, Skin};
use crate::tee::Tee;

verus! {

/// The eyes to draw and the format to encode in, where a caller wants to
/// choose them.
#[derive(Debug, Clone)]
pub struct ComposeOptions {
    pub eye_type: Option<EyeType>,
    pub format: Option<ImageFormat>,
}

impl Default for ComposeOptions {
    /// Happy eyes, encoded as PNG.
    fn default() -> (r: Self)
        ensures
            r.eye_type == Some(EyeType::Happy),
            r.format == Some(ImageFormat::Png),
    {
        Self { eye_type: Some(EyeType::Happy), format: Some(ImageFormat::Png) }
    }
}

/// One image to draw: where its top-left corner goes on the canvas and the
/// size to which it is resampled first.
pub struct Layer {
    pub image: PixelGrid,
    pub position: Postion,
    pub size: Size,
}

impl Layer {
    /// Resampling the layer to its size can allocate its buffers.
    pub open spec fn fits(self) -> bool {
        can_resize(self.image.width, self.size.0, self.size.1)
    }

    /// The layer, once resampled, lies over the canvas pixel at `(x, y)`.
    pub open spec fn covers(self, x: int, y: int) -> bool {
        self.position.0 <= x < self.position.0 + self.size.0 && self.position.1 <= y
            < self.position.1 + self.size.1
    }
}

/// The canvas after a layer has been resampled to its size and blended onto
/// it at its position.
pub open spec fn draw(canvas: PixelGrid, layer: Layer) -> PixelGrid {
    PixelGrid {
        width: canvas.width,
        height: canvas.height,
        data: overlaid_image(
            canvas,
            PixelGrid {
                width: layer.size.0,
                height: layer.size.1,
                data: resized_image(layer.image, layer.size.0, layer.size.1),
            },
            layer.position.0,
            layer.position.1,
        ),
    }
}

/// The canvas after eight layers have been drawn onto it, the first of them
/// first.
pub open spec fn draw_layers(canvas: PixelGrid, layers: Seq<Layer>) -> PixelGrid {
    draw(
        draw(
            draw(
                draw(
                    draw(draw(draw(draw(canvas, layers[0]), layers[1]), layers[2]), layers[3]),
                    layers[4],
                ),
                layers[5],
            ),
            layers[6],
        ),
        layers[7],
    )
}

/// Resamples `layer` to `size` and blends it onto `canvas` with its top-left
/// corner at `position`.
pub fn draw_layer(canvas: &mut PixelBuffer, layer: &PixelBuffer, position: Postion, size: Size)
    requires
        old(canvas).wf(),
        layer.wf(),
        can_resize(layer.width, size.0, size.1),
    ensures
        final(canvas).wf(),
        final(canvas)@ == draw(old(canvas)@, Layer { image: layer@, position, size }),
        forall|x: int, y: int, c: int|
            #![trigger final(canvas)@.channel(x, y, c)]
            old(canvas)@.contains(x, y) && 0 <= c < 4 && !(Layer {
                image: layer@,
                position,
                size,
            }).covers(x, y) ==> final(canvas)@.channel(x, y, c) == old(canvas)@.channel(x, y, c),
        size == (layer.width, layer.height) ==> blended_onto(
            final(canvas)@,
            old(canvas)@,
            layer@,
            position.0 as int,
            position.1 as int,
        ),
{
    let scaled = resize_image(layer, size.0, size.1);
    overlay_image(canvas, &scaled, position.0, position.1);
    proof {
        if size == (layer.width, layer.height) {
            assert(scaled@ == layer@);
        }
    }
}

impl Tee {
    /// The image kept for an eye expression.
    pub open spec fn eye_image(&self, eye_type: EyeType) -> PixelGrid {
        self.eye@[eye_type.ordinal()].image()@
    }

    /// The layers of a portrait in the order in which they are drawn, so
    /// that a later one covers an earlier one: the body's shadow; the shadow
    /// of the back foot, then of the front foot; the back foot; the body; the
    /// eye, then its mirror image; the front foot.
    pub open spec fn layers(&self, skin: SizedSkin, eye_type: EyeType) -> Seq<Layer> {
        seq![
            Layer {
                image: self.body.shadow@,
                position: skin.body.position,
                size: skin.body.shadow_size,
            },
            Layer {
                image: self.feet.shadow@,
                position: skin.feet_back.position,
                size: skin.feet_back.shadow_size,
            },
            Layer {
                image: self.feet.shadow@,
                position: skin.feet.position,
                size: skin.feet.shadow_size,
            },
            Layer {
                image: self.feet.value@,
                position: skin.feet_back.position,
                size: skin.feet_back.size,
            },
            Layer { image: self.body.value@, position: skin.body.position, size: skin.body.size },
            Layer {
                image: self.eye_image(eye_type),
                position: skin.first_eyes.position,
                size: skin.first_eyes.size,
            },
            Layer {
                image: self.eye_image(eye_type).mirror(),
                position: skin.second_eyes.position,
                size: skin.second_eyes.size,
            },
            Layer { image: self.feet.value@, position: skin.feet.position, size: skin.feet.size },
        ]
    }

    /// The portrait: the layers drawn in their order onto a fully
    /// transparent canvas of the skin's size.
    pub open spec fn composed(&self, skin: SizedSkin, eye_type: EyeType) -> PixelGrid {
        draw_layers(
            PixelGrid::blank(skin.container.0, skin.container.1),
            self.layers(skin, eye_type),
        )
    }

    /// Some layer of the portrait lies over the canvas pixel at `(x, y)`.
    pub open spec fn reaches(&self, skin: SizedSkin, eye_type: EyeType, x: int, y: int) -> bool {
        let layers = self.layers(skin, eye_type);
        ||| layers[0].covers(x, y)
        ||| layers[1].covers(x, y)
        ||| layers[2].covers(x, y)
        ||| layers[3].covers(x, y)
        ||| layers[4].covers(x, y)
        ||| layers[5].covers(x, y)
        ||| layers[6].covers(x, y)
        ||| layers[7].covers(x, y)
    }

    /// Every layer of the portrait can be resampled to its size.
    pub open spec fn layers_fit(&self, skin: SizedSkin, eye_type: EyeType) -> bool {
        let layers = self.layers(skin, eye_type);
        &&& layers[0].fits()
        &&& layers[1].fits()
        &&& layers[2].fits()
        &&& layers[3].fits()
        &&& layers[4].fits()
        &&& layers[5].fits()
        &&& layers[6].fits()
        &&& layers[7].fits()
    }

    /// The canvas and every resampled layer fit into memory.
    pub open spec fn can_compose(&self, skin: SizedSkin, eye_type: EyeType) -> bool {
        skin.container.0 * skin.container.1 * 4 <= usize::MAX && self.layers_fit(skin, eye_type)
    }

    /// Computes [`Tee::can_compose`].
    pub fn can_compose_with(&self, skin: &SizedSkin, eye_type: EyeType) -> (r: bool)
        requires
            self.wf(),
        ensures
            r == self.can_compose(*skin, eye_type),
    {
        assert(skin.container.0 * skin.container.1 * 4 <= 0xffff_ffff * 0xffff_ffff * 4
            && skin.container.0 * skin.container.1 >= 0) by (nonlinear_arith)
            requires
                0 <= skin.container.0 <= 0xffff_ffff,
                0 <= skin.container.1 <= 0xffff_ffff,
        ;
        let bytes: u128 = skin.container.0 as u128 * skin.container.1 as u128 * 4;
        let eye_width: u32 = self.get_eye(eye_type).width;
        bytes <= usize::MAX as u128 && resize_fits(
            self.body.shadow.width,
            skin.body.shadow_size.0,
            skin.body.shadow_size.1,
        ) && resize_fits(
            self.feet.shadow.width,
            skin.feet_back.shadow_size.0,
            skin.feet_back.shadow_size.1,
        ) && resize_fits(self.feet.shadow.width, skin.feet.shadow_size.0, skin.feet.shadow_size.1)
            && resize_fits(self.feet.value.width, skin.feet_back.size.0, skin.feet_back.size.1)
            && resize_fits(self.body.value.width, skin.body.size.0, skin.body.size.1)
            && resize_fits(eye_width, skin.first_eyes.size.0, skin.first_eyes.size.1)
            && resize_fits(eye_width, skin.second_eyes.size.0, skin.second_eyes.size.1)
            && resize_fits(self.feet.value.width, skin.feet.size.0, skin.feet.size.1)
    }

    /// Draws the layers of the portrait onto `canvas`, in their order.
    fn compose_layers(&self, canvas: &mut PixelBuffer, skin: &SizedSkin, eye_type: EyeType)
        requires
            self.wf(),
            old(canvas).wf(),
            self.layers_fit(*skin, eye_type),
        ensures
            final(canvas).wf(),
            final(canvas)@ == draw_layers(old(canvas)@, self.layers(*skin, eye_type)),
            forall|x: int, y: int, c: int|
                #![trigger final(canvas)@.channel(x, y, c)]
                old(canvas)@.contains(x, y) && 0 <= c < 4 && !self.reaches(*skin, eye_type, x, y)
                    ==> final(canvas)@.channel(x, y, c) == old(canvas)@.channel(x, y, c),
    {
        draw_layer(canvas, &self.body.shadow, skin.body.position, skin.body.shadow_size);
        draw_layer(canvas, &self.feet.shadow, skin.feet_back.position, skin.feet_back.shadow_size);
        draw_layer(canvas, &self.feet.shadow, skin.feet.position, skin.feet.shadow_size);
        draw_layer(canvas, &self.feet.value, skin.feet_back.position, skin.feet_back.size);
        draw_layer(canvas, &self.body.value, skin.body.position, skin.body.size);
        let eye = self.get_eye(eye_type);
        draw_layer(canvas, eye, skin.first_eyes.position, skin.first_eyes.size);
        let mirrored = eye.flip_horizontal();
        draw_layer(canvas, &mirrored, skin.second_eyes.position, skin.second_eyes.size);
        draw_layer(canvas, &self.feet.value, skin.feet.position, skin.feet.size);
    }

    /// Draws the portrait of this Tee with the given eyes: every layer
    /// resampled to the size that the skin gives it and blended, in the fixed
    /// order, onto a transparent canvas of the skin's size.
    pub fn compose_canvas(&self, skin: SizedSkin, eye_type: EyeType) -> (r: PixelBuffer)
        requires
            self.wf(),
            self.can_compose(skin, eye_type),
        ensures
            r.wf(),
            r@ == self.composed(skin, eye_type),
            forall|x: int, y: int, c: int|
                #![trigger r@.channel(x, y, c)]
                r@.contains(x, y) && 0 <= c < 4 && !self.reaches(skin, eye_type, x, y)
                    ==> r@.channel(x, y, c) == 0,
    {
        let mut canvas = PixelBuffer::new(skin.container.0, skin.container.1);
        proof {
            assert forall|x: int, y: int, c: int|
                canvas@.contains(x, y) && 0 <= c < 4 implies #[trigger] canvas@.channel(x, y, c)
                == 0 by {
                crate::tee::pixels::lemma_byte_index_in_range(
                    canvas.width as int,
                    canvas.height as int,
                    x,
                    y,
                    c,
                );
            }
        }
        self.compose_layers(&mut canvas, &skin, eye_type);
        canvas
    }

    /// Draws the portrait on a skin whose sizes are worked out, and encodes
    /// it in the given format. The only failure is that of the encoder.
    pub fn compose_sized(
        &self,
        skin: SizedSkin,
        eye_type: EyeType,
        img_format: ImageFormat,
    ) -> (r: Result<Vec<u8>>)
        requires
            self.wf(),
            self.can_compose(skin, eye_type),
        ensures
            encode_outcome(r, self.composed(skin, eye_type), img_format),
    {
        let canvas = self.compose_canvas(skin, eye_type);
        match encode_image(&canvas, img_format) {
            Ok(bytes) => Ok(bytes),
            Err(e) => Err(TeeError::Image(e)),
        }
    }

    /// Draws the portrait and encodes it in the given format: every layer
    /// at the size of its region on the sheet times the scale factor of its
    /// slot. The only failure is that of the encoder.
    pub fn compose(&self, skin: Skin, eye_type: EyeType, img_format: ImageFormat) -> (r: Result<
        Vec<u8>,
    >)
        requires
            self.wf(),
            skin.wf(),
            self.can_compose(skin.sized_for(&self.used_uv), eye_type),
        ensures
            encode_outcome(
                r,
                self.composed(skin.sized_for(&self.used_uv), eye_type),
                img_format,
            ),
    {
        let sized = skin.sized_for(&self.used_uv);
        self.compose_sized(sized, eye_type, img_format)
    }

    /// Draws the portrait and encodes it as PNG.
    pub fn compose_png(&self, skin: Skin, eye_type: EyeType) -> (r: Result<Vec<u8>>)
        requires
            self.wf(),
            skin.wf(),
            self.can_compose(skin.sized_for(&self.used_uv), eye_type),
        ensures
            encode_outcome(
                r,
                self.composed(skin.sized_for(&self.used_uv), eye_type),
                ImageFormat::Png,
            ),
    {
        self.compose(skin, eye_type, ImageFormat::Png)
    }
}

/// What encoding a canvas returns: the bytes that the encoder gives for it,
/// or the encoder's error.
pub open spec fn encode_outcome(r: Result<Vec<u8>>, canvas: PixelGrid, format: ImageFormat) -> bool {
    match encoded_image(canvas, format) {
        Some(bytes) => r matches Ok(out) && out@ == bytes,
        None => r matches Err(TeeError::Image(_)),
    }
}

/// Two Tees with the same part images and the same image for an eye
/// expression give the same portrait for that expression and a skin, byte
/// for byte.
pub proof fn lemma_compose_is_deterministic(a: Tee, b: Tee, skin: SizedSkin, eye_type: EyeType)
    requires
        forall|part: TeePart| a.part_image(part) == b.part_image(part),
        a.eye_image(eye_type) == b.eye_image(eye_type),
    ensures
        a.layers(skin, eye_type) == b.layers(skin, eye_type),
        a.composed(skin, eye_type) == b.composed(skin, eye_type),
{
    assert(a.part_image(TeePart::Body) == b.part_image(TeePart::Body));
    assert(a.part_image(TeePart::BodyShadow) == b.part_image(TeePart::BodyShadow));
    assert(a.part_image(TeePart::Feet) == b.part_image(TeePart::Feet));
    assert(a.part_image(TeePart::FeetShadow) == b.part_image(TeePart::FeetShadow));
    assert(a.layers(skin, eye_type) =~= b.layers(skin, eye_type));
}

/// Whatever the expression, the image drawn for the second eye is the exact
/// mirror image of the one drawn for the first, which is the eye kept for
/// that expression.
pub proof fn lemma_second_eye_mirrors_first(tee: Tee, skin: SizedSkin, eye_type: EyeType)
    requires
        tee.wf(),
    ensures
        tee.layers(skin, eye_type)[5].image == tee.eye_image(eye_type),
        tee.layers(skin, eye_type)[5].position == skin.first_eyes.position,
        tee.layers(skin, eye_type)[6].position == skin.second_eyes.position,
        tee.layers(skin, eye_type)[6].image == tee.layers(skin, eye_type)[5].image.mirror(),
        tee.layers(skin, eye_type)[6].image.is_mirror_of(tee.layers(skin, eye_type)[5].image),
{
    let eye = tee.eye_image(eye_type);
    crate::tee::parts::lemma_ordinal_is_a_bijection(eye_type, eye_type);
    assert(tee.eye@[eye_type.ordinal()].image().wf());
    crate::tee::pixels::lemma_region_pixels(eye, eye.frame(), true);
}

} // verus!
