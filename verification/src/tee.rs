//! The Tee character: cutting its parts from a sheet, recoloring them and
//! drawing them onto a canvas.

pub mod builder;
pub mod codec;
pub mod compose;
pub mod hsl;
pub mod parts;
pub mod pixels;
pub mod skin;
pub mod uv;

use vstd::prelude::*;

use image::ImageFormat;

use crate::error::{Result, TeeError};
use crate::tee::codec::{decode_image, decoded_image};
use crate::tee::hsl::{img_hsl_transform, recolored, recolored_times, ChannelTables};
use crate::tee::parts::{EyeType, EyeTypeData, TeePart, WithShadow};
use crate::tee::pixels::{PixelBuffer, PixelGrid};
use crate::tee::uv::{tee_uv_layout, Part, UV};

verus! {

/// A parsed Tee: its parts, each apart from its shadow, and its six eyes.
#[derive(Debug, Clone, PartialEq)]
pub struct Tee {
    /// The body and its shadow
    pub body: WithShadow,
    /// The feet and their shadow
    pub feet: WithShadow,
    /// [Normal, Angry, Pain, Happy, Empty, Surprise]
    pub eye: [EyeTypeData; 6],
    /// The hand and its shadow
    pub hand: WithShadow,
    /// The layout by which the parts were cut from the sheet
    pub used_uv: UV,
}

impl Tee {
    /// Each place of the eye array holds the expression that belongs there.
    pub open spec fn eyes_in_order(&self) -> bool {
        forall|i: int| 0 <= i < 6 ==> (#[trigger] self.eye@[i]).eye_type().ordinal() == i
    }

    /// Every image holds the bytes that its size asks for, and the eyes are
    /// in order.
    pub open spec fn wf(&self) -> bool {
        &&& self.body.wf()
        &&& self.feet.wf()
        &&& self.hand.wf()
        &&& self.eyes_in_order()
        &&& forall|i: int| 0 <= i < 6 ==> (#[trigger] self.eye@[i]).image().wf()
    }

    /// Every part is the region of `sheet` that `uv` gives for it, and `uv`
    /// is kept.
    pub open spec fn is_cut_from(&self, sheet: PixelGrid, uv: UV) -> bool {
        &&& self.used_uv == uv
        &&& self.body.is_cut_from(sheet, uv.body, uv.body_shadow)
        &&& self.feet.is_cut_from(sheet, uv.feet, uv.feet_shadow)
        &&& self.hand.is_cut_from(sheet, uv.hand, uv.hand_shadow)
        &&& forall|i: int|
            0 <= i < 6 ==> (#[trigger] self.eye@[i]).image()@.is_region_of(sheet, uv.eyes@[i])
    }
}

/// The error for a region that reaches beyond an image of the given size.
pub open spec fn out_of_bounds(part: Part, width: u32, height: u32) -> TeeError {
    TeeError::OutOfBounds { part, width, height }
}

/// Why a sheet of the given size cannot be cut by `uv`, if it cannot: its
/// size is not the one that `uv` is made for, or else a region of `uv`
/// reaches beyond it.
pub open spec fn parse_failure(width: u32, height: u32, uv: UV) -> Option<TeeError> {
    if (width, height) != uv.container {
        Some(TeeError::InvalidDimensions { expected: uv.container, found: (width, height) })
    } else {
        match uv.first_misfit(width as int, height as int) {
            Some(part) => Some(out_of_bounds(part, width, height)),
            None => None,
        }
    }
}

/// What cutting a sheet by `uv` returns: a Tee whose every part is the
/// region that `uv` gives for it, or the reason why the sheet cannot be cut.
pub open spec fn cut_outcome(r: Result<Tee>, sheet: PixelGrid, uv: UV) -> bool {
    &&& r.is_ok() <==> parse_failure(sheet.width, sheet.height, uv).is_none()
    &&& r matches Ok(tee) ==> tee.wf() && tee.is_cut_from(sheet, uv)
    &&& r matches Err(e) ==> parse_failure(sheet.width, sheet.height, uv) == Some(e)
}

/// What parsing encoded bytes returns: the decoder's error where they do not
/// decode, and else the outcome of cutting the decoded sheet.
pub open spec fn parse_outcome(r: Result<Tee>, data: Seq<u8>, uv: UV, format: ImageFormat) -> bool {
    match decoded_image(data, format) {
        None => r matches Err(TeeError::Image(_)),
        Some((width, height, bytes)) => cut_outcome(
            r,
            PixelGrid { width, height, data: bytes },
            uv,
        ),
    }
}

/// A sheet that is not of the size that the layout is made for is refused
/// for its size, whether or not the regions of the layout would lie within
/// it.
pub proof fn lemma_wrong_size_is_reported(r: Result<Tee>, sheet: PixelGrid, uv: UV)
    requires
        cut_outcome(r, sheet, uv),
        (sheet.width, sheet.height) != uv.container,
    ensures
        r == Err::<Tee, TeeError>(
            TeeError::InvalidDimensions {
                expected: uv.container,
                found: (sheet.width, sheet.height),
            },
        ),
{
}

/// Encoded bytes that decode to a sheet of another size than the layout is
/// made for are refused for that size.
pub proof fn lemma_wrong_size_of_decoded_sheet_is_reported(
    r: Result<Tee>,
    data: Seq<u8>,
    uv: UV,
    format: ImageFormat,
)
    requires
        parse_outcome(r, data, uv, format),
        decoded_image(data, format) matches Some((width, height, _)) && (width, height)
            != uv.container,
    ensures
        decoded_image(data, format) matches Some((width, height, _)) && r == Err::<Tee, TeeError>(
            TeeError::InvalidDimensions { expected: uv.container, found: (width, height) },
        ),
{
}

/// In a Tee cut from a sheet, the eye kept for an expression is tagged with
/// that expression and is the region that the layout gives at the
/// expression's place in the order Normal, Angry, Pain, Happy, Empty,
/// Surprise.
pub proof fn lemma_eye_is_its_region(tee: Tee, sheet: PixelGrid, uv: UV, eye_type: EyeType)
    requires
        tee.eyes_in_order(),
        tee.is_cut_from(sheet, uv),
    ensures
        tee.eye@[eye_type.ordinal()].eye_type() == eye_type,
        tee.eye@[eye_type.ordinal()].image()@.is_region_of(sheet, uv.eyes@[eye_type.ordinal()]),
{
    crate::tee::parts::lemma_ordinal_is_a_bijection(
        eye_type,
        tee.eye@[eye_type.ordinal()].eye_type(),
    );
}

/// Checks that an image has exactly the size that a layout is made for.
pub fn validate_image_dimensions(actual: (u32, u32), expected: (u32, u32)) -> (r: Result<()>)
    ensures
        actual == expected ==> r == Ok::<(), TeeError>(()),
        actual != expected ==> r == Err::<(), TeeError>(
            TeeError::InvalidDimensions { expected, found: actual },
        ),
{
    if actual.0 != expected.0 || actual.1 != expected.1 {
        return Err(TeeError::InvalidDimensions { expected, found: actual });
    }
    Ok(())
}

/// Cuts the rectangle `part` out of `img` into an image of its own, or says
/// that it reaches beyond the image.
pub fn extract_part(img: &PixelBuffer, part: Part) -> (r: Result<PixelBuffer>)
    requires
        img.wf(),
    ensures
        r.is_ok() <==> part.fits(img.width as int, img.height as int),
        r matches Ok(out) ==> out@ == img@.region(part, false) && out@.is_region_of(img@, part),
        r matches Err(e) ==> e == out_of_bounds(part, img.width, img.height),
{
    if !part.fits_in(img.width, img.height) {
        return Err(TeeError::OutOfBounds { part, width: img.width, height: img.height });
    }
    Ok(img.crop(part))
}

/// Cuts a part and its shadow out of `img`. The error is that of the part if
/// it does not fit, else that of the shadow.
pub fn extract_with_shadow(img: &PixelBuffer, part: Part, shadow_part: Part) -> (r: Result<
    WithShadow,
>)
    requires
        img.wf(),
    ensures
        r.is_ok() <==> part.fits(img.width as int, img.height as int) && shadow_part.fits(
            img.width as int,
            img.height as int,
        ),
        r matches Ok(pair) ==> pair.is_cut_from(img@, part, shadow_part),
        r matches Err(e) ==> e == out_of_bounds(
            if part.fits(img.width as int, img.height as int) {
                shadow_part
            } else {
                part
            },
            img.width,
            img.height,
        ),
{
    let value = extract_part(img, part)?;
    let shadow = extract_part(img, shadow_part)?;
    Ok(WithShadow { value, shadow })
}

/// Cuts the six eyes out of `img`, in the order Normal, Angry, Pain, Happy,
/// Empty, Surprise. The error is that of the first region that does not fit.
pub fn extract_all_eyes(img: &PixelBuffer, eye_parts: &[Part; 6]) -> (r: Result<[EyeTypeData; 6]>)
    requires
        img.wf(),
    ensures
        r.is_ok() <==> crate::tee::uv::first_eye_misfit(
            eye_parts@,
            img.width as int,
            img.height as int,
        ).is_none(),
        r matches Ok(eyes) ==> forall|i: int|
            0 <= i < 6 ==> (#[trigger] eyes@[i]).eye_type().ordinal() == i
                && eyes@[i].image()@.is_region_of(img@, eye_parts@[i]),
        r matches Err(e) ==> crate::tee::uv::first_eye_misfit(
            eye_parts@,
            img.width as int,
            img.height as int,
        ) matches Some(part) && e == out_of_bounds(part, img.width, img.height),
{
    let normal = extract_part(img, eye_parts[0])?;
    let angry = extract_part(img, eye_parts[1])?;
    let pain = extract_part(img, eye_parts[2])?;
    let happy = extract_part(img, eye_parts[3])?;
    let empty = extract_part(img, eye_parts[4])?;
    let surprise = extract_part(img, eye_parts[5])?;
    Ok(
        [
            EyeTypeData::Normal(normal),
            EyeTypeData::Angry(angry),
            EyeTypeData::Pain(pain),
            EyeTypeData::Happy(happy),
            EyeTypeData::Empty(empty),
            EyeTypeData::Surprise(surprise),
        ],
    )
}

impl Tee {
    /// Cuts a Tee out of a decoded sheet. The sheet must have exactly the
    /// size that `uv` is made for, and every region of `uv` must lie within
    /// it; the first of these that fails is the error.
    pub fn from_pixels(img: &PixelBuffer, uv: UV) -> (r: Result<Tee>)
        requires
            img.wf(),
        ensures
            cut_outcome(r, img@, uv),
    {
        validate_image_dimensions((img.width, img.height), uv.container)?;
        let body = extract_with_shadow(img, uv.body, uv.body_shadow)?;
        let feet = extract_with_shadow(img, uv.feet, uv.feet_shadow)?;
        let hand = extract_with_shadow(img, uv.hand, uv.hand_shadow)?;
        let eye = extract_all_eyes(img, &uv.eyes)?;
        Ok(Tee { body, feet, eye, hand, used_uv: uv })
    }

    /// Decodes a sheet in the given format and cuts a Tee out of it by `uv`.
    ///
    /// Fails with the decoder's error where the bytes do not decode, and
    /// else as [`Tee::from_pixels`] does on the decoded sheet.
    pub fn new_with_uv(data: &[u8], uv: UV, format: ImageFormat) -> (r: Result<Tee>)
        ensures
            parse_outcome(r, data@, uv, format),
    {
        match decode_image(data, format) {
            Ok(img) => Tee::from_pixels(&img, uv),
            Err(e) => Err(TeeError::Image(e)),
        }
    }

    /// Decodes a sheet in the given format and cuts a Tee out of it by the
    /// standard layout.
    pub fn new(data: &[u8], format: ImageFormat) -> (r: Result<Tee>)
        ensures
            parse_outcome(r, data@, tee_uv_layout(), format),
    {
        Tee::new_with_uv(data, tee_uv_layout(), format)
    }

    /// Computes [`Tee::wf`].
    pub fn is_well_formed(&self) -> (r: bool)
        ensures
            r == self.wf(),
    {
        if !(self.body.is_well_formed() && self.feet.is_well_formed()
            && self.hand.is_well_formed()) {
            return false;
        }
        let mut i: usize = 0;
        while i < 6
            invariant
                i <= 6,
                forall|k: int|
                    0 <= k < i ==> (#[trigger] self.eye@[k]).eye_type().ordinal() == k
                        && self.eye@[k].image().wf(),
            decreases 6 - i,
        {
            let eye = &self.eye[i];
            if eye.tag().index() != i || !eye.image_ref().is_well_formed() {
                return false;
            }
            i = i + 1;
        }
        true
    }

    /// The image of an eye expression.
    pub fn get_eye(&self, eye_type: EyeType) -> (r: &PixelBuffer)
        requires
            self.eyes_in_order(),
        ensures
            *r == self.eye@[eye_type.ordinal()].image(),
            self.eye@[eye_type.ordinal()].eye_type() == eye_type,
    {
        proof {
            crate::tee::parts::lemma_ordinal_is_a_bijection(
                eye_type,
                self.eye@[eye_type.ordinal()].eye_type(),
            );
        }
        let index: usize = eye_type.index();
        self.eye[index].image_ref()
    }

    /// The body, the feet and the hand, each under its name and with its
    /// shadow. The eyes are not among them.
    pub fn get_all_parts(&self) -> (r: Vec<(TeePart, &WithShadow)>)
        ensures
            r@.len() == 3,
            r@[0].0 == TeePart::Body && *r@[0].1 == self.body,
            r@[1].0 == TeePart::Feet && *r@[1].1 == self.feet,
            r@[2].0 == TeePart::Hand && *r@[2].1 == self.hand,
    {
        let mut parts: Vec<(TeePart, &WithShadow)> = Vec::new();
        parts.push((TeePart::Body, &self.body));
        parts.push((TeePart::Feet, &self.feet));
        parts.push((TeePart::Hand, &self.hand));
        parts
    }

    /// The six eye images, each under its expression, in the order Normal,
    /// Angry, Pain, Happy, Empty, Surprise.
    pub fn get_all_eyes(&self) -> (r: Vec<(EyeType, &PixelBuffer)>)
        requires
            self.eyes_in_order(),
        ensures
            r@.len() == 6,
            forall|i: int|
                0 <= i < 6 ==> (#[trigger] r@[i]).0 == EyeType::of_ordinal(i) && *r@[i].1
                    == self.eye@[i].image(),
    {
        let mut eyes: Vec<(EyeType, &PixelBuffer)> = Vec::new();
        eyes.push((EyeType::Normal, self.get_eye(EyeType::Normal)));
        eyes.push((EyeType::Angry, self.get_eye(EyeType::Angry)));
        eyes.push((EyeType::Pain, self.get_eye(EyeType::Pain)));
        eyes.push((EyeType::Happy, self.get_eye(EyeType::Happy)));
        eyes.push((EyeType::Empty, self.get_eye(EyeType::Empty)));
        eyes.push((EyeType::Surprise, self.get_eye(EyeType::Surprise)));
        eyes
    }
}

/// How often `part` is named in `parts`.
pub open spec fn occurrences(parts: Seq<TeePart>, part: TeePart) -> nat
    decreases parts.len(),
{
    if parts.len() == 0 {
        0
    } else {
        occurrences(parts.drop_last(), part) + if parts.last() == part {
            1nat
        } else {
            0nat
        }
    }
}

impl Tee {
    /// The image that a part name stands for.
    pub open spec fn part_image(&self, part: TeePart) -> PixelGrid {
        match part {
            TeePart::Body => self.body.value@,
            TeePart::BodyShadow => self.body.shadow@,
            TeePart::Feet => self.feet.value@,
            TeePart::FeetShadow => self.feet.shadow@,
            TeePart::Hand => self.hand.value@,
            TeePart::HandShadow => self.hand.shadow@,
        }
    }

    /// The image of `part` is that of `before`, recolored `times` times.
    pub open spec fn recolors(
        &self,
        before: &Tee,
        tables: ChannelTables,
        part: TeePart,
        times: nat,
    ) -> bool {
        self.part_image(part) == recolored_times(before.part_image(part), tables, times)
    }

    /// Recolors the named parts in place, each once for every time it is
    /// named. The other parts, the eyes and the layout stay as they are.
    pub fn apply_hsl_to_parts(&mut self, tables: &ChannelTables, parts: &[TeePart])
        requires
            old(self).wf(),
        ensures
            final(self).wf(),
            final(self).eye == old(self).eye,
            final(self).used_uv == old(self).used_uv,
            final(self).recolors(
                old(self),
                *tables,
                TeePart::Body,
                occurrences(parts@, TeePart::Body),
            ),
            final(self).recolors(
                old(self),
                *tables,
                TeePart::BodyShadow,
                occurrences(parts@, TeePart::BodyShadow),
            ),
            final(self).recolors(
                old(self),
                *tables,
                TeePart::Feet,
                occurrences(parts@, TeePart::Feet),
            ),
            final(self).recolors(
                old(self),
                *tables,
                TeePart::FeetShadow,
                occurrences(parts@, TeePart::FeetShadow),
            ),
            final(self).recolors(
                old(self),
                *tables,
                TeePart::Hand,
                occurrences(parts@, TeePart::Hand),
            ),
            final(self).recolors(
                old(self),
                *tables,
                TeePart::HandShadow,
                occurrences(parts@, TeePart::HandShadow),
            ),
    {
        let n: usize = parts.len();
        let mut i: usize = 0;
        while i < n
            invariant
                n == parts@.len(),
                i <= n,
                self.wf(),
                self.eye == old(self).eye,
                self.used_uv == old(self).used_uv,
                forall|part: TeePart| #[trigger]
                    self.part_image(part) == recolored_times(
                        old(self).part_image(part),
                        *tables,
                        occurrences(parts@.take(i as int), part),
                    ),
            decreases n - i,
        {
            let ghost before = *self;
            match parts[i] {
                TeePart::Body => {
                    img_hsl_transform(&mut self.body.value, tables);
                },
                TeePart::BodyShadow => {
                    img_hsl_transform(&mut self.body.shadow, tables);
                },
                TeePart::Feet => {
                    img_hsl_transform(&mut self.feet.value, tables);
                },
                TeePart::FeetShadow => {
                    img_hsl_transform(&mut self.feet.shadow, tables);
                },
                TeePart::Hand => {
                    img_hsl_transform(&mut self.hand.value, tables);
                },
                TeePart::HandShadow => {
                    img_hsl_transform(&mut self.hand.shadow, tables);
                },
            }
            proof {
                let done = parts@.take(i + 1);
                assert(done.drop_last() =~= parts@.take(i as int));
                assert(done.last() == parts@[i as int]);
                assert forall|part: TeePart| #[trigger]
                    self.part_image(part) == recolored_times(
                        old(self).part_image(part),
                        *tables,
                        occurrences(done, part),
                    ) by {
                    let earlier = occurrences(parts@.take(i as int), part);
                    assert(before.part_image(part) == recolored_times(
                        old(self).part_image(part),
                        *tables,
                        earlier,
                    ));
                    if part == parts@[i as int] {
                        assert(occurrences(done, part) == earlier + 1);
                        assert(self.part_image(part) == recolored(before.part_image(part), *tables));
                    } else {
                        assert(occurrences(done, part) == earlier);
                        assert(self.part_image(part) == before.part_image(part));
                    }
                }
            }
            i = i + 1;
        }
        assert(parts@.take(n as int) =~= parts@);
        assert(self.part_image(TeePart::Body) == self.body.value@);
        assert(self.part_image(TeePart::BodyShadow) == self.body.shadow@);
        assert(self.part_image(TeePart::Feet) == self.feet.value@);
        assert(self.part_image(TeePart::FeetShadow) == self.feet.shadow@);
        assert(self.part_image(TeePart::Hand) == self.hand.value@);
        assert(self.part_image(TeePart::HandShadow) == self.hand.shadow@);
    }

    /// Recolors all six parts in place, each once. The eyes and the layout
    /// stay as they are.
    pub fn apply_hsl_to_all(&mut self, tables: &ChannelTables)
        requires
            old(self).wf(),
        ensures
            final(self).wf(),
            final(self).eye == old(self).eye,
            final(self).used_uv == old(self).used_uv,
            final(self).recolors(old(self), *tables, TeePart::Body, 1),
            final(self).recolors(old(self), *tables, TeePart::BodyShadow, 1),
            final(self).recolors(old(self), *tables, TeePart::Feet, 1),
            final(self).recolors(old(self), *tables, TeePart::FeetShadow, 1),
            final(self).recolors(old(self), *tables, TeePart::Hand, 1),
            final(self).recolors(old(self), *tables, TeePart::HandShadow, 1),
    {
        let all: [TeePart; 6] = [
            TeePart::Body,
            TeePart::BodyShadow,
            TeePart::Feet,
            TeePart::FeetShadow,
            TeePart::Hand,
            TeePart::HandShadow,
        ];
        proof {
            lemma_each_part_once(all@);
        }
        self.apply_hsl_to_parts(tables, all.as_slice());
    }
}

/// In the list of the six parts, each part is named once.
proof fn lemma_each_part_once(all: Seq<TeePart>)
    requires
        all.len() == 6,
        all[0] == TeePart::Body,
        all[1] == TeePart::BodyShadow,
        all[2] == TeePart::Feet,
        all[3] == TeePart::FeetShadow,
        all[4] == TeePart::Hand,
        all[5] == TeePart::HandShadow,
    ensures
        forall|part: TeePart| #[trigger] occurrences(all, part) == 1,
{
    let s5 = all.drop_last();
    let s4 = s5.drop_last();
    let s3 = s4.drop_last();
    let s2 = s3.drop_last();
    let s1 = s2.drop_last();
    let s0 = s1.drop_last();
    assert forall|part: TeePart| #[trigger] occurrences(all, part) == 1 by {
        assert(occurrences(s0, part) == 0);
        assert(occurrences(s1, part) == occurrences(s0, part) + if s1.last() == part {
            1nat
        } else {
            0nat
        });
        assert(occurrences(s2, part) == occurrences(s1, part) + if s2.last() == part {
            1nat
        } else {
            0nat
        });
        assert(occurrences(s3, part) == occurrences(s2, part) + if s3.last() == part {
            1nat
        } else {
            0nat
        });
        assert(occurrences(s4, part) == occurrences(s3, part) + if s4.last() == part {
            1nat
        } else {
            0nat
        });
        assert(occurrences(s5, part) == occurrences(s4, part) + if s5.last() == part {
            1nat
        } else {
            0nat
        });
    }
}

} // verus!
