//! Where each part goes on the canvas, and how large it is drawn there.

use vstd::prelude::*;

use crate::tee::uv::{ContentSize, Part, UV};

verus! {

pub type Postion = (i64, i64);

pub type Size = (u32, u32);

/// A scale factor as an exact fraction: `num / den`.
#[derive(Debug, Clone, Copy, PartialEq, Eq)]
pub struct Scale {
    pub num: u32,
    pub den: u32,
}

/// Where the top-left corner of a part goes, and the factor by which the
/// part is scaled.
pub type SkinPS = (Postion, Scale);

/// Mappings for output
#[derive(Debug, Clone, Copy, PartialEq, Eq)]
pub struct Skin {
    pub body: SkinPS,
    pub feet: SkinPS,
    pub feet_back: SkinPS,
    pub first_eyes: SkinPS,
    pub second_eyes: SkinPS,
    pub container: ContentSize,
}

/// A length multiplied by a scale factor and cut off to a whole number; one
/// that would not fit in 32 bits is held at the largest that does.
pub open spec fn scaled_length(length: u32, scale: Scale) -> int {
    let product = (length * scale.num) / (scale.den as int);
    if product > u32::MAX {
        u32::MAX as int
    } else {
        product
    }
}

/// The size to which `scale` takes `size`: each side multiplied by the
/// factor and cut off, as [`scaled_length`] says.
pub open spec fn scaled_size(size: Size, scale: Scale) -> Size {
    (scaled_length(size.0, scale) as u32, scaled_length(size.1, scale) as u32)
}

/// Scales a length by a factor, cutting the product off to a whole number.
fn scale_length(length: u32, factor: Scale) -> (r: u32)
    requires
        factor.den > 0,
    ensures
        r == scaled_length(length, factor),
{
    assert(0 <= length * factor.num <= 0xffff_ffff * 0xffff_ffff) by (nonlinear_arith)
        requires
            0 <= length <= 0xffff_ffff,
            0 <= factor.num <= 0xffff_ffff,
    ;
    let product: u64 = (length as u64 * factor.num as u64) / (factor.den as u64);
    if product > u32::MAX as u64 {
        u32::MAX
    } else {
        product as u32
    }
}

/// Scales a size by a factor, cutting each side off to a whole number.
pub fn scale(size: Size, factor: Scale) -> (r: Size)
    requires
        factor.den > 0,
    ensures
        r == scaled_size(size, factor),
{
    (scale_length(size.0, factor), scale_length(size.1, factor))
}

/// The place of a part that has a shadow: where its top-left corner goes,
/// and the sizes at which the part and its shadow are drawn there.
#[derive(Debug, Clone, Copy, PartialEq, Eq)]
pub struct PartSlot {
    pub position: Postion,
    pub size: Size,
    pub shadow_size: Size,
}

/// The place of an eye: where its top-left corner goes, and the size at
/// which it is drawn.
#[derive(Debug, Clone, Copy, PartialEq, Eq)]
pub struct EyeSlot {
    pub position: Postion,
    pub size: Size,
}

/// A skin with its scale factors worked out: every slot holds the sizes at
/// which its layers are drawn.
#[derive(Debug, Clone, Copy, PartialEq, Eq)]
pub struct SizedSkin {
    pub body: PartSlot,
    pub feet: PartSlot,
    pub feet_back: PartSlot,
    pub first_eyes: EyeSlot,
    pub second_eyes: EyeSlot,
    pub container: ContentSize,
}

/// The slot of a part and its shadow, each scaled from the size of its own
/// region on the sheet.
pub open spec fn sized_part_slot(slot: SkinPS, part: Part, shadow: Part) -> PartSlot {
    PartSlot {
        position: slot.0,
        size: scaled_size((part.w, part.h), slot.1),
        shadow_size: scaled_size((shadow.w, shadow.h), slot.1),
    }
}

/// The slot of an eye, scaled from the size of an eye region on the sheet.
pub open spec fn sized_eye_slot(slot: SkinPS, eye: Part) -> EyeSlot {
    EyeSlot { position: slot.0, size: scaled_size((eye.w, eye.h), slot.1) }
}

impl Skin {
    /// No scale factor has the denominator nought.
    pub open spec fn wf(self) -> bool {
        &&& self.body.1.den > 0
        &&& self.feet.1.den > 0
        &&& self.feet_back.1.den > 0
        &&& self.first_eyes.1.den > 0
        &&& self.second_eyes.1.den > 0
    }

    /// Computes [`Skin::wf`].
    pub fn is_well_formed(&self) -> (r: bool)
        ensures
            r == self.wf(),
    {
        self.body.1.den > 0 && self.feet.1.den > 0 && self.feet_back.1.den > 0
            && self.first_eyes.1.den > 0 && self.second_eyes.1.den > 0
    }

    /// This skin for parts cut by `uv`: each layer's size is the size of its
    /// region on the sheet times the scale factor of its slot. Both feet
    /// are the feet region, and every eye has the size of the first eye
    /// region.
    pub open spec fn spec_sized_for(&self, uv: &UV) -> SizedSkin {
        SizedSkin {
            body: sized_part_slot(self.body, uv.body, uv.body_shadow),
            feet: sized_part_slot(self.feet, uv.feet, uv.feet_shadow),
            feet_back: sized_part_slot(self.feet_back, uv.feet, uv.feet_shadow),
            first_eyes: sized_eye_slot(self.first_eyes, uv.eyes@[0]),
            second_eyes: sized_eye_slot(self.second_eyes, uv.eyes@[0]),
            container: self.container,
        }
    }

    /// Works out the sizes at which the parts cut by `uv` are drawn on this
    /// skin.
    #[verifier::when_used_as_spec(spec_sized_for)]
    pub fn sized_for(&self, uv: &UV) -> (r: SizedSkin)
        requires
            self.wf(),
        ensures
            r == self.spec_sized_for(uv),
    {
        SizedSkin {
            body: PartSlot {
                position: self.body.0,
                size: scale((uv.body.w, uv.body.h), self.body.1),
                shadow_size: scale((uv.body_shadow.w, uv.body_shadow.h), self.body.1),
            },
            feet: PartSlot {
                position: self.feet.0,
                size: scale((uv.feet.w, uv.feet.h), self.feet.1),
                shadow_size: scale((uv.feet_shadow.w, uv.feet_shadow.h), self.feet.1),
            },
            feet_back: PartSlot {
                position: self.feet_back.0,
                size: scale((uv.feet.w, uv.feet.h), self.feet_back.1),
                shadow_size: scale((uv.feet_shadow.w, uv.feet_shadow.h), self.feet_back.1),
            },
            first_eyes: EyeSlot {
                position: self.first_eyes.0,
                size: scale((uv.eyes[0].w, uv.eyes[0].h), self.first_eyes.1),
            },
            second_eyes: EyeSlot {
                position: self.second_eyes.0,
                size: scale((uv.eyes[0].w, uv.eyes[0].h), self.second_eyes.1),
            },
            container: self.container,
        }
    }
}

/// Layout for a rasterized skin of 96x64 pixels: the body at 0.66 of its
/// size, the eyes at 0.8 of theirs, the feet as they are.
pub open spec fn spec_tee_skin_layout() -> Skin {
    Skin {
        body: ((16, 0), Scale { num: 66, den: 100 }),
        feet_back: ((8, 30), Scale { num: 1, den: 1 }),
        feet: ((24, 30), Scale { num: 1, den: 1 }),
        first_eyes: ((39, 18), Scale { num: 8, den: 10 }),
        second_eyes: ((47, 18), Scale { num: 8, den: 10 }),
        container: (96, 64),
    }
}

/// Layout for a rasterized skin of 96x64 pixels.
#[verifier::when_used_as_spec(spec_tee_skin_layout)]
pub fn tee_skin_layout() -> (r: Skin)
    ensures
        r == spec_tee_skin_layout(),
        r.wf(),
{
    Skin {
        body: ((16, 0), Scale { num: 66, den: 100 }),
        feet_back: ((8, 30), Scale { num: 1, den: 1 }),
        feet: ((24, 30), Scale { num: 1, den: 1 }),
        first_eyes: ((39, 18), Scale { num: 8, den: 10 }),
        second_eyes: ((47, 18), Scale { num: 8, den: 10 }),
        container: (96, 64),
    }
}

/// On parts cut by the standard sheet layout, the standard skin draws the
/// body and its shadow 63 pixels square, the feet and their shadow 64 by 32,
/// and the eyes 25 pixels square.
pub proof fn lemma_standard_sizes()
    ensures
        tee_skin_layout().sized_for(&crate::tee::uv::tee_uv_layout()) == (SizedSkin {
            body: PartSlot { position: (16, 0), size: (63, 63), shadow_size: (63, 63) },
            feet_back: PartSlot { position: (8, 30), size: (64, 32), shadow_size: (64, 32) },
            feet: PartSlot { position: (24, 30), size: (64, 32), shadow_size: (64, 32) },
            first_eyes: EyeSlot { position: (39, 18), size: (25, 25) },
            second_eyes: EyeSlot { position: (47, 18), size: (25, 25) },
            container: (96, 64),
        }),
{
    let body = Scale { num: 66, den: 100 };
    let feet = Scale { num: 1, den: 1 };
    let eyes = Scale { num: 8, den: 10 };
    assert(96int * 66 == 6336 && 6336int / 100 == 63);
    assert(scaled_length(96, body) == 63);
    assert(scaled_length(64, feet) == 64 && scaled_length(32, feet) == 32);
    assert(32int * 8 == 256 && 256int / 10 == 25);
    assert(scaled_length(32, eyes) == 25);
    assert(crate::tee::uv::tee_uv_layout().eyes@[0] == Part { x: 64, y: 96, w: 32, h: 32 });
}

} // verus!
