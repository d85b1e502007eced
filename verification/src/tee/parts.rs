//! The parts of a Tee and the names they go by.

use vstd::prelude::*;

use crate::tee::pixels::{PixelBuffer, PixelGrid};
use crate::tee::uv::Part;

verus! {

/// The parts that can be recolored.
#[derive(Debug, Clone, Copy, PartialEq, Eq, Hash, Structural)]
pub enum TeePart {
    Body,
    BodyShadow,
    Feet,
    FeetShadow,
    Hand,
    HandShadow,
}

/// A part and the shadow drawn beneath it, each an image of its own.
#[derive(Debug, Clone, PartialEq)]
pub struct WithShadow {
    /// The main part of the component
    pub value: PixelBuffer,
    /// The shadow part of the component
    pub shadow: PixelBuffer,
}

impl WithShadow {
    pub open spec fn wf(&self) -> bool {
        self.value.wf() && self.shadow.wf()
    }

    /// Computes [`WithShadow::wf`].
    pub fn is_well_formed(&self) -> (r: bool)
        ensures
            r == self.wf(),
    {
        self.value.is_well_formed() && self.shadow.is_well_formed()
    }

    /// The part and its shadow are the given regions of `sheet`.
    pub open spec fn is_cut_from(&self, sheet: PixelGrid, part: Part, shadow_part: Part) -> bool {
        self.value@.is_region_of(sheet, part) && self.shadow@.is_region_of(sheet, shadow_part)
    }
}

/// One eye expression together with its image.
#[derive(Debug, Clone, PartialEq)]
pub enum EyeTypeData {
    Normal(PixelBuffer),
    Angry(PixelBuffer),
    Pain(PixelBuffer),
    Happy(PixelBuffer),
    Empty(PixelBuffer),
    Surprise(PixelBuffer),
}

impl EyeTypeData {
    /// The expression that this value is tagged with.
    pub open spec fn eye_type(&self) -> EyeType {
        match self {
            EyeTypeData::Normal(_) => EyeType::Normal,
            EyeTypeData::Angry(_) => EyeType::Angry,
            EyeTypeData::Pain(_) => EyeType::Pain,
            EyeTypeData::Happy(_) => EyeType::Happy,
            EyeTypeData::Empty(_) => EyeType::Empty,
            EyeTypeData::Surprise(_) => EyeType::Surprise,
        }
    }

    /// The image that this value carries.
    pub open spec fn image(&self) -> PixelBuffer {
        match self {
            EyeTypeData::Normal(img) => *img,
            EyeTypeData::Angry(img) => *img,
            EyeTypeData::Pain(img) => *img,
            EyeTypeData::Happy(img) => *img,
            EyeTypeData::Empty(img) => *img,
            EyeTypeData::Surprise(img) => *img,
        }
    }
}

impl EyeTypeData {
    /// The expression that this value is tagged with.
    pub fn tag(&self) -> (r: EyeType)
        ensures
            r == self.eye_type(),
    {
        match self {
            EyeTypeData::Normal(_) => EyeType::Normal,
            EyeTypeData::Angry(_) => EyeType::Angry,
            EyeTypeData::Pain(_) => EyeType::Pain,
            EyeTypeData::Happy(_) => EyeType::Happy,
            EyeTypeData::Empty(_) => EyeType::Empty,
            EyeTypeData::Surprise(_) => EyeType::Surprise,
        }
    }

    /// The image of this expression.
    pub fn image_ref(&self) -> (r: &PixelBuffer)
        ensures
            *r == self.image(),
    {
        match self {
            EyeTypeData::Normal(img) => img,
            EyeTypeData::Angry(img) => img,
            EyeTypeData::Pain(img) => img,
            EyeTypeData::Happy(img) => img,
            EyeTypeData::Empty(img) => img,
            EyeTypeData::Surprise(img) => img,
        }
    }
}

/// The eye expression to draw.
#[derive(Debug, Clone, Copy, PartialEq, Eq, Hash, Structural)]
pub enum EyeType {
    Normal,
    Angry,
    Pain,
    Happy,
    Empty,
    Surprise,
}

impl EyeType {
    /// The place of this expression in the fixed order
    /// Normal, Angry, Pain, Happy, Empty, Surprise.
    pub open spec fn ordinal(self) -> int {
        match self {
            EyeType::Normal => 0,
            EyeType::Angry => 1,
            EyeType::Pain => 2,
            EyeType::Happy => 3,
            EyeType::Empty => 4,
            EyeType::Surprise => 5,
        }
    }

    /// The index of this expression in a Tee's array of eyes.
    pub fn index(&self) -> (r: usize)
        ensures
            r == self.ordinal(),
            r < 6,
    {
        match self {
            EyeType::Normal => 0,
            EyeType::Angry => 1,
            EyeType::Pain => 2,
            EyeType::Happy => 3,
            EyeType::Empty => 4,
            EyeType::Surprise => 5,
        }
    }

    /// The expression at a place of the fixed order.
    pub open spec fn of_ordinal(i: int) -> EyeType {
        if i == 0 {
            EyeType::Normal
        } else if i == 1 {
            EyeType::Angry
        } else if i == 2 {
            EyeType::Pain
        } else if i == 3 {
            EyeType::Happy
        } else if i == 4 {
            EyeType::Empty
        } else {
            EyeType::Surprise
        }
    }
}

/// Every expression has a place among the six, and no two share one.
pub proof fn lemma_ordinal_is_a_bijection(a: EyeType, b: EyeType)
    ensures
        0 <= a.ordinal() < 6,
        EyeType::of_ordinal(a.ordinal()) == a,
        a.ordinal() == b.ordinal() ==> a == b,
{
}

} // verus!
