//! Where each part lies on a parts sheet.

use vstd::prelude::*;

verus! {

pub type ContentSize = (u32, u32);

pub const BODY_SIZE: ContentSize = (96, 96);

pub const FEET_SIZE: ContentSize = (64, 32);

pub const EYE_SIZE: ContentSize = (32, 32);

pub const HAND_SIZE: ContentSize = (32, 32);

/// A rectangle on a sheet: offset of its top-left corner and its extent.
#[derive(Debug, Clone, Copy, PartialEq, Eq, Structural)]
pub struct Part {
    pub x: u32,
    pub y: u32,
    pub w: u32,
    pub h: u32,
}

impl Part {
    /// The rectangle lies within an image of the given size.
    pub open spec fn fits(self, width: int, height: int) -> bool {
        self.x + self.w <= width && self.y + self.h <= height
    }

    /// The test behind [`Part::fits`], computed without overflow.
    pub fn fits_in(&self, width: u32, height: u32) -> (r: bool)
        ensures
            r == self.fits(width as int, height as int),
    {
        let right: u64 = self.x as u64 + self.w as u64;
        let bottom: u64 = self.y as u64 + self.h as u64;
        right <= width as u64 && bottom <= height as u64
    }
}

/// The regions of a parts sheet, and the size of the sheet they are meant for.
#[derive(Debug, Clone, Copy, PartialEq, Eq)]
pub struct UV {
    pub body: Part,
    pub body_shadow: Part,
    pub feet: Part,
    pub feet_shadow: Part,
    pub hand: Part,
    pub hand_shadow: Part,
    /// [Normal, Angry, Pain, Happy, Empty, Surprise]
    pub eyes: [Part; 6],
    pub container: ContentSize,
}

impl UV {
    /// The first region that reaches beyond an image of the given size, in
    /// the order in which the regions are cut: body, feet and hand, each
    /// before its shadow, then the six eyes.
    pub open spec fn first_misfit(self, width: int, height: int) -> Option<Part> {
        if !self.body.fits(width, height) {
            Some(self.body)
        } else if !self.body_shadow.fits(width, height) {
            Some(self.body_shadow)
        } else if !self.feet.fits(width, height) {
            Some(self.feet)
        } else if !self.feet_shadow.fits(width, height) {
            Some(self.feet_shadow)
        } else if !self.hand.fits(width, height) {
            Some(self.hand)
        } else if !self.hand_shadow.fits(width, height) {
            Some(self.hand_shadow)
        } else {
            first_eye_misfit(self.eyes@, width, height)
        }
    }
}

/// The first of six eye regions that reaches beyond an image of the given size.
pub open spec fn first_eye_misfit(eyes: Seq<Part>, width: int, height: int) -> Option<Part> {
    if !eyes[0].fits(width, height) {
        Some(eyes[0])
    } else if !eyes[1].fits(width, height) {
        Some(eyes[1])
    } else if !eyes[2].fits(width, height) {
        Some(eyes[2])
    } else if !eyes[3].fits(width, height) {
        Some(eyes[3])
    } else if !eyes[4].fits(width, height) {
        Some(eyes[4])
    } else if !eyes[5].fits(width, height) {
        Some(eyes[5])
    } else {
        None
    }
}

/// Position and size of each part of a Tee on the standard 256x128 sheet.
pub open spec fn spec_tee_uv_layout() -> UV {
    UV {
        container: (256, 128),
        body: Part { x: 0, y: 0, w: 96, h: 96 },
        body_shadow: Part { x: 96, y: 0, w: 96, h: 96 },
        feet: Part { x: 192, y: 32, w: 64, h: 32 },
        feet_shadow: Part { x: 192, y: 64, w: 64, h: 32 },
        hand: Part { x: 192, y: 0, w: 32, h: 32 },
        hand_shadow: Part { x: 224, y: 0, w: 32, h: 32 },
        eyes: [
            Part { x: 64, y: 96, w: 32, h: 32 },
            Part { x: 96, y: 96, w: 32, h: 32 },
            Part { x: 128, y: 96, w: 32, h: 32 },
            Part { x: 160, y: 96, w: 32, h: 32 },
            Part { x: 192, y: 96, w: 32, h: 32 },
            Part { x: 224, y: 96, w: 32, h: 32 },
        ],
    }
}

/// Position and size of each part of a Tee on the standard 256x128 sheet.
#[verifier::when_used_as_spec(spec_tee_uv_layout)]
pub fn tee_uv_layout() -> (r: UV)
    ensures
        r == spec_tee_uv_layout(),
{
    UV {
        container: (256, 128),
        body: Part { x: 0, y: 0, w: BODY_SIZE.0, h: BODY_SIZE.1 },
        body_shadow: Part { x: BODY_SIZE.0, y: 0, w: BODY_SIZE.0, h: BODY_SIZE.1 },
        feet: Part { x: 192, y: 32, w: FEET_SIZE.0, h: FEET_SIZE.1 },
        feet_shadow: Part { x: 192, y: 64, w: FEET_SIZE.0, h: FEET_SIZE.1 },
        hand: Part { x: 192, y: 0, w: HAND_SIZE.0, h: HAND_SIZE.1 },
        hand_shadow: Part { x: 224, y: 0, w: HAND_SIZE.0, h: HAND_SIZE.1 },
        eyes: [
            Part { x: 64, y: 96, w: EYE_SIZE.0, h: EYE_SIZE.1 },
            Part { x: 96, y: 96, w: EYE_SIZE.0, h: EYE_SIZE.1 },
            Part { x: 128, y: 96, w: EYE_SIZE.0, h: EYE_SIZE.1 },
            Part { x: 160, y: 96, w: EYE_SIZE.0, h: EYE_SIZE.1 },
            Part { x: 192, y: 96, w: EYE_SIZE.0, h: EYE_SIZE.1 },
            Part { x: 224, y: 96, w: EYE_SIZE.0, h: EYE_SIZE.1 },
        ],
    }
}

} // verus!
