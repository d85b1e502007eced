//! What can go wrong.

use vstd::prelude::*;

use crate::tee::uv::Part;

verus! {

/// `image::ImageError`, the error of the `image` crate. Verus carries it
/// through and knows nothing of its contents.
#[verifier::external_type_specification]
#[verifier::external_body]
pub struct ExImageError(image::ImageError);

pub type Result<T> = std::result::Result<T, TeeError>;

#[derive(Debug)]
pub enum TeeError {
    /// Neither image data with a format nor another source was given.
    InvalidBuilderConfiguration,
    /// The `image` crate could not decode or encode.
    Image(image::ImageError),
    /// A requested part reaches beyond the image.
    OutOfBounds { part: Part, width: u32, height: u32 },
    /// The image is not of the size that the layout is made for.
    InvalidDimensions { expected: (u32, u32), found: (u32, u32) },
}

} // verus!
