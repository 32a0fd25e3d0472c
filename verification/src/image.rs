//! The image: a picture shown either scaled to fit or cropped around its
//! centre.
use vstd::prelude::*;
use crate::layout::Margins;
use crate::geometry::{fits_i32, half_toward_zero};

verus! {

/// How a picture fills the room it gets.
#[derive(Clone, Copy, Debug, PartialEq, Eq, Structural)]
pub enum ImageScalePolicy {
    /// Scaled down or up to fit, keeping its aspect ratio.
    FitCenter,
    /// Cut to the room around its centre.
    CropCenter,
}

/// The content size of an image control: the picture's dimensions and the
/// margins around it.
pub fn content_size(picture: (u32, u32), margins: Margins) -> (r: (i32, i32))
    requires
        fits_i32((picture.0 as i32) + margins.left),
        fits_i32((picture.0 as i32) + margins.left + margins.right),
        fits_i32((picture.1 as i32) + margins.top),
        fits_i32((picture.1 as i32) + margins.top + margins.bottom),
    ensures
        r.0 == (picture.0 as i32) + margins.left + margins.right,
        r.1 == (picture.1 as i32) + margins.top + margins.bottom,
{
    (picture.0 as i32 + margins.left + margins.right, picture.1 as i32 + margins.top + margins.bottom)
}

/// The part of a picture of size `picture` that a cropped image of size
/// `shown` displays: a rectangle of the shown size, centred on the picture
/// (offsets are halved toward zero).
pub fn crop_rect(picture: (u32, u32), shown: (u16, u16)) -> (r: (i32, i32, i32, i32))
    requires
        fits_i32((picture.0 as i32) - shown.0),
        fits_i32((picture.1 as i32) - shown.1),
    ensures
        r.0 == half_toward_zero((picture.0 as i32) - shown.0),
        r.1 == half_toward_zero((picture.1 as i32) - shown.1),
        r.2 == shown.0,
        r.3 == shown.1,
{
    (
        (picture.0 as i32 - shown.0 as i32) / 2,
        (picture.1 as i32 - shown.1 as i32) / 2,
        shown.0 as i32,
        shown.1 as i32,
    )
}

/// Whether setting a scale policy changes anything: only a different one does,
/// and only then is the image invalidated.
pub fn scale_changes(current: ImageScalePolicy, requested: ImageScalePolicy) -> (r: bool)
    ensures
        r == (current != requested),
{
    current != requested
}

} // verus!
