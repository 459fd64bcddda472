//! EXIF orientation: reading the tag from image bytes and the transform
//! each orientation value asks for.

use vstd::prelude::*;

use crate::metadata::{exif_number_field, exif_number_of, ExifNumberTag};

verus! {

/// The EXIF orientation recorded in an image file's bytes, if any.
pub fn read_exif_orientation(data: &[u8]) -> (r: Option<u32>)
    ensures
        r == exif_number_of(data@, ExifNumberTag::Orientation),
{
    exif_number_field(data, ExifNumberTag::Orientation)
}

/// How an image must be turned to be shown upright.
#[derive(Debug, Clone, Copy, PartialEq, Eq, Structural)]
pub enum OrientationTransform {
    Identity,
    FlipHorizontal,
    Rotate180,
    FlipVertical,
    Rotate90FlipHorizontal,
    Rotate90,
    Rotate270FlipHorizontal,
    Rotate270,
}

/// The transform an EXIF orientation value asks for; unknown or missing
/// values leave the image as it is.
pub open spec fn transform_spec(orientation: Option<u32>) -> OrientationTransform {
    match orientation {
        Some(2) => OrientationTransform::FlipHorizontal,
        Some(3) => OrientationTransform::Rotate180,
        Some(4) => OrientationTransform::FlipVertical,
        Some(5) => OrientationTransform::Rotate90FlipHorizontal,
        Some(6) => OrientationTransform::Rotate90,
        Some(7) => OrientationTransform::Rotate270FlipHorizontal,
        Some(8) => OrientationTransform::Rotate270,
        _ => OrientationTransform::Identity,
    }
}

/// The transform an EXIF orientation value asks for.
pub fn orientation_transform(orientation: Option<u32>) -> (t: OrientationTransform)
    ensures
        t == transform_spec(orientation),
{
    match orientation {
        Some(2) => OrientationTransform::FlipHorizontal,
        Some(3) => OrientationTransform::Rotate180,
        Some(4) => OrientationTransform::FlipVertical,
        Some(5) => OrientationTransform::Rotate90FlipHorizontal,
        Some(6) => OrientationTransform::Rotate90,
        Some(7) => OrientationTransform::Rotate270FlipHorizontal,
        Some(8) => OrientationTransform::Rotate270,
        _ => OrientationTransform::Identity,
    }
}

/// The sides of an image, numbered clockwise: 0 top, 1 right, 2 bottom,
/// 3 left.
pub open spec fn turn_clockwise(side: int) -> int {
    (side + 1) % 4
}

/// Where a side goes when the image is mirrored left to right.
pub open spec fn mirror_left_right(side: int) -> int {
    (4 - side) % 4
}

/// Where a side goes when the image is mirrored top to bottom.
pub open spec fn mirror_top_bottom(side: int) -> int {
    (6 - side) % 4
}

/// Where side `side` of the stored image ends up once `t` is applied, each
/// transform being the quarter turns clockwise and the mirroring its name
/// says, in that order.
pub open spec fn side_after(t: OrientationTransform, side: int) -> int {
    match t {
        OrientationTransform::Identity => side,
        OrientationTransform::FlipHorizontal => mirror_left_right(side),
        OrientationTransform::Rotate180 => turn_clockwise(turn_clockwise(side)),
        OrientationTransform::FlipVertical => mirror_top_bottom(side),
        OrientationTransform::Rotate90FlipHorizontal => mirror_left_right(turn_clockwise(side)),
        OrientationTransform::Rotate90 => turn_clockwise(side),
        OrientationTransform::Rotate270FlipHorizontal => mirror_left_right(
            turn_clockwise(turn_clockwise(turn_clockwise(side))),
        ),
        OrientationTransform::Rotate270 => turn_clockwise(turn_clockwise(turn_clockwise(side))),
    }
}

/// The EXIF `Orientation` tag (TIFF 6.0, tag 274) says, for values 1..8,
/// on which side of the upright picture the stored image's first row lies
/// and on which side its first column lies.
pub open spec fn exif_first_row_and_column(v: u32) -> (int, int) {
    if v == 1 {
        (0, 3)
    } else if v == 2 {
        (0, 1)
    } else if v == 3 {
        (2, 1)
    } else if v == 4 {
        (2, 3)
    } else if v == 5 {
        (3, 0)
    } else if v == 6 {
        (1, 0)
    } else if v == 7 {
        (1, 2)
    } else {
        (3, 2)
    }
}

/// The transform of every orientation value 1..8 puts the stored first row
/// (its top side) and first column (its left side) where the EXIF standard
/// says they belong; so value 3, a photo taken upside down, is turned by
/// 180 degrees. Only 1, a missing tag and values outside 1..8 leave the
/// image as it is.
pub proof fn lemma_orientation_follows_exif(v: u32)
    ensures
        1 <= v <= 8 ==> side_after(transform_spec(Some(v)), 0) == exif_first_row_and_column(v).0,
        1 <= v <= 8 ==> side_after(transform_spec(Some(v)), 3) == exif_first_row_and_column(v).1,
        (transform_spec(Some(v)) == OrientationTransform::Identity) == (v == 1 || v == 0 || v > 8),
        transform_spec(None) == OrientationTransform::Identity,
{
}

} // verus!
