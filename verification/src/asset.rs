//! A decoded picture: its size and its pixels.

use crate::layout::Size;
use vstd::prelude::*;

verus! {

/// Why a width, a height and a buffer make no picture.
#[derive(Clone, Copy, Debug, PartialEq, Eq, Structural)]
pub enum AssetError {
    /// The width or the height is zero.
    EmptyImage,
    /// The buffer does not hold four bytes for each pixel.
    WrongBufferLength,
}

/// The number of bytes that a picture of this size takes: four for each
/// pixel, one for each of red, green, blue and alpha.
pub open spec fn rgba_len(size: Size) -> int {
    4 * (size.width * size.height)
}

/// The error that a size and a buffer length call for, the size's first;
/// `None` where they make a picture.
pub open spec fn asset_error(size: Size, len: int) -> Option<AssetError> {
    if size.is_empty() {
        Some(AssetError::EmptyImage)
    } else if len != rgba_len(size) {
        Some(AssetError::WrongBufferLength)
    } else {
        None
    }
}

/// A picture with at least one pixel, and its pixels as RGBA bytes, row by row.
#[derive(Debug)]
pub struct ImageAsset {
    size: Size,
    pixels: Vec<u8>,
}

impl ImageAsset {
    #[verifier::type_invariant]
    spec fn is_complete(self) -> bool {
        asset_error(self.size, self.pixels@.len() as int) is None
    }

    /// The picture's width and height.
    pub closed spec fn dimensions(self) -> Size {
        self.size
    }

    /// The picture's bytes.
    pub closed spec fn rgba(self) -> Seq<u8> {
        self.pixels@
    }

    /// The picture of the given size with the given bytes.
    ///
    /// Fails where a side is zero, and else where the buffer's length is not
    /// four times the number of pixels.
    pub fn new(width: u32, height: u32, pixels: Vec<u8>) -> (r: Result<ImageAsset, AssetError>)
        ensures
            r is Ok <==> asset_error(Size { width, height }, pixels@.len() as int) is None,
            r matches Ok(a) ==> a.dimensions() == (Size { width, height }) && a.rgba() == pixels@,
            r matches Err(e) ==> asset_error(Size { width, height }, pixels@.len() as int) == Some(
                e,
            ),
    {
        if width == 0 || height == 0 {
            return Err(AssetError::EmptyImage);
        }
        proof {
            assert(width * height <= 0xFFFF_FFFF * 0xFFFF_FFFF) by (nonlinear_arith)
                requires
                    0 <= width <= 0xFFFF_FFFF,
                    0 <= height <= 0xFFFF_FFFF,
            ;
        }
        let count: u64 = (width as u64) * (height as u64);
        let needed: u128 = 4 * (count as u128);
        if pixels.len() as u128 != needed {
            return Err(AssetError::WrongBufferLength);
        }
        Ok(ImageAsset { size: Size { width, height }, pixels })
    }

    /// The picture's width and height, neither of them zero.
    pub fn size(&self) -> (s: Size)
        ensures
            s == self.dimensions(),
            !s.is_empty(),
    {
        proof {
            use_type_invariant(self);
        }
        self.size
    }

    /// The picture's bytes, four for each pixel.
    pub fn pixels(&self) -> (p: &[u8])
        ensures
            p@ == self.rgba(),
            p@.len() == rgba_len(self.dimensions()),
    {
        proof {
            use_type_invariant(self);
        }
        self.pixels.as_slice()
    }
}

} // verus!
