//! The texture resource's data check.
//!
//! Raw RGBA pixel data must exactly cover the declared dimensions before
//! it is uploaded.  Decoding image bytes into pixels and the upload itself
//! are the image and driver collaborators' work; a failed check here is
//! recoverable and is reported to the caller, who may abort construction.

use vstd::prelude::*;

verus! {

/// The byte length that RGBA pixel data must have to cover a
/// `width` by `height` image: four bytes per pixel.
pub open spec fn rgba_data_len(width: u32, height: u32) -> int {
    (width as int) * (height as int) * 4
}

/// Why pixel data was refused.
#[derive(Clone, Copy, Debug, PartialEq, Eq, Structural)]
pub enum TextureDataError {
    /// A dimension is zero.
    EmptyImage,
    /// The data's length does not cover the dimensions.
    WrongLength,
}

/// Checks that `len` bytes of RGBA pixel data exactly cover an image with
/// the given nonzero dimensions.
pub fn check_rgba_data(width: u32, height: u32, len: usize) -> (r: Result<(), TextureDataError>)
    ensures
        r is Ok <==> (width > 0 && height > 0 && len as int == rgba_data_len(width, height)),
        r == Err::<(), TextureDataError>(TextureDataError::EmptyImage) <==> (width == 0 || height
            == 0),
        r == Err::<(), TextureDataError>(TextureDataError::WrongLength) <==> (width > 0 && height
            > 0 && len as int != rgba_data_len(width, height)),
{
    if width == 0 || height == 0 {
        return Err(TextureDataError::EmptyImage);
    }
    proof {
        assert((width as int) * (height as int) * 4 <= 0xffff_ffff * 0xffff_ffff * 4)
            by (nonlinear_arith)
            requires
                0 <= width as int <= 0xffff_ffff,
                0 <= height as int <= 0xffff_ffff,
        ;
        assert(0 <= (width as int) * (height as int) * 4) by (nonlinear_arith)
            requires
                0 <= width as int,
                0 <= height as int,
        ;
    }
    let expected: u128 = (width as u128) * (height as u128) * 4;
    if (len as u128) == expected {
        Ok(())
    } else {
        Err(TextureDataError::WrongLength)
    }
}

} // verus!
