//! Verified core of an interactive terrain editor.
//!
//! The library models the terrain subsystem: a square 16-bit height field
//! that a brush stamp sculpts in place, ray/AABB picking that places the
//! sculpt cursor, and a full-resolution readback of the height samples.
//! All spatial quantities are integers in milli-units (one thousandth of a
//! world unit), so every operation is exact.

use vstd::prelude::*;

pub mod brush;
pub mod decode;
pub mod heightmap;
pub mod ray;
pub mod terrain;

verus! {

/// Why loading a height field or a brush stamp from encoded image bytes
/// failed. Any of these is fatal to construction: nothing is built.
#[derive(Clone, Copy, Debug, PartialEq, Eq, Structural)]
pub enum LoadError {
    /// The bytes are not a readable image.
    Decode,
    /// The image is not square.
    NotSquare,
    /// The image is square but its side is not a supported size.
    UnsupportedSize,
    /// The image has no texels at all.
    Empty,
}

/// The side lengths (in texels) that a height field may have.
pub open spec fn supported_size(size: int) -> bool {
    size == 1024 || size == 2048 || size == 4096
}

/// Returns whether `size` is a side length the height field supports.
pub fn is_supported_size(size: usize) -> (r: bool)
    ensures
        r == supported_size(size as int),
{
    size == 1024 || size == 2048 || size == 4096
}

/// Number of bytes that a slice occupies: element size times length.
pub fn size_of_slice<T>(slice: &[T]) -> (r: usize)
    requires
        vstd::layout::size_of::<T>() * slice@.len() <= usize::MAX,
    ensures
        r == vstd::layout::size_of::<T>() * slice@.len(),
{
    core::mem::size_of::<T>() * slice.len()
}

} // verus!
