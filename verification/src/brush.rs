//! The brush stamp: an immutable square grayscale texture together with its
//! world-space footprint. The stamp performs no sculpting itself; the height
//! field samples it during a sculpt pass.

use vstd::prelude::*;

use crate::decode::{decode_luma16, decoded_luma16};
use crate::LoadError;

verus! {

/// A square grayscale stamp with a logical world-space footprint.
/// Immutable after construction.
#[derive(Debug)]
pub struct Brush {
    size: u64,
    texture_size: usize,
    pixels: Vec<u16>,
}

impl Brush {
    /// The stamp's samples, row-major.
    pub closed spec fn texels(&self) -> Seq<u16> {
        self.pixels@
    }

    /// The stamp's side length in texels.
    pub closed spec fn side(&self) -> int {
        self.texture_size as int
    }

    /// The stamp's world-space footprint, in milli-units.
    pub closed spec fn footprint(&self) -> int {
        self.size as int
    }

    pub open spec fn wf(&self) -> bool {
        &&& 1 <= self.side()
        &&& self.texels().len() == self.side() * self.side()
        &&& 1 <= self.footprint()
    }

    /// Loads a stamp from encoded image bytes. The image must decode and be
    /// square and non-empty; `world_size` is the footprint the sculpt math
    /// will give the stamp.
    pub fn new(bytes: &Vec<u8>, world_size: u64) -> (r: Result<Brush, LoadError>)
        requires
            1 <= world_size,
        ensures
            match r {
                Ok(b) => {
                    &&& b.wf()
                    &&& b.footprint() == world_size
                    &&& match decoded_luma16(bytes@) {
                        Some((w, h, pix)) => w == h && 1 <= w && b.side() == w && b.texels()
                            == pix,
                        None => false,
                    }
                },
                Err(e) => match decoded_luma16(bytes@) {
                    None => e == LoadError::Decode,
                    Some((w, h, pix)) => (w != h && e == LoadError::NotSquare) || (w == h && w
                        == 0 && e == LoadError::Empty),
                },
            },
    {
        match decode_luma16(bytes) {
            None => Err(LoadError::Decode),
            Some((w, h, pixels)) => {
                if w != h {
                    Err(LoadError::NotSquare)
                } else if w == 0 {
                    Err(LoadError::Empty)
                } else {
                    Ok(Brush { size: world_size, texture_size: w as usize, pixels })
                }
            },
        }
    }

    /// Side length in texels, as a run-time value.
    pub fn texture_side(&self) -> (r: usize)
        ensures
            r == self.side(),
    {
        self.texture_size
    }

    /// World-space footprint, as a run-time value.
    pub fn world_size(&self) -> (r: u64)
        ensures
            r == self.footprint(),
    {
        self.size
    }

    /// Number of samples the stamp holds.
    pub fn texel_count(&self) -> (r: usize)
        ensures
            r == self.texels().len(),
    {
        self.pixels.len()
    }

    /// The sample at the given row and column.
    pub fn sample(&self, row: usize, col: usize) -> (s: u16)
        requires
            self.wf(),
            row < self.side(),
            col < self.side(),
        ensures
            s == self.texels()[row * self.side() + col],
    {
        // The texel count, read so that its usize bound is in scope for the
        // index's overflow proof.
        let texel_count: usize = self.pixels.len();
        proof {
            assert(row * self.texture_size + col < self.texture_size * self.texture_size)
                by (nonlinear_arith)
                requires
                    row < self.texture_size,
                    col < self.texture_size,
            ;
        }
        self.pixels[row * self.texture_size + col]
    }
}

} // verus!
