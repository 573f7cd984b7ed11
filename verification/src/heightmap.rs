//! The decoded terrain elevation image.
//!
//! One byte per texel, row-major.  Both axes wrap around: horizontally
//! the cylinder closes on itself at the seam, vertically the map tiles,
//! so every lattice index samples safely.

use vstd::prelude::*;

verus! {

use crate::config::ConfigError;

/// Largest accepted heightmap axis, in texels.
pub const DIM_LIMIT: u32 = 16_384;

/// A decoded one-channel elevation image of `width * height` bytes.
pub struct HeightMap {
    pub width: u32,
    pub height: u32,
    pub data: Vec<u8>,
}

impl HeightMap {
    /// Well-formedness: both axes present and bounded, buffer matching
    /// the extent.
    pub open spec fn wf(self) -> bool {
        &&& 1 <= self.width <= DIM_LIMIT
        &&& 1 <= self.height <= DIM_LIMIT
        &&& self.data@.len() == self.width * self.height
    }

    /// The verdict `new` returns, with the first failing check winning.
    pub open spec fn new_spec(width: int, height: int, len: int) -> Result<(), ConfigError> {
        if width == 0 || height == 0 {
            Err(ConfigError::EmptyHeightMap)
        } else if width > DIM_LIMIT || height > DIM_LIMIT {
            Err(ConfigError::HeightMapTooLarge)
        } else if len != width * height {
            Err(ConfigError::HeightMapSizeMismatch)
        } else {
            Ok(())
        }
    }

    /// Validates the extent against the buffer and builds the map;
    /// succeeds exactly when the extent is non-degenerate, bounded, and
    /// matches the buffer length.
    pub fn new(width: u32, height: u32, data: Vec<u8>) -> (r: Result<HeightMap, ConfigError>)
        ensures
            match r {
                Ok(hm) => {
                    &&& Self::new_spec(width as int, height as int, data@.len() as int) is Ok
                    &&& hm.width == width
                    &&& hm.height == height
                    &&& hm.data@ == data@
                    &&& hm.wf()
                },
                Err(e) => Self::new_spec(width as int, height as int, data@.len() as int) == Err::<
                    (),
                    ConfigError,
                >(e),
            },
    {
        if width == 0 || height == 0 {
            Err(ConfigError::EmptyHeightMap)
        } else if width > DIM_LIMIT || height > DIM_LIMIT {
            Err(ConfigError::HeightMapTooLarge)
        } else {
            proof {
                assert(width * height <= 268_435_456) by (nonlinear_arith)
                    requires
                        width <= DIM_LIMIT,
                        height <= DIM_LIMIT,
                ;
            }
            let expected: usize = (width as usize) * (height as usize);
            if data.len() != expected {
                Err(ConfigError::HeightMapSizeMismatch)
            } else {
                Ok(HeightMap { width, height, data })
            }
        }
    }

    /// The byte at lattice point `(x, y)`, both axes wrapping.
    pub open spec fn sample_spec(self, x: int, y: int) -> int {
        self.data@[(y % (self.height as int)) * self.width + x % (self.width as int)] as int
    }

    /// Reads the texel under a lattice point, wrapping both axes.
    pub fn sample(&self, x: u32, y: u32) -> (h: u8)
        requires
            self.wf(),
        ensures
            h as int == self.sample_spec(x as int, y as int),
    {
        let xi: u32 = x % self.width;
        let yi: u32 = y % self.height;
        proof {
            assert(yi * self.width + xi < self.width * self.height <= 268_435_456)
                by (nonlinear_arith)
                requires
                    xi < self.width,
                    yi < self.height,
                    1 <= self.width <= DIM_LIMIT,
                    1 <= self.height <= DIM_LIMIT,
            ;
        }
        self.data[(yi as usize) * (self.width as usize) + (xi as usize)]
    }
}

} // verus!
