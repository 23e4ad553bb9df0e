//! Decoded textures as the scene renderer uploads them.

use vstd::prelude::*;

verus! {

/// An RGBA8 image: four bytes per pixel, rows top to bottom.
#[derive(Clone, Debug)]
pub struct GltfTexture {
    pub width: u32,
    pub height: u32,
    pub data: Vec<u8>,
}

impl GltfTexture {
    /// The bytes an image of this size holds.
    pub open spec fn expected_len(self) -> int {
        self.width as int * self.height as int * 4
    }

    pub open spec fn well_formed(self) -> bool {
        self.data@.len() == self.expected_len()
    }

    /// The 1x1 opaque white image used when a model has no texture.
    pub fn fallback_white() -> (r: GltfTexture)
        ensures
            r.width == 1,
            r.height == 1,
            r.data@ == seq![255u8, 255u8, 255u8, 255u8],
            r.well_formed(),
    {
        let data: Vec<u8> = vec![255, 255, 255, 255];
        assert(data@ =~= seq![255u8, 255u8, 255u8, 255u8]);
        GltfTexture { width: 1, height: 1, data }
    }

    /// The size of the staging buffer for an upload: the byte count, where the
    /// data holds exactly one RGBA8 pixel per texel, else nothing.
    pub fn staging_size(&self) -> (r: Option<u64>)
        ensures
            self.well_formed() ==> r == Some(self.expected_len() as u64),
            !self.well_formed() ==> r is None,
    {
        let len = self.data.len();
        let w = self.width as u64;
        let h = self.height as u64;
        assert(w * h <= 0xFFFF_FFFF_FFFF_FFFFu64) by (nonlinear_arith)
            requires
                w <= 0xFFFF_FFFFu64,
                h <= 0xFFFF_FFFFu64,
        ;
        let px = w * h;
        if px > u64::MAX / 4 {
            assert(self.expected_len() > u64::MAX) by (nonlinear_arith)
                requires
                    px > u64::MAX / 4,
                    px == self.width as int * self.height as int,
            ;
            assert(len as int <= u64::MAX);
            return None;
        }
        let size = px * 4;
        if len as u64 == size {
            Some(size)
        } else {
            None
        }
    }
}

} // verus!
