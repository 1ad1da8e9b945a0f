use vstd::prelude::*;

verus! {

/// The negotiable part of the device's geometry: visible and virtual
/// resolution, the vertical pan offset and the pixel depth.
#[derive(Clone, Copy, Debug, PartialEq, Eq, Structural)]
pub struct VarScreeninfo {
    pub xres: u32,
    pub yres: u32,
    pub xres_virtual: u32,
    pub yres_virtual: u32,
    pub yoffset: u32,
    pub bits_per_pixel: u32,
}

/// The fixed memory layout of the device: total memory and bytes per scanline.
#[derive(Clone, Copy, Debug, PartialEq, Eq, Structural)]
pub struct FixScreeninfo {
    pub smem_len: u32,
    pub line_length: u32,
}

} // verus!
