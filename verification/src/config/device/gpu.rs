//! Displays.
use vstd::prelude::*;

verus! {

/// A Virtio GPU with one scanout.
#[derive(Debug, Clone, Copy)]
pub struct VirtioGpu {
    pub width: u32,
    pub height: u32,
}

impl Default for VirtioGpu {
    fn default() -> (r: Self)
        ensures
            r == (VirtioGpu { width: 800, height: 600 }),
    {
        VirtioGpu { width: 800, height: 600 }
    }
}

/// The display of a macOS guest.
#[derive(Debug, Clone, Copy)]
pub struct MacGraphics {
    pub width: u32,
    pub height: u32,
    pub pixels_per_inch: u32,
}

impl Default for MacGraphics {
    fn default() -> (r: Self)
        ensures
            r == (MacGraphics { width: 1920, height: 1200, pixels_per_inch: 144 }),
    {
        MacGraphics { width: 1920, height: 1200, pixels_per_inch: 144 }
    }
}

} // verus!
