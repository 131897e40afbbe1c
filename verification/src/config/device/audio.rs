//! Sound devices.
use vstd::prelude::*;

verus! {

/// A Virtio sound device.
#[derive(Debug, Clone, Copy)]
pub struct VirtioSound {
    pub input: bool,
    pub output: bool,
}

impl Default for VirtioSound {
    fn default() -> (r: Self)
        ensures
            !r.input,
            r.output,
    {
        VirtioSound { input: false, output: true }
    }
}

} // verus!
