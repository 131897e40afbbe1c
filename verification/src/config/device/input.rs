//! Input devices.
use vstd::prelude::*;

verus! {

/// A USB input device.
#[derive(Debug, Clone, Copy, PartialEq, Eq, Structural)]
pub enum VirtioInput {
    Keyboard,
    Pointing,
}

} // verus!
