//! The platform that a virtual machine presents to its guest.
use vstd::prelude::*;

verus! {

/// The platform of a virtual machine.
#[derive(Debug)]
pub enum Platform {
    /// Generic platform (Linux/ARM64 guests).
    Generic,
    /// A Mac, identified by files on the host.
    MacOs(MacOsPlatform),
}

/// Opaque machine identifier bytes (`VZGenericMachineIdentifier.dataRepresentation`).
///
/// A save file is bound to the identifier that was active when it was written,
/// so the VM that restores it has to be built with the same bytes.
pub type MachineIdentifier = Vec<u8>;

/// The files that identify a Mac.
#[derive(Debug)]
pub struct MacOsPlatform {
    pub machine_identifier_path: String,
    pub hardware_model_path: String,
    pub aux_storage_path: String,
}

impl Clone for MacOsPlatform {
    fn clone(&self) -> (r: Self)
        ensures
            r.machine_identifier_path@ == self.machine_identifier_path@,
            r.hardware_model_path@ == self.hardware_model_path@,
            r.aux_storage_path@ == self.aux_storage_path@,
    {
        MacOsPlatform {
            machine_identifier_path: self.machine_identifier_path.clone(),
            hardware_model_path: self.hardware_model_path.clone(),
            aux_storage_path: self.aux_storage_path.clone(),
        }
    }
}

impl Clone for Platform {
    fn clone(&self) -> (r: Self)
        ensures
            r@ == self@,
    {
        match self {
            Platform::Generic => Platform::Generic,
            Platform::MacOs(m) => Platform::MacOs(m.clone()),
        }
    }
}

/// A [`Platform`] over sequences of characters.
pub enum PlatformView {
    Generic,
    MacOs {
        machine_identifier_path: Seq<char>,
        hardware_model_path: Seq<char>,
        aux_storage_path: Seq<char>,
    },
}

impl View for Platform {
    type V = PlatformView;

    open spec fn view(&self) -> PlatformView {
        match *self {
            Platform::Generic => PlatformView::Generic,
            Platform::MacOs(m) => PlatformView::MacOs {
                machine_identifier_path: m.machine_identifier_path@,
                hardware_model_path: m.hardware_model_path@,
                aux_storage_path: m.aux_storage_path@,
            },
        }
    }
}

impl Default for Platform {
    fn default() -> (r: Self)
        ensures
            r == Platform::Generic,
    {
        Platform::Generic
    }
}

} // verus!
