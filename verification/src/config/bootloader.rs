//! How the guest is booted.
use vstd::prelude::*;

use crate::text::{clone_opt, opt_text};

verus! {

/// The bootloader of a virtual machine.
#[derive(Debug)]
pub enum Bootloader {
    Linux(LinuxBootloader),
    Efi(EfiBootloader),
    MacOs(MacOsBootloader),
}

impl Clone for Bootloader {
    fn clone(&self) -> (r: Self)
        ensures
            r@ == self@,
    {
        match self {
            Bootloader::Linux(l) => Bootloader::Linux(l.clone()),
            Bootloader::Efi(e) => Bootloader::Efi(e.clone()),
            Bootloader::MacOs(m) => Bootloader::MacOs(m.clone()),
        }
    }
}

/// Direct boot of a Linux kernel.
#[derive(Debug)]
pub struct LinuxBootloader {
    pub kernel_path: String,
    pub initrd_path: Option<String>,
    pub command_line: String,
}

impl Clone for LinuxBootloader {
    fn clone(&self) -> (r: Self)
        ensures
            r.kernel_path@ == self.kernel_path@,
            opt_text(r.initrd_path) == opt_text(self.initrd_path),
            r.command_line@ == self.command_line@,
    {
        LinuxBootloader {
            kernel_path: self.kernel_path.clone(),
            initrd_path: clone_opt(&self.initrd_path),
            command_line: self.command_line.clone(),
        }
    }
}

/// UEFI boot with a variable store.
#[derive(Debug)]
pub struct EfiBootloader {
    pub variable_store_path: String,
    pub create_variable_store: bool,
}

impl Clone for EfiBootloader {
    fn clone(&self) -> (r: Self)
        ensures
            r.variable_store_path@ == self.variable_store_path@,
            r.create_variable_store == self.create_variable_store,
    {
        EfiBootloader {
            variable_store_path: self.variable_store_path.clone(),
            create_variable_store: self.create_variable_store,
        }
    }
}

/// Boot of a macOS guest.
#[derive(Debug)]
pub struct MacOsBootloader {
    pub machine_identifier_path: String,
    pub hardware_model_path: String,
    pub aux_image_path: String,
}

impl Clone for MacOsBootloader {
    fn clone(&self) -> (r: Self)
        ensures
            r.machine_identifier_path@ == self.machine_identifier_path@,
            r.hardware_model_path@ == self.hardware_model_path@,
            r.aux_image_path@ == self.aux_image_path@,
    {
        MacOsBootloader {
            machine_identifier_path: self.machine_identifier_path.clone(),
            hardware_model_path: self.hardware_model_path.clone(),
            aux_image_path: self.aux_image_path.clone(),
        }
    }
}

/// A [`Bootloader`] over sequences of characters.
pub enum BootloaderView {
    Linux { kernel_path: Seq<char>, initrd_path: Option<Seq<char>>, command_line: Seq<char> },
    Efi { variable_store_path: Seq<char>, create_variable_store: bool },
    MacOs {
        machine_identifier_path: Seq<char>,
        hardware_model_path: Seq<char>,
        aux_image_path: Seq<char>,
    },
}

impl View for Bootloader {
    type V = BootloaderView;

    open spec fn view(&self) -> BootloaderView {
        match *self {
            Bootloader::Linux(l) => BootloaderView::Linux {
                kernel_path: l.kernel_path@,
                initrd_path: opt_text(l.initrd_path),
                command_line: l.command_line@,
            },
            Bootloader::Efi(e) => BootloaderView::Efi {
                variable_store_path: e.variable_store_path@,
                create_variable_store: e.create_variable_store,
            },
            Bootloader::MacOs(m) => BootloaderView::MacOs {
                machine_identifier_path: m.machine_identifier_path@,
                hardware_model_path: m.hardware_model_path@,
                aux_image_path: m.aux_image_path@,
            },
        }
    }
}

} // verus!
