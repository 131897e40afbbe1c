//! Building a bootloader.
use vstd::prelude::*;

use crate::config::bootloader::{EfiBootloader, LinuxBootloader};
use crate::error::{outcome, result_view, Error, ErrorView};
use crate::text::{clone_opt, join2, opt_text};

verus! {

/// How much of a kernel is read to tell whether it can be booted.
pub const KERNEL_HEADER_LEN: usize = 2048;

/// Where the magic bytes of an ARM64 kernel image end.
pub const MAGIC_END: usize = 0x3C;

/// Whether a kernel starts like an uncompressed ARM64 image: `ARMd` stands at
/// offset 0x38.
pub open spec fn has_arm64_magic(header: Seq<u8>) -> bool {
    header.len() >= MAGIC_END && header.subrange(0x38, 0x3C) == seq![0x41u8, 0x52, 0x4d, 0x64]
}

/// What is wrong with the start of a kernel.
pub open spec fn kernel_check(header: Seq<u8>) -> Result<(), ErrorView> {
    if header.len() < MAGIC_END {
        Err(ErrorView::InvalidBootloader("kernel file too small"@))
    } else if !has_arm64_magic(header) {
        Err(
            ErrorView::InvalidBootloader(
                "kernel must be uncompressed ARM64 Image format (expected ARMd magic at offset 0x38); EFI-stub kernels should use the EFI bootloader"@,
            ),
        )
    } else {
        Ok(())
    }
}

/// Checks that a kernel is an uncompressed ARM64 image, from the bytes at its
/// start. The framework can boot no other; kernels in PE format boot by EFI.
pub fn validate_kernel_uncompressed(header: &Vec<u8>) -> (r: Result<(), Error>)
    ensures
        outcome(r) == kernel_check(header@),
{
    if header.len() < MAGIC_END {
        return Err(Error::InvalidBootloader("kernel file too small".to_owned()));
    }
    proof {
        let magic = header@.subrange(0x38, 0x3C);
        assert(magic[0] == header@[0x38] && magic[1] == header@[0x39] && magic[2] == header@[0x3A]
            && magic[3] == header@[0x3B]);
        if header@[0x38] == 0x41 && header@[0x39] == 0x52 && header@[0x3A] == 0x4d
            && header@[0x3B] == 0x64 {
            assert(magic =~= seq![0x41u8, 0x52, 0x4d, 0x64]);
        }
    }
    if header[0x38] != 0x41 || header[0x39] != 0x52 || header[0x3A] != 0x4d || header[0x3B]
        != 0x64 {
        return Err(
            Error::InvalidBootloader(
                "kernel must be uncompressed ARM64 Image format (expected ARMd magic at offset 0x38); EFI-stub kernels should use the EFI bootloader".to_owned(),
            ),
        );
    }
    Ok(())
}

/// What is set on the framework's Linux bootloader.
#[derive(Debug)]
pub struct LinuxBoot {
    pub kernel: String,
    pub command_line: Option<String>,
    pub initrd: Option<String>,
}

/// A [`LinuxBoot`] over sequences of characters.
pub struct LinuxBootView {
    pub kernel: Seq<char>,
    pub command_line: Option<Seq<char>>,
    pub initrd: Option<Seq<char>>,
}

impl View for LinuxBoot {
    type V = LinuxBootView;

    open spec fn view(&self) -> LinuxBootView {
        LinuxBootView {
            kernel: self.kernel@,
            command_line: opt_text(self.command_line),
            initrd: opt_text(self.initrd),
        }
    }
}

/// What is set on the framework's Linux bootloader: an empty command line is
/// left alone.
pub open spec fn linux_boot_of(
    kernel: Seq<char>,
    initrd: Option<Seq<char>>,
    command_line: Seq<char>,
    header: Option<Seq<u8>>,
) -> Result<LinuxBootView, ErrorView> {
    let boot = LinuxBootView {
        kernel,
        command_line: if command_line.len() == 0 {
            None
        } else {
            Some(command_line)
        },
        initrd,
    };
    match header {
        Some(bytes) => match kernel_check(bytes) {
            Ok(_) => Ok(boot),
            Err(e) => Err(e),
        },
        None => Ok(boot),
    }
}

/// The bytes of an optional kernel header.
pub open spec fn opt_header(header: Option<Vec<u8>>) -> Option<Seq<u8>> {
    match header {
        Some(bytes) => Some(bytes@),
        None => None,
    }
}

/// What is set on the framework's Linux bootloader. `header` is the start of
/// the kernel on hosts that need it checked.
pub fn build_linux_bootloader(linux: &LinuxBootloader, header: &Option<Vec<u8>>) -> (r: Result<
    LinuxBoot,
    Error,
>)
    ensures
        result_view(r) == linux_boot_of(
            linux.kernel_path@,
            opt_text(linux.initrd_path),
            linux.command_line@,
            opt_header(*header),
        ),
{
    if let Some(bytes) = header {
        if let Err(e) = validate_kernel_uncompressed(bytes) {
            return Err(e);
        }
    }
    let command_line = if linux.command_line.as_str().is_empty() {
        None
    } else {
        Some(linux.command_line.clone())
    };
    Ok(
        LinuxBoot {
            kernel: linux.kernel_path.clone(),
            command_line,
            initrd: clone_opt(&linux.initrd_path),
        },
    )
}

/// What is done with an EFI variable store.
#[derive(Debug, Clone, Copy, PartialEq, Eq, Structural)]
pub enum EfiStore {
    /// Create it.
    Create,
    /// Use the one that is there.
    Open,
}

/// What is done with the variable store.
pub fn efi_store(efi: &EfiBootloader) -> (r: EfiStore)
    ensures
        r == if efi.create_variable_store {
            EfiStore::Create
        } else {
            EfiStore::Open
        },
{
    if efi.create_variable_store {
        EfiStore::Create
    } else {
        EfiStore::Open
    }
}

/// The error where the variable store could not be created.
pub fn efi_store_error(reason: &str) -> (r: Error)
    ensures
        r@ == ErrorView::InvalidBootloader("EFI variable store: "@ + reason@),
{
    Error::InvalidBootloader(join2("EFI variable store: ", reason))
}

/// A kernel is accepted exactly where it has at least sixty bytes and the last
/// four of these are `A`, `R`, `M` and `d`.
pub proof fn law_kernels_that_boot(header: Seq<u8>)
    ensures
        kernel_check(header) is Ok <==> header.len() >= 60 && header[56] == 0x41 && header[57]
            == 0x52 && header[58] == 0x4d && header[59] == 0x64,
        kernel_check(header) matches Err(e) ==> e is InvalidBootloader,
{
    if header.len() >= 60 {
        let magic = header.subrange(56, 60);
        assert(magic[0] == header[56] && magic[1] == header[57] && magic[2] == header[58]
            && magic[3] == header[59]);
        if header[56] == 0x41 && header[57] == 0x52 && header[58] == 0x4d && header[59] == 0x64 {
            assert(magic =~= seq![0x41u8, 0x52, 0x4d, 0x64]);
        } else if magic == seq![0x41u8, 0x52, 0x4d, 0x64] {
            assert(magic[0] == 0x41 && magic[1] == 0x52 && magic[2] == 0x4d && magic[3] == 0x64);
        }
    }
}

/// A Linux bootloader has the kernel, the initrd and the command line that
/// were asked for; only an empty command line is not set. It is refused
/// exactly where the kernel is checked and cannot boot.
pub proof fn law_linux_boot_is_as_asked(
    kernel: Seq<char>,
    initrd: Option<Seq<char>>,
    command_line: Seq<char>,
    header: Option<Seq<u8>>,
)
    ensures
        ({
            let r = linux_boot_of(kernel, initrd, command_line, header);
            &&& r is Err <==> (header matches Some(bytes) && kernel_check(bytes) is Err)
            &&& r matches Ok(boot) ==> {
                &&& boot.kernel == kernel
                &&& boot.initrd == initrd
                &&& command_line.len() > 0 ==> boot.command_line == Some(command_line)
                &&& command_line.len() == 0 ==> boot.command_line is None
            }
        }),
{
}

} // verus!
