//! What a specification that follows the documented grammar means.
use vstd::prelude::*;

use super::options::{
    all_plain, collect, flag, is_key, is_plain, keyed, keys_are_unique, last_value,
    law_distinct_options_keep_their_order, law_last_option_wins, law_option_of,
    law_options_of_joined_parts, lemma_last_value_concat, lemma_last_value_flag,
    lemma_last_value_optional, lemma_plain_concat, lemma_plain_optional, lookup, opt_is_plain,
    option_of, optional, options_of, Entry,
};
use super::parse::{
    bootloader_of, device_of, directories_of, directory_of, kind_and_rest, number_or,
    sync_mode_of, timeout_of, vmnet_mode_of, Parsed,
};
use crate::config::bootloader::BootloaderView;
use crate::config::device::audio::VirtioSound;
use crate::config::device::fs::{RosettaView, SharedDirView, VirtioFsView};
use crate::config::device::gpu::{MacGraphics, VirtioGpu};
use crate::config::device::input::VirtioInput;
use crate::config::device::network::{
    default_vmnet_config, law_mac_text_round_trip, mac_of, mac_text, NetAttachmentView,
    VirtioNetView, VmnetConfigView, VmnetMode,
};
use crate::config::device::serial::SerialAttachmentView;
use crate::config::device::storage::{
    DiskBackend, DiskCachingMode, DiskSyncMode, DiskView, NbdView, VirtioBlkView,
};
use crate::config::device::vsock::VirtioVsockView;
use crate::config::device::DeviceView;
use crate::number::{
    decimal, hex_byte, law_decimal_round_trip, law_signed_decimal_round_trip, lemma_decimal,
    lemma_digit_char, parse_signed, parse_unsigned, signed_decimal,
};
use crate::text::{join, lemma_first_index, lemma_first_index_unique};
use crate::time::Duration;

verus! {

/// The text of a specification: its kind and its options with commas between
/// them.
pub open spec fn specification(kind: Seq<char>, parts: Seq<Seq<char>>) -> Seq<char> {
    join(seq![kind] + parts, ',')
}

/// A specification's kind and options are read back as they were written.
pub proof fn law_specification_is_read_back(kind: Seq<char>, parts: Seq<Seq<char>>)
    requires
        is_plain(kind),
        all_plain(parts),
        parts.len() == 1 ==> parts[0].len() > 0,
    ensures
        kind_and_rest(specification(kind, parts)).0 == kind,
        options_of(kind_and_rest(specification(kind, parts)).1) == collect(parts),
{
    let all = seq![kind] + parts;
    let s = specification(kind, parts);
    if parts.len() == 0 {
        assert(all =~= seq![kind]);
        lemma_first_index(kind, ',');
    } else {
        assert(all.drop_first() =~= parts);
        assert(s == kind + seq![','] + join(parts, ','));
        assert forall|j: int| 0 <= j < kind.len() implies s[j] != ',' by {
            assert(s[j] == kind[j]);
            assert(kind.contains(kind[j]));
        }
        lemma_first_index_unique(s, ',', kind.len() as int);
        assert(s.take(kind.len() as int) =~= kind);
        assert(s.skip(kind.len() as int + 1) =~= join(parts, ','));
        law_options_of_joined_parts(parts);
    }
}

proof fn lemma_two(
    a: Seq<Seq<char>>,
    b: Seq<Seq<char>>,
)
    requires
        all_plain(a),
        all_plain(b),
    ensures
        all_plain(a + b),
        forall|key: Seq<char>|
            #![trigger last_value(a + b, key)]
            last_value(a + b, key) == match last_value(b, key) {
                Some(v) => Some(v),
                None => last_value(a, key),
            },
{
    lemma_plain_concat(a, b);
    assert forall|key: Seq<char>|
        #![trigger last_value(a + b, key)]
        last_value(a + b, key) == match last_value(b, key) {
            Some(v) => Some(v),
            None => last_value(a, key),
        } by {
        lemma_last_value_concat(a, b, key);
    }
}

proof fn lemma_optional(name: Seq<char>, value: Option<Seq<char>>)
    requires
        is_key(name),
        opt_is_plain(value),
    ensures
        all_plain(optional(name, value)),
        forall|key: Seq<char>|
            #![trigger last_value(optional(name, value), key)]
            last_value(optional(name, value), key) == if key == name {
                value
            } else {
                None
            },
{
    lemma_plain_optional(name, value);
    assert forall|key: Seq<char>|
        #![trigger last_value(optional(name, value), key)]
        last_value(optional(name, value), key) == if key == name {
            value
        } else {
            None
        } by {
        lemma_last_value_optional(name, value, key);
    }
}

proof fn lemma_flag(name: Seq<char>, on: bool)
    requires
        is_key(name),
    ensures
        all_plain(flag(name, on)),
        forall|key: Seq<char>|
            #![trigger last_value(flag(name, on), key)]
            last_value(flag(name, on), key) == if on && key == name {
                Some("true"@)
            } else {
                None
            },
{
    assert forall|key: Seq<char>|
        #![trigger last_value(flag(name, on), key)]
        last_value(flag(name, on), key) == if on && key == name {
            Some("true"@)
        } else {
            None
        } by {
        lemma_last_value_flag(name, on, key);
    }
}

proof fn lemma_lookup(kind: Seq<char>, parts: Seq<Seq<char>>)
    requires
        is_plain(kind),
        all_plain(parts),
        parts.len() == 1 ==> parts[0].len() > 0,
    ensures
        kind_and_rest(specification(kind, parts)).0 == kind,
        options_of(kind_and_rest(specification(kind, parts)).1) == collect(parts),
        forall|key: Seq<char>|
            #![trigger lookup(collect(parts), key)]
            lookup(collect(parts), key) == last_value(parts, key),
{
    law_specification_is_read_back(kind, parts);
    assert forall|key: Seq<char>|
        #![trigger lookup(collect(parts), key)]
        lookup(collect(parts), key) == last_value(parts, key) by {
        law_last_option_wins(parts, key);
    }
}

/// `linux,kernel=<path>[,initrd=<path>][,cmdline=<str>]`
pub proof fn law_linux_bootloader(
    kernel: Seq<char>,
    initrd: Option<Seq<char>>,
    cmdline: Option<Seq<char>>,
)
    requires
        is_plain(kernel),
        opt_is_plain(initrd),
        opt_is_plain(cmdline),
    ensures
        bootloader_of(
            specification(
                "linux"@,
                optional("kernel"@, Some(kernel)) + optional("initrd"@, initrd) + optional(
                    "cmdline"@,
                    cmdline,
                ),
            ),
        ) == Parsed::<BootloaderView>::Ok(
            BootloaderView::Linux {
                kernel_path: kernel,
                initrd_path: initrd,
                command_line: match cmdline {
                    Some(text) => text,
                    None => Seq::empty(),
                },
            },
        ),
{
    reveal_strlit("linux");
    reveal_strlit("kernel");
    reveal_strlit("initrd");
    reveal_strlit("cmdline");
    let a = optional("kernel"@, Some(kernel));
    let b = optional("initrd"@, initrd);
    let c = optional("cmdline"@, cmdline);
    lemma_optional("kernel"@, Some(kernel));
    lemma_optional("initrd"@, initrd);
    lemma_optional("cmdline"@, cmdline);
    lemma_two(a, b);
    lemma_two(a + b, c);
    assert((a + b + c)[0] == keyed("kernel"@, kernel));
    lemma_lookup("linux"@, a + b + c);
}

/// The decimal notation of an optional number.
pub open spec fn opt_decimal(n: Option<u32>) -> Option<Seq<char>> {
    match n {
        Some(v) => Some(decimal(v as nat)),
        None => None,
    }
}

/// The number, or `default`.
pub open spec fn or_default(n: Option<u32>, default: u32) -> u32 {
    match n {
        Some(v) => v,
        None => default,
    }
}

proof fn lemma_decimal_is_plain(n: nat)
    ensures
        is_plain(decimal(n)),
{
    lemma_decimal(n);
}

proof fn lemma_signed_decimal_is_plain(n: int)
    ensures
        is_plain(signed_decimal(n)),
{
    if n < 0 {
        lemma_decimal((-n) as nat);
        let s = signed_decimal(n);
        assert forall|j: int| 0 <= j < s.len() implies s[j] != ',' by {
            if j > 0 {
                assert(s[j] == decimal((-n) as nat)[j - 1]);
            }
        }
    } else {
        lemma_decimal(n as nat);
    }
}

proof fn lemma_opt_decimal(n: Option<u32>, default: u32)
    ensures
        opt_is_plain(opt_decimal(n)),
        number_or(opt_decimal(n), default) == or_default(n, default),
{
    if let Some(v) = n {
        lemma_decimal_is_plain(v as nat);
        law_decimal_round_trip(v as nat, u32::MAX as nat);
    }
}

/// The kinds of devices are different texts without a comma: most differ in
/// their length, the others in a character.
proof fn lemma_kinds_differ()
    ensures
        "virtio-blk"@.len() == 10,
        "nvme"@.len() == 4,
        "usb-mass-storage"@.len() == 16,
        "nbd"@.len() == 3,
        "virtio-net"@.len() == 10,
        "virtio-serial"@.len() == 13,
        "virtio-vsock"@.len() == 12,
        "virtio-gpu"@.len() == 10,
        "virtio-input"@.len() == 12,
        "virtio-fs"@.len() == 9,
        "rosetta"@.len() == 7,
        "virtio-sound"@.len() == 12,
        "mac-graphics"@.len() == 12,
        "usb-controller"@.len() == 14,
        "virtio-rng"@.len() == 10,
        "virtio-balloon"@.len() == 14,
        is_plain("virtio-blk"@),
        is_plain("nvme"@),
        is_plain("usb-mass-storage"@),
        is_plain("nbd"@),
        is_plain("virtio-net"@),
        is_plain("virtio-serial"@),
        is_plain("virtio-vsock"@),
        is_plain("virtio-gpu"@),
        is_plain("virtio-input"@),
        is_plain("virtio-fs"@),
        is_plain("rosetta"@),
        is_plain("virtio-sound"@),
        is_plain("mac-graphics"@),
        is_plain("usb-controller"@),
        is_plain("virtio-rng"@),
        is_plain("virtio-balloon"@),
        "virtio-blk"@ != "virtio-net"@,
        "virtio-blk"@ != "virtio-gpu"@,
        "virtio-blk"@ != "virtio-rng"@,
        "virtio-net"@ != "virtio-gpu"@,
        "virtio-net"@ != "virtio-rng"@,
        "virtio-gpu"@ != "virtio-rng"@,
        "virtio-vsock"@ != "virtio-input"@,
        "virtio-vsock"@ != "virtio-sound"@,
        "virtio-vsock"@ != "mac-graphics"@,
        "virtio-input"@ != "virtio-sound"@,
        "virtio-input"@ != "mac-graphics"@,
        "virtio-sound"@ != "mac-graphics"@,
        "usb-controller"@ != "virtio-balloon"@,
{
    reveal_strlit("virtio-blk");
    reveal_strlit("nvme");
    reveal_strlit("usb-mass-storage");
    reveal_strlit("nbd");
    reveal_strlit("virtio-net");
    reveal_strlit("virtio-serial");
    reveal_strlit("virtio-vsock");
    reveal_strlit("virtio-gpu");
    reveal_strlit("virtio-input");
    reveal_strlit("virtio-fs");
    reveal_strlit("rosetta");
    reveal_strlit("virtio-sound");
    reveal_strlit("mac-graphics");
    reveal_strlit("usb-controller");
    reveal_strlit("virtio-rng");
    reveal_strlit("virtio-balloon");
    assert("virtio-blk"@[7] != "virtio-net"@[7]);
    assert("virtio-blk"@[7] != "virtio-gpu"@[7]);
    assert("virtio-blk"@[7] != "virtio-rng"@[7]);
    assert("virtio-net"@[7] != "virtio-gpu"@[7]);
    assert("virtio-net"@[7] != "virtio-rng"@[7]);
    assert("virtio-gpu"@[7] != "virtio-rng"@[7]);
    assert("virtio-vsock"@[7] != "virtio-input"@[7]);
    assert("virtio-vsock"@[7] != "virtio-sound"@[7]);
    assert("virtio-vsock"@[0] != "mac-graphics"@[0]);
    assert("virtio-input"@[7] != "virtio-sound"@[7]);
    assert("virtio-input"@[0] != "mac-graphics"@[0]);
    assert("virtio-sound"@[0] != "mac-graphics"@[0]);
    assert("usb-controller"@[0] != "virtio-balloon"@[0]);
}

/// `efi,variable-store=<path>[,create]`
pub proof fn law_efi_bootloader(store: Seq<char>, create: bool)
    requires
        is_plain(store),
    ensures
        bootloader_of(
            specification(
                "efi"@,
                optional("variable-store"@, Some(store)) + flag("create"@, create),
            ),
        ) == Parsed::<BootloaderView>::Ok(
            BootloaderView::Efi { variable_store_path: store, create_variable_store: create },
        ),
{
    reveal_strlit("linux");
    reveal_strlit("efi");
    reveal_strlit("macos");
    reveal_strlit("variable-store");
    reveal_strlit("create");
    let p0 = optional("variable-store"@, Some(store));
    lemma_optional("variable-store"@, Some(store));
    let p1 = flag("create"@, create);
    lemma_flag("create"@, create);
    lemma_two(p0, p1);
    lemma_lookup("efi"@, p0 + p1);
}

/// `macos,machineIdentifierPath=<path>,hardwareModelPath=<path>,auxImagePath=<path>`
pub proof fn law_macos_bootloader(machine: Seq<char>, hardware: Seq<char>, aux: Seq<char>)
    requires
        is_plain(machine),
        is_plain(hardware),
        is_plain(aux),
    ensures
        bootloader_of(
            specification(
                "macos"@,
                optional("machineIdentifierPath"@, Some(machine))
                    + optional("hardwareModelPath"@, Some(hardware))
                    + optional("auxImagePath"@, Some(aux)),
            ),
        ) == Parsed::<BootloaderView>::Ok(
            BootloaderView::MacOs {
                machine_identifier_path: machine,
                hardware_model_path: hardware,
                aux_image_path: aux,
            },
        ),
{
    reveal_strlit("linux");
    reveal_strlit("efi");
    reveal_strlit("macos");
    reveal_strlit("machineIdentifierPath");
    reveal_strlit("hardwareModelPath");
    reveal_strlit("auxImagePath");
    let p0 = optional("machineIdentifierPath"@, Some(machine));
    lemma_optional("machineIdentifierPath"@, Some(machine));
    let p1 = optional("hardwareModelPath"@, Some(hardware));
    lemma_optional("hardwareModelPath"@, Some(hardware));
    let p2 = optional("auxImagePath"@, Some(aux));
    lemma_optional("auxImagePath"@, Some(aux));
    lemma_two(p0, p1);
    lemma_two(p0 + p1, p2);
    lemma_lookup("macos"@, p0 + p1 + p2);
}

/// `virtio-blk,path=<path>[,readonly][,deviceId=<id>]`
pub proof fn law_virtio_blk(path: Seq<char>, readonly: bool, id: Option<Seq<char>>)
    requires
        is_plain(path),
        opt_is_plain(id),
    ensures
        device_of(
            specification(
                "virtio-blk"@,
                optional("path"@, Some(path))
                    + flag("readonly"@, readonly)
                    + optional("deviceId"@, id),
            ),
        ) == Parsed::<DeviceView>::Ok(
            DeviceView::VirtioBlk(
                VirtioBlkView {
                    path,
                    read_only: readonly,
                    backend: DiskBackend::Image,
                    device_id: id,
                    caching_mode: DiskCachingMode::Automatic,
                    sync_mode: DiskSyncMode::Full,
                },
            ),
        ),
{
    lemma_kinds_differ();
    reveal_strlit("path");
    reveal_strlit("readonly");
    reveal_strlit("deviceId");
    let p0 = optional("path"@, Some(path));
    lemma_optional("path"@, Some(path));
    let p1 = flag("readonly"@, readonly);
    lemma_flag("readonly"@, readonly);
    let p2 = optional("deviceId"@, id);
    lemma_optional("deviceId"@, id);
    lemma_two(p0, p1);
    lemma_two(p0 + p1, p2);
    lemma_lookup("virtio-blk"@, p0 + p1 + p2);
}

/// `nvme,path=<path>[,readonly]`
pub proof fn law_nvme(path: Seq<char>, readonly: bool)
    requires
        is_plain(path),
    ensures
        device_of(
            specification(
                "nvme"@,
                optional("path"@, Some(path)) + flag("readonly"@, readonly),
            ),
        ) == Parsed::<DeviceView>::Ok(
            DeviceView::Nvme(DiskView { path, read_only: readonly }),
        ),
{
    lemma_kinds_differ();
    reveal_strlit("path");
    reveal_strlit("readonly");
    let p0 = optional("path"@, Some(path));
    lemma_optional("path"@, Some(path));
    let p1 = flag("readonly"@, readonly);
    lemma_flag("readonly"@, readonly);
    lemma_two(p0, p1);
    lemma_lookup("nvme"@, p0 + p1);
}

/// `usb-mass-storage,path=<path>[,readonly]`
pub proof fn law_usb_mass_storage(path: Seq<char>, readonly: bool)
    requires
        is_plain(path),
    ensures
        device_of(
            specification(
                "usb-mass-storage"@,
                optional("path"@, Some(path)) + flag("readonly"@, readonly),
            ),
        ) == Parsed::<DeviceView>::Ok(
            DeviceView::UsbMassStorage(DiskView { path, read_only: readonly }),
        ),
{
    lemma_kinds_differ();
    reveal_strlit("path");
    reveal_strlit("readonly");
    let p0 = optional("path"@, Some(path));
    lemma_optional("path"@, Some(path));
    let p1 = flag("readonly"@, readonly);
    lemma_flag("readonly"@, readonly);
    lemma_two(p0, p1);
    lemma_lookup("usb-mass-storage"@, p0 + p1);
}

/// The notation of an optional number of milliseconds.
pub open spec fn opt_millis(ms: Option<u64>) -> Option<Seq<char>> {
    match ms {
        Some(v) => Some(decimal(v as nat)),
        None => None,
    }
}

/// The notation of a way to synchronise.
pub open spec fn opt_sync(sync: Option<DiskSyncMode>) -> Option<Seq<char>> {
    match sync {
        Some(DiskSyncMode::NoSync) => Some("none"@),
        Some(DiskSyncMode::Fsync) => Some("fsync"@),
        Some(DiskSyncMode::Full) => Some("full"@),
        None => None,
    }
}

/// The notation of an optional `vmnet` mode.
pub open spec fn opt_mode(mode: Option<VmnetMode>) -> Option<Seq<char>> {
    match mode {
        Some(VmnetMode::Shared) => Some("shared"@),
        Some(VmnetMode::Host) => Some("host"@),
        Some(VmnetMode::Bridged) => Some("bridged"@),
        None => None,
    }
}

/// The notation of an optional address.
pub open spec fn opt_address(mac: Option<Seq<u8>>) -> Option<Seq<char>> {
    match mac {
        Some(m) => Some(mac_text(m)),
        None => None,
    }
}

/// The address of an optional notation.
pub open spec fn address_of(text: Option<Seq<char>>) -> Option<Seq<u8>> {
    match text {
        Some(s) => mac_of(s),
        None => None,
    }
}

proof fn lemma_opt_millis(ms: Option<u64>)
    ensures
        opt_is_plain(opt_millis(ms)),
        timeout_of(opt_millis(ms)) == match ms {
            Some(v) => Some(Duration { nanos: (v * 1_000_000) as u128 }),
            None => None,
        },
{
    if let Some(v) = ms {
        lemma_decimal_is_plain(v as nat);
        law_decimal_round_trip(v as nat, u64::MAX as nat);
    }
}

proof fn lemma_opt_sync(sync: Option<DiskSyncMode>)
    ensures
        opt_is_plain(opt_sync(sync)),
        sync_mode_of(opt_sync(sync)) == match sync {
            Some(mode) => mode,
            None => DiskSyncMode::Full,
        },
{
    reveal_strlit("none");
    reveal_strlit("fsync");
    reveal_strlit("full");
    assert("none"@.len() == 4 && "fsync"@.len() == 5 && "full"@.len() == 4);
    assert("full"@[0] != "none"@[0]);
}

proof fn lemma_opt_mode(mode: Option<VmnetMode>)
    ensures
        opt_is_plain(opt_mode(mode)),
        vmnet_mode_of(opt_mode(mode)) == match mode {
            Some(mode) => mode,
            None => VmnetMode::Shared,
        },
{
    reveal_strlit("shared");
    reveal_strlit("host");
    reveal_strlit("bridged");
    assert("shared"@.len() == 6 && "host"@.len() == 4 && "bridged"@.len() == 7);
}

proof fn lemma_opt_address(mac: Option<Seq<u8>>)
    requires
        mac matches Some(m) ==> m.len() == 6,
    ensures
        opt_is_plain(opt_address(mac)),
        address_of(opt_address(mac)) == mac,
{
    if let Some(m) = mac {
        law_mac_text_round_trip(m);
        lemma_mac_text_is_plain(m.map_values(|b: u8| hex_byte(b)));
    }
}

proof fn lemma_mac_text_is_plain(parts: Seq<Seq<char>>)
    requires
        forall|i: int| 0 <= i < parts.len() ==> exists|b: u8| #[trigger] parts[i] == hex_byte(b),
    ensures
        is_plain(join(parts, ':')),
    decreases parts.len(),
{
    let s = join(parts, ':');
    if parts.len() > 0 {
        let b = choose|b: u8| parts[0] == hex_byte(b);
        lemma_digit_char(b as int / 16, 16);
        lemma_digit_char(b as int % 16, 16);
        assert(is_plain(parts[0]));
        if parts.len() > 1 {
            let rest = parts.drop_first();
            assert forall|i: int| 0 <= i < rest.len() implies exists|b: u8| #[trigger]
                rest[i] == hex_byte(b) by {
                assert(rest[i] == parts[i + 1]);
            }
            lemma_mac_text_is_plain(rest);
            let tail = join(rest, ':');
            let n = parts[0].len() as int;
            assert forall|j: int| 0 <= j < s.len() implies s[j] != ',' by {
                if j < n {
                    assert(s[j] == parts[0][j]);
                    assert(parts[0].contains(parts[0][j]));
                } else if j > n {
                    assert(s[j] == tail[j - n - 1]);
                    assert(tail.contains(tail[j - n - 1]));
                }
            }
        }
    }
}

/// `nbd,uri=<uri>[,deviceId=<id>][,timeout=<ms>][,sync=none|fsync|full][,readonly]`
pub proof fn law_nbd(
    uri: Seq<char>,
    id: Option<Seq<char>>,
    ms: Option<u64>,
    sync: Option<DiskSyncMode>,
    readonly: bool,
)
    requires
        is_plain(uri),
        opt_is_plain(id),
    ensures
        device_of(
            specification(
                "nbd"@,
                optional("uri"@, Some(uri))
                    + optional("deviceId"@, id)
                    + optional("timeout"@, opt_millis(ms))
                    + optional("sync"@, opt_sync(sync))
                    + flag("readonly"@, readonly),
            ),
        ) == Parsed::<DeviceView>::Ok(
            DeviceView::Nbd(
                NbdView {
                    uri,
                    device_id: id,
                    timeout: match ms {
                        Some(v) => Some(Duration { nanos: (v * 1_000_000) as u128 }),
                        None => None,
                    },
                    sync_mode: match sync {
                        Some(mode) => mode,
                        None => DiskSyncMode::Full,
                    },
                    read_only: readonly,
                },
            ),
        ),
{
    lemma_kinds_differ();
    lemma_opt_millis(ms);
    lemma_opt_sync(sync);
    reveal_strlit("uri");
    reveal_strlit("deviceId");
    reveal_strlit("timeout");
    reveal_strlit("sync");
    reveal_strlit("readonly");
    let p0 = optional("uri"@, Some(uri));
    lemma_optional("uri"@, Some(uri));
    let p1 = optional("deviceId"@, id);
    lemma_optional("deviceId"@, id);
    let p2 = optional("timeout"@, opt_millis(ms));
    lemma_optional("timeout"@, opt_millis(ms));
    let p3 = optional("sync"@, opt_sync(sync));
    lemma_optional("sync"@, opt_sync(sync));
    let p4 = flag("readonly"@, readonly);
    lemma_flag("readonly"@, readonly);
    lemma_two(p0, p1);
    lemma_two(p0 + p1, p2);
    lemma_two(p0 + p1 + p2, p3);
    lemma_two(p0 + p1 + p2 + p3, p4);
    lemma_lookup("nbd"@, p0 + p1 + p2 + p3 + p4);
}

/// `virtio-net[,nat][,mac=<addr>]`
pub proof fn law_virtio_net_nat(with_nat: bool, mac: Option<Seq<u8>>)
    requires
        mac matches Some(m) ==> m.len() == 6,
    ensures
        device_of(
            specification(
                "virtio-net"@,
                flag("nat"@, with_nat) + optional("mac"@, opt_address(mac)),
            ),
        ) == Parsed::<DeviceView>::Ok(
            DeviceView::VirtioNet(
                VirtioNetView {
                    attachment: NetAttachmentView::Nat,
                    mac_address: mac,
                },
            ),
        ),
{
    lemma_kinds_differ();
    lemma_opt_address(mac);
    reveal_strlit("nat");
    reveal_strlit("mac");
    reveal_strlit("unixSocketPath");
    reveal_strlit("fd");
    reveal_strlit("vmnet");
    let p0 = flag("nat"@, with_nat);
    lemma_flag("nat"@, with_nat);
    let p1 = optional("mac"@, opt_address(mac));
    lemma_optional("mac"@, opt_address(mac));
    lemma_two(p0, p1);
    lemma_lookup("virtio-net"@, p0 + p1);
}

/// `virtio-net,unixSocketPath=<path>[,mac=<addr>]`
pub proof fn law_virtio_net_unix_socket(path: Seq<char>, mac: Option<Seq<u8>>)
    requires
        is_plain(path),
        mac matches Some(m) ==> m.len() == 6,
    ensures
        device_of(
            specification(
                "virtio-net"@,
                optional("unixSocketPath"@, Some(path)) + optional("mac"@, opt_address(mac)),
            ),
        ) == Parsed::<DeviceView>::Ok(
            DeviceView::VirtioNet(
                VirtioNetView {
                    attachment: NetAttachmentView::UnixSocket { path },
                    mac_address: mac,
                },
            ),
        ),
{
    lemma_kinds_differ();
    lemma_opt_address(mac);
    reveal_strlit("unixSocketPath");
    reveal_strlit("mac");
    reveal_strlit("nat");
    let p0 = optional("unixSocketPath"@, Some(path));
    lemma_optional("unixSocketPath"@, Some(path));
    let p1 = optional("mac"@, opt_address(mac));
    lemma_optional("mac"@, opt_address(mac));
    lemma_two(p0, p1);
    lemma_lookup("virtio-net"@, p0 + p1);
}

/// `virtio-net,fd=<n>[,mac=<addr>]`
pub proof fn law_virtio_net_fd(fd: i32, mac: Option<Seq<u8>>)
    requires
        mac matches Some(m) ==> m.len() == 6,
    ensures
        device_of(
            specification(
                "virtio-net"@,
                optional("fd"@, Some(signed_decimal(fd as int)))
                    + optional("mac"@, opt_address(mac)),
            ),
        ) == Parsed::<DeviceView>::Ok(
            DeviceView::VirtioNet(
                VirtioNetView {
                    attachment: NetAttachmentView::FileDescriptor { fd },
                    mac_address: mac,
                },
            ),
        ),
{
    lemma_kinds_differ();
    lemma_opt_address(mac);
    reveal_strlit("fd");
    reveal_strlit("mac");
    reveal_strlit("nat");
    reveal_strlit("unixSocketPath");
    law_signed_decimal_round_trip(fd as int, i32::MIN as int, i32::MAX as int);
    lemma_signed_decimal_is_plain(fd as int);
    let p0 = optional("fd"@, Some(signed_decimal(fd as int)));
    lemma_optional("fd"@, Some(signed_decimal(fd as int)));
    let p1 = optional("mac"@, opt_address(mac));
    lemma_optional("mac"@, opt_address(mac));
    lemma_two(p0, p1);
    lemma_lookup("virtio-net"@, p0 + p1);
}

/// `virtio-net,vmnet[,mode=shared|host|bridged][,bridgedInterface=<iface>][,isolated][,allocateMac][,mac=<addr>]`
pub proof fn law_virtio_net_vmnet(
    mode: Option<VmnetMode>,
    bridged: Option<Seq<char>>,
    isolated: bool,
    allocate_mac: bool,
    mac: Option<Seq<u8>>,
)
    requires
        opt_is_plain(bridged),
        mac matches Some(m) ==> m.len() == 6,
    ensures
        device_of(
            specification(
                "virtio-net"@,
                flag("vmnet"@, true)
                    + optional("mode"@, opt_mode(mode))
                    + optional("bridgedInterface"@, bridged)
                    + flag("isolated"@, isolated)
                    + flag("allocateMac"@, allocate_mac)
                    + optional("mac"@, opt_address(mac)),
            ),
        ) == Parsed::<DeviceView>::Ok(
            DeviceView::VirtioNet(
                VirtioNetView {
                    attachment: NetAttachmentView::Vmnet(
                        VmnetConfigView {
                            mode: match mode {
                                Some(mode) => mode,
                                None => VmnetMode::Shared,
                            },
                            bridged_interface: bridged,
                            isolated,
                            allocate_mac,
                            ..default_vmnet_config()
                        },
                    ),
                    mac_address: mac,
                },
            ),
        ),
{
    lemma_opt_mode(mode);
    lemma_opt_address(mac);
    lemma_virtio_net_vmnet(
        opt_mode(mode),
        bridged,
        isolated,
        allocate_mac,
        opt_address(mac),
    );
}

proof fn lemma_virtio_net_vmnet(
    mode: Option<Seq<char>>,
    bridged: Option<Seq<char>>,
    isolated: bool,
    allocate_mac: bool,
    mac: Option<Seq<char>>,
)
    requires
        opt_is_plain(bridged),
        opt_is_plain(mode),
        opt_is_plain(mac),
    ensures
        device_of(
            specification(
                "virtio-net"@,
                flag("vmnet"@, true)
                    + optional("mode"@, mode)
                    + optional("bridgedInterface"@, bridged)
                    + flag("isolated"@, isolated)
                    + flag("allocateMac"@, allocate_mac)
                    + optional("mac"@, mac),
            ),
        ) == Parsed::<DeviceView>::Ok(
            DeviceView::VirtioNet(
                VirtioNetView {
                    attachment: NetAttachmentView::Vmnet(
                        VmnetConfigView {
                            mode: vmnet_mode_of(mode),
                            bridged_interface: bridged,
                            isolated,
                            allocate_mac,
                            ..default_vmnet_config()
                        },
                    ),
                    mac_address: address_of(mac),
                },
            ),
        ),
{
    lemma_kinds_differ();
    reveal_strlit("vmnet");
    reveal_strlit("mode");
    reveal_strlit("bridgedInterface");
    reveal_strlit("isolated");
    reveal_strlit("allocateMac");
    reveal_strlit("mac");
    reveal_strlit("nat");
    reveal_strlit("unixSocketPath");
    reveal_strlit("fd");
    let p0 = flag("vmnet"@, true);
    lemma_flag("vmnet"@, true);
    let p1 = optional("mode"@, mode);
    lemma_optional("mode"@, mode);
    let p2 = optional("bridgedInterface"@, bridged);
    lemma_optional("bridgedInterface"@, bridged);
    let p3 = flag("isolated"@, isolated);
    lemma_flag("isolated"@, isolated);
    let p4 = flag("allocateMac"@, allocate_mac);
    lemma_flag("allocateMac"@, allocate_mac);
    let p5 = optional("mac"@, mac);
    lemma_optional("mac"@, mac);
    lemma_two(p0, p1);
    lemma_two(p0 + p1, p2);
    lemma_two(p0 + p1 + p2, p3);
    lemma_two(p0 + p1 + p2 + p3, p4);
    lemma_two(p0 + p1 + p2 + p3 + p4, p5);
    lemma_lookup("virtio-net"@, p0 + p1 + p2 + p3 + p4 + p5);
}

/// `virtio-serial,stdio`
pub proof fn law_virtio_serial_stdio()
    ensures
        device_of(
            specification(
                "virtio-serial"@,
                flag("stdio"@, true),
            ),
        ) == Parsed::<DeviceView>::Ok(
            DeviceView::VirtioSerial(SerialAttachmentView::Stdio),
        ),
{
    lemma_kinds_differ();
    reveal_strlit("stdio");
    let p0 = flag("stdio"@, true);
    lemma_flag("stdio"@, true);
    lemma_lookup("virtio-serial"@, p0);
}

/// `virtio-serial,pty`
pub proof fn law_virtio_serial_pty()
    ensures
        device_of(
            specification(
                "virtio-serial"@,
                flag("pty"@, true),
            ),
        ) == Parsed::<DeviceView>::Ok(
            DeviceView::VirtioSerial(SerialAttachmentView::Pty),
        ),
{
    lemma_kinds_differ();
    reveal_strlit("pty");
    reveal_strlit("stdio");
    let p0 = flag("pty"@, true);
    lemma_flag("pty"@, true);
    lemma_lookup("virtio-serial"@, p0);
}

/// `virtio-serial,logFilePath=<path>`
pub proof fn law_virtio_serial_file(path: Seq<char>)
    requires
        is_plain(path),
    ensures
        device_of(
            specification(
                "virtio-serial"@,
                optional("logFilePath"@, Some(path)),
            ),
        ) == Parsed::<DeviceView>::Ok(
            DeviceView::VirtioSerial(SerialAttachmentView::File { path }),
        ),
{
    lemma_kinds_differ();
    reveal_strlit("logFilePath");
    reveal_strlit("stdio");
    reveal_strlit("pty");
    let p0 = optional("logFilePath"@, Some(path));
    lemma_optional("logFilePath"@, Some(path));
    lemma_lookup("virtio-serial"@, p0);
}

/// `virtio-vsock,port=<n>[,socketURL=<path>][,listen]`
pub proof fn law_virtio_vsock(port: u32, url: Option<Seq<char>>, listen: bool)
    requires
        opt_is_plain(url),
    ensures
        device_of(
            specification(
                "virtio-vsock"@,
                optional("port"@, Some(decimal(port as nat)))
                    + optional("socketURL"@, url)
                    + flag("listen"@, listen),
            ),
        ) == Parsed::<DeviceView>::Ok(
            DeviceView::VirtioVsock(VirtioVsockView { port, socket_url: url, listen }),
        ),
{
    lemma_kinds_differ();
    reveal_strlit("port");
    reveal_strlit("socketURL");
    reveal_strlit("listen");
    law_decimal_round_trip(port as nat, u32::MAX as nat);
    lemma_decimal_is_plain(port as nat);
    let p0 = optional("port"@, Some(decimal(port as nat)));
    lemma_optional("port"@, Some(decimal(port as nat)));
    let p1 = optional("socketURL"@, url);
    lemma_optional("socketURL"@, url);
    let p2 = flag("listen"@, listen);
    lemma_flag("listen"@, listen);
    lemma_two(p0, p1);
    lemma_two(p0 + p1, p2);
    lemma_lookup("virtio-vsock"@, p0 + p1 + p2);
}

/// `virtio-gpu[,width=<n>][,height=<n>]`
pub proof fn law_virtio_gpu(width: Option<u32>, height: Option<u32>)
    ensures
        device_of(
            specification(
                "virtio-gpu"@,
                optional("width"@, opt_decimal(width)) + optional("height"@, opt_decimal(height)),
            ),
        ) == Parsed::<DeviceView>::Ok(
            DeviceView::VirtioGpu(
                VirtioGpu { width: or_default(width, 800), height: or_default(height, 600) },
            ),
        ),
{
    lemma_kinds_differ();
    reveal_strlit("width");
    reveal_strlit("height");
    lemma_opt_decimal(width, 800);
    lemma_opt_decimal(height, 600);
    let p0 = optional("width"@, opt_decimal(width));
    lemma_optional("width"@, opt_decimal(width));
    let p1 = optional("height"@, opt_decimal(height));
    lemma_optional("height"@, opt_decimal(height));
    lemma_two(p0, p1);
    lemma_lookup("virtio-gpu"@, p0 + p1);
}

/// `mac-graphics[,width=<n>][,height=<n>][,pixelsPerInch=<n>]`
pub proof fn law_mac_graphics(width: Option<u32>, height: Option<u32>, ppi: Option<u32>)
    ensures
        device_of(
            specification(
                "mac-graphics"@,
                optional("width"@, opt_decimal(width))
                    + optional("height"@, opt_decimal(height))
                    + optional("pixelsPerInch"@, opt_decimal(ppi)),
            ),
        ) == Parsed::<DeviceView>::Ok(
            DeviceView::MacGraphics(
                MacGraphics {
                    width: or_default(width, 1920),
                    height: or_default(height, 1200),
                    pixels_per_inch: or_default(ppi, 144),
                },
            ),
        ),
{
    lemma_kinds_differ();
    reveal_strlit("width");
    reveal_strlit("height");
    reveal_strlit("pixelsPerInch");
    lemma_opt_decimal(width, 1920);
    lemma_opt_decimal(height, 1200);
    lemma_opt_decimal(ppi, 144);
    let p0 = optional("width"@, opt_decimal(width));
    lemma_optional("width"@, opt_decimal(width));
    let p1 = optional("height"@, opt_decimal(height));
    lemma_optional("height"@, opt_decimal(height));
    let p2 = optional("pixelsPerInch"@, opt_decimal(ppi));
    lemma_optional("pixelsPerInch"@, opt_decimal(ppi));
    lemma_two(p0, p1);
    lemma_two(p0 + p1, p2);
    lemma_lookup("mac-graphics"@, p0 + p1 + p2);
}

/// `virtio-input[,pointing]`
pub proof fn law_virtio_input(pointing: bool)
    ensures
        device_of(
            specification(
                "virtio-input"@,
                flag("pointing"@, pointing),
            ),
        ) == Parsed::<DeviceView>::Ok(
            DeviceView::VirtioInput(
                if pointing { VirtioInput::Pointing } else { VirtioInput::Keyboard },
            ),
        ),
{
    lemma_kinds_differ();
    reveal_strlit("pointing");
    let p0 = flag("pointing"@, pointing);
    lemma_flag("pointing"@, pointing);
    lemma_lookup("virtio-input"@, p0);
}

/// `rosetta[,mountTag=<tag>][,install][,ignoreIfMissing]`
pub proof fn law_rosetta(tag: Option<Seq<char>>, install: bool, ignore: bool)
    requires
        opt_is_plain(tag),
    ensures
        device_of(
            specification(
                "rosetta"@,
                optional("mountTag"@, tag)
                    + flag("install"@, install)
                    + flag("ignoreIfMissing"@, ignore),
            ),
        ) == Parsed::<DeviceView>::Ok(
            DeviceView::Rosetta(
                RosettaView {
                    mount_tag: match tag { Some(t) => t, None => "rosetta"@ },
                    install,
                    ignore_if_missing: ignore,
                },
            ),
        ),
{
    lemma_kinds_differ();
    reveal_strlit("mountTag");
    reveal_strlit("install");
    reveal_strlit("ignoreIfMissing");
    let p0 = optional("mountTag"@, tag);
    lemma_optional("mountTag"@, tag);
    let p1 = flag("install"@, install);
    lemma_flag("install"@, install);
    let p2 = flag("ignoreIfMissing"@, ignore);
    lemma_flag("ignoreIfMissing"@, ignore);
    lemma_two(p0, p1);
    lemma_two(p0 + p1, p2);
    lemma_lookup("rosetta"@, p0 + p1 + p2);
}

/// `virtio-sound[,input][,no-output]`
pub proof fn law_virtio_sound(input: bool, no_output: bool)
    ensures
        device_of(
            specification(
                "virtio-sound"@,
                flag("input"@, input) + flag("no-output"@, no_output),
            ),
        ) == Parsed::<DeviceView>::Ok(
            DeviceView::VirtioSound(VirtioSound { input, output: !no_output }),
        ),
{
    lemma_kinds_differ();
    reveal_strlit("input");
    reveal_strlit("no-output");
    let p0 = flag("input"@, input);
    lemma_flag("input"@, input);
    let p1 = flag("no-output"@, no_output);
    lemma_flag("no-output"@, no_output);
    lemma_two(p0, p1);
    lemma_lookup("virtio-sound"@, p0 + p1);
}

/// `usb-controller`
pub proof fn law_usb_controller()
    ensures
        device_of(
            specification(
                "usb-controller"@,
                Seq::empty(),
            ),
        ) == Parsed::<DeviceView>::Ok(
            DeviceView::UsbController,
        ),
{
    lemma_kinds_differ();
    lemma_lookup("usb-controller"@, Seq::empty());
}

/// `virtio-rng`
pub proof fn law_virtio_rng()
    ensures
        device_of(
            specification(
                "virtio-rng"@,
                Seq::empty(),
            ),
        ) == Parsed::<DeviceView>::Ok(
            DeviceView::VirtioRng,
        ),
{
    lemma_kinds_differ();
    lemma_lookup("virtio-rng"@, Seq::empty());
}

/// `virtio-balloon`
pub proof fn law_virtio_balloon()
    ensures
        device_of(
            specification(
                "virtio-balloon"@,
                Seq::empty(),
            ),
        ) == Parsed::<DeviceView>::Ok(
            DeviceView::VirtioBalloon,
        ),
{
    lemma_kinds_differ();
    lemma_lookup("virtio-balloon"@, Seq::empty());
}

/// The key of the option that shares a directory.
pub open spec fn directory_key(dir: SharedDirView) -> Seq<char> {
    if dir.read_only {
        "rodir."@ + dir.name
    } else {
        "dir."@ + dir.name
    }
}

/// The options that share the directories.
pub open spec fn directory_parts(dirs: Seq<SharedDirView>) -> Seq<Seq<char>> {
    dirs.map_values(|d: SharedDirView| keyed(directory_key(d), d.path))
}

/// Whether directories can be written as options: no name holds a comma or an
/// `=`, no path a comma, and no name is used twice in one way of sharing.
pub open spec fn directories_are_plain(dirs: Seq<SharedDirView>) -> bool {
    &&& forall|i: int|
        0 <= i < dirs.len() ==> is_key((#[trigger] dirs[i]).name) && is_plain(dirs[i].path)
    &&& forall|i: int, j: int|
        0 <= i < j < dirs.len() ==> (#[trigger] dirs[i]).name != (#[trigger] dirs[j]).name
            || dirs[i].read_only != dirs[j].read_only
}

/// The option for one directory is read back as that directory.
proof fn lemma_directory(dir: SharedDirView)
    requires
        is_key(dir.name),
        is_plain(dir.path),
    ensures
        is_key(directory_key(dir)),
        is_plain(keyed(directory_key(dir), dir.path)),
        option_of(keyed(directory_key(dir), dir.path)) == (directory_key(dir), dir.path),
        directory_of((directory_key(dir), dir.path)) == Some(dir),
        directory_key(dir).len() > 0,
        directory_key(dir)[0] == if dir.read_only {
            'r'
        } else {
            'd'
        },
        directory_key(dir).skip(
            if dir.read_only {
                6
            } else {
                4
            },
        ) == dir.name,
{
    reveal_strlit("dir.");
    reveal_strlit("rodir.");
    let key = directory_key(dir);
    let n: int = if dir.read_only {
        6
    } else {
        4
    };
    assert(key.skip(n) =~= dir.name);
    assert forall|j: int| 0 <= j < key.len() implies key[j] != ',' && key[j] != '=' by {
        if j >= n {
            assert(key[j] == dir.name[j - n]);
            assert(dir.name.contains(dir.name[j - n]));
        }
    }
    law_option_of(key, dir.path);
    lemma_plain_optional(key, Some(dir.path));
    assert(optional(key, Some(dir.path))[0] == keyed(key, dir.path));
    if dir.read_only {
        assert(key.take(4)[0] != "dir."@[0]);
        assert(key.take(6) =~= "rodir."@);
    } else {
        assert(key.take(4) =~= "dir."@);
    }
}

proof fn lemma_directories_concat(a: Seq<Entry>, b: Seq<Entry>)
    ensures
        directories_of(a + b) == directories_of(a) + directories_of(b),
    decreases b.len(),
{
    if b.len() == 0 {
        assert(a + b =~= a);
        assert(directories_of(a) + directories_of(b) =~= directories_of(a));
    } else {
        assert((a + b).drop_last() =~= a + b.drop_last());
        lemma_directories_concat(a, b.drop_last());
        assert(directories_of(a + b) =~= directories_of(a) + directories_of(b));
    }
}

/// The options for several directories are read back as those directories.
proof fn lemma_directories(dirs: Seq<SharedDirView>)
    requires
        directories_are_plain(dirs),
    ensures
        directories_of(directory_parts(dirs).map_values(|p: Seq<char>| option_of(p))) == dirs,
    decreases dirs.len(),
{
    let f = |p: Seq<char>| option_of(p);
    let entries = directory_parts(dirs).map_values(f);
    if dirs.len() == 0 {
        assert(directories_of(entries) =~= dirs);
    } else {
        let before = dirs.drop_last();
        assert(directories_are_plain(before)) by {
            assert forall|i: int| 0 <= i < before.len() implies is_key((#[trigger] before[i]).name)
                && is_plain(before[i].path) by {
                assert(before[i] == dirs[i]);
            }
            assert forall|i: int, j: int| 0 <= i < j < before.len() implies (
            #[trigger] before[i]).name != (#[trigger] before[j]).name || before[i].read_only
                != before[j].read_only by {
                assert(before[i] == dirs[i] && before[j] == dirs[j]);
            }
        }
        lemma_directories(before);
        lemma_directory(dirs.last());
        assert(entries.drop_last() =~= directory_parts(before).map_values(f));
        assert(entries.last() == (directory_key(dirs.last()), dirs.last().path));
        assert(directories_of(entries) =~= dirs);
    }
}

/// `virtio-fs,mountTag=<tag>[,sharedDir=<path>][,dir.<name>=<path>|,rodir.<name>=<path>]...`
/// with a shared directory or at least one named one: the directories come
/// out in the order in which they were given.
pub proof fn law_virtio_fs(tag: Seq<char>, shared: Option<Seq<char>>, dirs: Seq<SharedDirView>)
    requires
        is_plain(tag),
        opt_is_plain(shared),
        directories_are_plain(dirs),
        shared is Some || dirs.len() > 0,
    ensures
        device_of(
            specification(
                "virtio-fs"@,
                optional("mountTag"@, Some(tag)) + optional("sharedDir"@, shared) + directory_parts(
                    dirs,
                ),
            ),
        ) == Parsed::<DeviceView>::Ok(
            DeviceView::VirtioFs(
                VirtioFsView { mount_tag: tag, shared_dir: shared, directories: dirs },
            ),
        ),
{
    lemma_kinds_differ();
    reveal_strlit("mountTag");
    reveal_strlit("sharedDir");
    let f = |p: Seq<char>| option_of(p);
    let p0 = optional("mountTag"@, Some(tag));
    let p1 = optional("sharedDir"@, shared);
    let p2 = directory_parts(dirs);
    let parts = p0 + p1 + p2;
    lemma_optional("mountTag"@, Some(tag));
    lemma_optional("sharedDir"@, shared);
    lemma_two(p0, p1);
    assert forall|i: int| 0 <= i < dirs.len() implies is_plain(#[trigger] p2[i]) && option_of(
        p2[i],
    ) == (directory_key(dirs[i]), dirs[i].path) && option_of(p2[i]).0 != "mountTag"@ && option_of(
        p2[i],
    ).0 != "sharedDir"@ by {
        lemma_directory(dirs[i]);
        assert(option_of(p2[i]).0[0] != "mountTag"@[0]);
        assert(option_of(p2[i]).0[0] != "sharedDir"@[0]);
    }
    lemma_two(p0 + p1, p2);
    lemma_lookup("virtio-fs"@, parts);
    lemma_no_value(p2, "mountTag"@);
    lemma_no_value(p2, "sharedDir"@);
    law_option_of("mountTag"@, tag);
    assert(option_of(p0[0]) == ("mountTag"@, tag));
    if let Some(path) = shared {
        law_option_of("sharedDir"@, path);
        assert(option_of(p1[0]) == ("sharedDir"@, path));
    }
    let entries = parts.map_values(f);
    assert(keys_are_unique(entries)) by {
        assert forall|i: int, j: int| 0 <= i < j < entries.len() implies (#[trigger] entries[i]).0
            != (#[trigger] entries[j]).0 by {
            let n = (p0 + p1).len();
            if i >= n {
                let a = dirs[i - n];
                let b = dirs[j - n];
                assert(entries[i] == option_of(p2[i - n]));
                assert(entries[j] == option_of(p2[j - n]));
                lemma_directory(a);
                lemma_directory(b);
                if directory_key(a) == directory_key(b) {
                    assert(a.read_only == b.read_only);
                    assert(a.name == b.name);
                }
            } else if j >= n {
                assert(entries[j] == option_of(p2[j - n]));
                assert(entries[i] == option_of((p0 + p1)[i]));
            }
        }
    }
    law_distinct_options_keep_their_order(parts);
    assert(entries =~= p0.map_values(f) + p1.map_values(f) + p2.map_values(f));
    lemma_directories_concat(p0.map_values(f) + p1.map_values(f), p2.map_values(f));
    lemma_directories_concat(p0.map_values(f), p1.map_values(f));
    lemma_directories(dirs);
    lemma_no_directory("mountTag"@, tag);
    assert(p0.map_values(f) =~= seq![("mountTag"@, tag)]);
    if let Some(path) = shared {
        lemma_no_directory("sharedDir"@, path);
        assert(p1.map_values(f) =~= seq![("sharedDir"@, path)]);
    } else {
        assert(p1.map_values(f) =~= Seq::empty());
    }
    assert(directories_of(entries) =~= dirs);
}

/// An option whose key starts with another letter shares no directory.
proof fn lemma_no_directory(key: Seq<char>, value: Seq<char>)
    requires
        key.len() > 0,
        key[0] != 'd',
        key[0] != 'r',
    ensures
        directories_of(seq![(key, value)]) == Seq::<SharedDirView>::empty(),
{
    reveal_strlit("dir.");
    reveal_strlit("rodir.");
    let entries = seq![(key, value)];
    assert(entries.drop_last() =~= Seq::empty());
    reveal_with_fuel(directories_of, 2);
    if key.len() >= 4 {
        assert(key.take(4)[0] != "dir."@[0]);
    }
    if key.len() >= 6 {
        assert(key.take(6)[0] != "rodir."@[0]);
    }
}

proof fn lemma_no_value(parts: Seq<Seq<char>>, key: Seq<char>)
    requires
        forall|i: int| 0 <= i < parts.len() ==> option_of(#[trigger] parts[i]).0 != key,
    ensures
        last_value(parts, key) is None,
    decreases parts.len(),
{
    if parts.len() > 0 {
        let before = parts.drop_last();
        assert forall|i: int| 0 <= i < before.len() implies option_of(#[trigger] before[i]).0
            != key by {
            assert(before[i] == parts[i]);
        }
        lemma_no_value(before, key);
    }
}

/// A specification of an unknown kind is refused, whatever its options.
pub proof fn law_unknown_kinds_are_refused(kind: Seq<char>, parts: Seq<Seq<char>>)
    requires
        is_plain(kind),
        all_plain(parts),
        parts.len() == 1 ==> parts[0].len() > 0,
    ensures
        device_of(specification(kind, parts)) is Ok ==> kind == "virtio-blk"@ || kind == "nvme"@
            || kind == "usb-mass-storage"@ || kind == "nbd"@ || kind == "virtio-net"@ || kind
            == "virtio-serial"@ || kind == "virtio-vsock"@ || kind == "virtio-gpu"@ || kind
            == "virtio-input"@ || kind == "virtio-fs"@ || kind == "rosetta"@ || kind
            == "virtio-sound"@ || kind == "mac-graphics"@ || kind == "usb-controller"@ || kind
            == "virtio-rng"@ || kind == "virtio-balloon"@,
        bootloader_of(specification(kind, parts)) is Ok ==> kind == "linux"@ || kind == "efi"@
            || kind == "macos"@,
{
    lemma_lookup(kind, parts);
}

/// Whatever the order of its options, however often they are repeated and
/// whatever else is given, a disk has the last path, can be written unless
/// `readonly` is given, and is refused only where there is no path.
pub proof fn law_disks_from_any_options(parts: Seq<Seq<char>>)
    requires
        all_plain(parts),
        parts.len() == 1 ==> parts[0].len() > 0,
    ensures
        match last_value(parts, "path"@) {
            Some(path) => {
                let read_only = last_value(parts, "readonly"@) is Some;
                &&& device_of(specification("virtio-blk"@, parts)) matches Ok(
                    DeviceView::VirtioBlk(blk),
                )
                &&& blk.path == path && blk.read_only == read_only && blk.device_id == last_value(
                    parts,
                    "deviceId"@,
                )
                &&& blk.backend == DiskBackend::Image && blk.caching_mode
                    == DiskCachingMode::Automatic && blk.sync_mode == DiskSyncMode::Full
                &&& device_of(specification("nvme"@, parts)) == Parsed::<DeviceView>::Ok(
                    DeviceView::Nvme(DiskView { path, read_only }),
                )
                &&& device_of(specification("usb-mass-storage"@, parts)) == Parsed::<
                    DeviceView,
                >::Ok(DeviceView::UsbMassStorage(DiskView { path, read_only }))
            },
            None => {
                &&& device_of(specification("virtio-blk"@, parts)) is Err
                &&& device_of(specification("nvme"@, parts)) is Err
                &&& device_of(specification("usb-mass-storage"@, parts)) is Err
            },
        },
{
    lemma_kinds_differ();
    lemma_lookup("virtio-blk"@, parts);
    lemma_lookup("nvme"@, parts);
    lemma_lookup("usb-mass-storage"@, parts);
}

/// A network block device has the last URI, and is refused only where there is
/// none. A timeout that is no number is none; a way to synchronise that is not
/// known is the full one.
pub proof fn law_nbd_from_any_options(parts: Seq<Seq<char>>)
    requires
        all_plain(parts),
        parts.len() == 1 ==> parts[0].len() > 0,
    ensures
        match last_value(parts, "uri"@) {
            Some(uri) => {
                &&& device_of(specification("nbd"@, parts)) matches Ok(DeviceView::Nbd(nbd))
                &&& nbd.uri == uri && nbd.device_id == last_value(parts, "deviceId"@)
                &&& nbd.read_only == (last_value(parts, "readonly"@) is Some)
                &&& nbd.timeout is Some <==> (last_value(parts, "timeout"@) matches Some(s)
                    && parse_unsigned(s, 10, u64::MAX as nat) is Some)
                &&& nbd.timeout matches Some(d) ==> d.nanos == parse_unsigned(
                    last_value(parts, "timeout"@)->0,
                    10,
                    u64::MAX as nat,
                )->0 * 1_000_000
                &&& nbd.sync_mode == DiskSyncMode::NoSync <==> last_value(parts, "sync"@) == Some(
                    "none"@,
                )
                &&& nbd.sync_mode == DiskSyncMode::Fsync <==> last_value(parts, "sync"@) == Some(
                    "fsync"@,
                )
            },
            None => device_of(specification("nbd"@, parts)) is Err,
        },
{
    lemma_kinds_differ();
    lemma_lookup("nbd"@, parts);
    reveal_strlit("none");
    reveal_strlit("fsync");
    assert("none"@.len() != "fsync"@.len());
}

/// Of several attachments one is chosen: NAT before a socket, a socket before
/// a descriptor, a descriptor before `vmnet`; NAT where none is given. Only a
/// descriptor that is no number is refused, and an address that cannot be read
/// is left out.
pub proof fn law_attachments_from_any_options(parts: Seq<Seq<char>>)
    requires
        all_plain(parts),
        parts.len() == 1 ==> parts[0].len() > 0,
    ensures
        ({
            let r = device_of(specification("virtio-net"@, parts));
            let plain_nat = last_value(parts, "nat"@) is Some;
            let path = last_value(parts, "unixSocketPath"@);
            let fd = last_value(parts, "fd"@);
            let vmnet = last_value(parts, "vmnet"@) is Some;
            &&& r is Err <==> !plain_nat && path is None && (fd matches Some(s) && parse_signed(
                s,
                i32::MIN as int,
                i32::MAX as int,
            ) is None)
            &&& r matches Ok(d) ==> (d matches DeviceView::VirtioNet(net) && {
                &&& plain_nat ==> net.attachment is Nat
                &&& !plain_nat ==> (path matches Some(p) ==> net.attachment == (
                NetAttachmentView::UnixSocket { path: p }))
                &&& !plain_nat && path is None ==> (fd matches Some(s) ==> (net.attachment matches
                    NetAttachmentView::FileDescriptor { fd: n } && Some(n as int) == parse_signed(
                    s,
                    i32::MIN as int,
                    i32::MAX as int,
                )))
                &&& !plain_nat && path is None && fd is None && vmnet ==> (net.attachment matches
                    NetAttachmentView::Vmnet(cfg) && {
                    &&& cfg.isolated == (last_value(parts, "isolated"@) is Some)
                    &&& cfg.allocate_mac == (last_value(parts, "allocateMac"@) is Some)
                    &&& cfg.bridged_interface == last_value(parts, "bridgedInterface"@)
                    &&& cfg.mode == VmnetMode::Host <==> last_value(parts, "mode"@) == Some(
                        "host"@,
                    )
                    &&& cfg.mode == VmnetMode::Bridged <==> last_value(parts, "mode"@) == Some(
                        "bridged"@,
                    )
                    &&& cfg.start_address is None && cfg.end_address is None && cfg.subnet_mask
                        is None
                })
                &&& !plain_nat && path is None && fd is None && !vmnet ==> net.attachment is Nat
                &&& net.mac_address == match last_value(parts, "mac"@) {
                    Some(s) => mac_of(s),
                    None => None,
                }
            })
        }),
{
    lemma_kinds_differ();
    lemma_lookup("virtio-net"@, parts);
    let opts = collect(parts);
    if opts.len() == 0 {
        assert(lookup(opts, "nat"@) is None);
        assert(lookup(opts, "unixSocketPath"@) is None);
        assert(lookup(opts, "fd"@) is None);
        assert(lookup(opts, "vmnet"@) is None);
    }
    reveal_strlit("host");
    reveal_strlit("bridged");
    assert("host"@.len() != "bridged"@.len());
}

/// Of several ends of a serial port one is chosen: standard input and output
/// before a terminal, a terminal before a file; standard input and output
/// where none is given.
pub proof fn law_serial_ports_from_any_options(parts: Seq<Seq<char>>)
    requires
        all_plain(parts),
        parts.len() == 1 ==> parts[0].len() > 0,
    ensures
        device_of(specification("virtio-serial"@, parts)) matches Ok(DeviceView::VirtioSerial(end))
            && {
            let stdio = last_value(parts, "stdio"@) is Some;
            let pty = last_value(parts, "pty"@) is Some;
            let file = last_value(parts, "logFilePath"@);
            &&& stdio ==> end is Stdio
            &&& !stdio && pty ==> end is Pty
            &&& !stdio && !pty ==> (file matches Some(path) ==> end == (
            SerialAttachmentView::File { path }))
            &&& !stdio && !pty && file is None ==> end is Stdio
        },
{
    lemma_kinds_differ();
    lemma_lookup("virtio-serial"@, parts);
}

/// A Virtio socket needs a port that is a number of 32 bits, and has the
/// host's socket and the side that listens as they are given.
pub proof fn law_vsock_from_any_options(parts: Seq<Seq<char>>)
    requires
        all_plain(parts),
        parts.len() == 1 ==> parts[0].len() > 0,
    ensures
        ({
            let r = device_of(specification("virtio-vsock"@, parts));
            let port = match last_value(parts, "port"@) {
                Some(s) => parse_unsigned(s, 10, u32::MAX as nat),
                None => None,
            };
            &&& r is Ok <==> port is Some
            &&& r matches Ok(d) ==> (d matches DeviceView::VirtioVsock(v) && Some(v.port as nat)
                == port && v.socket_url == last_value(parts, "socketURL"@) && v.listen == (
            last_value(parts, "listen"@) is Some))
        }),
{
    lemma_kinds_differ();
    lemma_lookup("virtio-vsock"@, parts);
    if let Some(s) = last_value(parts, "port"@) {
        if let Some(n) = parse_unsigned(s, 10, u32::MAX as nat) {
            assert(n <= u32::MAX);
        }
    }
}

/// A size that is missing or is no number is the usual one.
pub proof fn law_displays_from_any_options(parts: Seq<Seq<char>>)
    requires
        all_plain(parts),
        parts.len() == 1 ==> parts[0].len() > 0,
    ensures
        ({
            let width = last_value(parts, "width"@);
            let height = last_value(parts, "height"@);
            let ppi = last_value(parts, "pixelsPerInch"@);
            &&& device_of(specification("virtio-gpu"@, parts)) matches Ok(DeviceView::VirtioGpu(g))
            &&& device_of(specification("mac-graphics"@, parts)) matches Ok(
                DeviceView::MacGraphics(m),
            )
            &&& !is_number(width) ==> g.width == 800 && m.width == 1920
            &&& !is_number(height) ==> g.height == 600 && m.height == 1200
            &&& !is_number(ppi) ==> m.pixels_per_inch == 144
            &&& is_number(width) ==> Some(g.width as nat) == parse_unsigned(
                width->0,
                10,
                u32::MAX as nat,
            ) && m.width == g.width
            &&& is_number(height) ==> Some(g.height as nat) == parse_unsigned(
                height->0,
                10,
                u32::MAX as nat,
            ) && m.height == g.height
            &&& is_number(ppi) ==> Some(m.pixels_per_inch as nat) == parse_unsigned(
                ppi->0,
                10,
                u32::MAX as nat,
            )
        }),
{
    lemma_kinds_differ();
    lemma_lookup("virtio-gpu"@, parts);
    lemma_lookup("mac-graphics"@, parts);
}

/// Whether an option holds a number of 32 bits.
pub open spec fn is_number(value: Option<Seq<char>>) -> bool {
    value matches Some(s) && parse_unsigned(s, 10, u32::MAX as nat) is Some
}

/// The other devices from any options: what is not given is off, a keyboard, a
/// share named `rosetta`, or sound that is played and not recorded.
pub proof fn law_other_devices_from_any_options(parts: Seq<Seq<char>>)
    requires
        all_plain(parts),
        parts.len() == 1 ==> parts[0].len() > 0,
    ensures
        device_of(specification("virtio-input"@, parts)) == Parsed::<DeviceView>::Ok(
            DeviceView::VirtioInput(
                if last_value(parts, "pointing"@) is Some {
                    VirtioInput::Pointing
                } else {
                    VirtioInput::Keyboard
                },
            ),
        ),
        device_of(specification("virtio-sound"@, parts)) matches Ok(DeviceView::VirtioSound(s))
            && s.input == (last_value(parts, "input"@) is Some) && s.output == (last_value(
            parts,
            "no-output"@,
        ) is None),
        device_of(specification("rosetta"@, parts)) matches Ok(DeviceView::Rosetta(r)) && (
        last_value(parts, "mountTag"@) matches Some(tag) ==> r.mount_tag == tag) && (last_value(
            parts,
            "mountTag"@,
        ) is None ==> r.mount_tag == "rosetta"@) && r.install == (last_value(parts, "install"@)
            is Some) && r.ignore_if_missing == (last_value(parts, "ignoreIfMissing"@) is Some),
        device_of(specification("usb-controller"@, parts)) == Parsed::<DeviceView>::Ok(
            DeviceView::UsbController,
        ),
        device_of(specification("virtio-rng"@, parts)) == Parsed::<DeviceView>::Ok(
            DeviceView::VirtioRng,
        ),
        device_of(specification("virtio-balloon"@, parts)) == Parsed::<DeviceView>::Ok(
            DeviceView::VirtioBalloon,
        ),
{
    lemma_kinds_differ();
    lemma_lookup("virtio-input"@, parts);
    lemma_lookup("virtio-sound"@, parts);
    lemma_lookup("rosetta"@, parts);
    lemma_lookup("usb-controller"@, parts);
    lemma_lookup("virtio-rng"@, parts);
    lemma_lookup("virtio-balloon"@, parts);
}

/// A file system needs a tag and something to share.
pub proof fn law_file_systems_from_any_options(parts: Seq<Seq<char>>)
    requires
        all_plain(parts),
        parts.len() == 1 ==> parts[0].len() > 0,
    ensures
        ({
            let r = device_of(specification("virtio-fs"@, parts));
            &&& last_value(parts, "mountTag"@) is None ==> r is Err
            &&& last_value(parts, "mountTag"@) is Some && last_value(parts, "sharedDir"@) is Some
                ==> r is Ok
            &&& r matches Ok(d) ==> (d matches DeviceView::VirtioFs(fs) && Some(fs.mount_tag)
                == last_value(parts, "mountTag"@) && fs.shared_dir == last_value(
                parts,
                "sharedDir"@,
            ) && (fs.shared_dir is Some || fs.directories.len() > 0))
        }),
{
    lemma_kinds_differ();
    lemma_lookup("virtio-fs"@, parts);
}

/// Bootloaders from any options: each has the last value of what it needs, and
/// is refused only where something that it needs is missing.
pub proof fn law_bootloaders_from_any_options(parts: Seq<Seq<char>>)
    requires
        all_plain(parts),
        parts.len() == 1 ==> parts[0].len() > 0,
    ensures
        ({
            let linux = bootloader_of(specification("linux"@, parts));
            let kernel = last_value(parts, "kernel"@);
            &&& linux is Ok <==> kernel is Some
            &&& linux matches Ok(b) ==> (b matches BootloaderView::Linux {
                kernel_path,
                initrd_path,
                command_line,
            } && Some(kernel_path) == kernel && initrd_path == last_value(parts, "initrd"@) && (
            last_value(parts, "cmdline"@) matches Some(text) ==> command_line == text) && (
            last_value(parts, "cmdline"@) is None ==> command_line.len() == 0))
        }),
        ({
            let efi = bootloader_of(specification("efi"@, parts));
            let store = last_value(parts, "variable-store"@);
            &&& efi is Ok <==> store is Some
            &&& efi matches Ok(b) ==> (b matches BootloaderView::Efi {
                variable_store_path,
                create_variable_store,
            } && Some(variable_store_path) == store && create_variable_store == (last_value(
                parts,
                "create"@,
            ) is Some))
        }),
        ({
            let macos = bootloader_of(specification("macos"@, parts));
            let machine = last_value(parts, "machineIdentifierPath"@);
            let hardware = last_value(parts, "hardwareModelPath"@);
            let aux = last_value(parts, "auxImagePath"@);
            &&& macos is Ok <==> machine is Some && hardware is Some && aux is Some
            &&& macos matches Ok(b) ==> (b matches BootloaderView::MacOs {
                machine_identifier_path,
                hardware_model_path,
                aux_image_path,
            } && Some(machine_identifier_path) == machine && Some(hardware_model_path) == hardware
                && Some(aux_image_path) == aux)
        }),
{
    reveal_strlit("linux");
    reveal_strlit("efi");
    reveal_strlit("macos");
    assert("linux"@.len() == 5 && "efi"@.len() == 3 && "macos"@.len() == 5);
    assert("linux"@[0] != "macos"@[0]);
    lemma_lookup("linux"@, parts);
    lemma_lookup("efi"@, parts);
    lemma_lookup("macos"@, parts);
}

} // verus!
