//! The options of the command line and the machine that they ask for.
use vstd::prelude::*;

use super::parse::{
    bootloader_of, device_of, parse_bootloader, parse_device, parsed, Parsed,
};
use crate::config::bootloader::{Bootloader, BootloaderView, LinuxBootloader};
use crate::config::device::gpu::VirtioGpu;
use crate::config::device::input::VirtioInput;
use crate::config::device::storage::{DiskView, UsbMassStorage};
use crate::config::device::vsock::{VirtioVsock, VirtioVsockView};
use crate::config::device::{devices_view, Device, DeviceView};
use crate::config::platform::PlatformView;
use crate::config::vm::{built, empty_builder, VmBuilderView, VmConfig, VmConfigView};
use crate::error::error_text;
use crate::text::{clone_opt, join2, opt_text, texts};

verus! {

/// The options of the command line.
#[derive(Debug)]
pub struct Cli {
    /// Number of virtual CPUs.
    pub cpus: u32,
    /// Memory in MiB.
    pub memory: u64,
    /// Bootloader specification.
    pub bootloader: Option<String>,
    /// Kernel path (deprecated in favour of a bootloader specification).
    pub kernel: Option<String>,
    /// Initrd path (deprecated).
    pub initrd: Option<String>,
    /// Kernel command line (deprecated).
    pub kernel_cmdline: Option<String>,
    /// Device specifications.
    pub device: Vec<String>,
    /// Log level.
    pub log_level: String,
    /// Whether to open a window.
    pub gui: bool,
    /// Where to write the process identifier.
    pub pidfile: Option<String>,
    /// Cloud-init files, with commas between them.
    pub cloud_init: Option<String>,
    /// Ignition configuration file.
    pub ignition: Option<String>,
    /// Port for time synchronisation over a Virtio socket.
    pub timesync: Option<u32>,
    /// Seconds between two reports of the resource usage.
    pub metrics_interval: Option<u64>,
    /// Whether to enable nested virtualization.
    pub nested: bool,
}

/// The bootloader that the options ask for. The deprecated options for a
/// kernel come before a specification.
pub open spec fn selected_bootloader(
    kernel: Option<Seq<char>>,
    initrd: Option<Seq<char>>,
    cmdline: Option<Seq<char>>,
    specification: Option<Seq<char>>,
) -> Parsed<BootloaderView> {
    match kernel {
        Some(kernel_path) => Ok(
            BootloaderView::Linux {
                kernel_path,
                initrd_path: initrd,
                command_line: match cmdline {
                    Some(text) => text,
                    None => Seq::empty(),
                },
            },
        ),
        None => match specification {
            Some(text) => match bootloader_of(text) {
                Ok(b) => Ok(b),
                Err(m) => Err("error parsing bootloader: "@ + m),
            },
            None => Err("error: either --bootloader or --kernel must be specified"@),
        },
    }
}

/// The devices of several specifications, or the message for the first one
/// that cannot be read.
pub open spec fn devices_of(specs: Seq<Seq<char>>) -> Parsed<Seq<DeviceView>>
    decreases specs.len(),
{
    if specs.len() == 0 {
        Ok(Seq::empty())
    } else {
        match devices_of(specs.drop_last()) {
            Err(m) => Err(m),
            Ok(devices) => match device_of(specs.last()) {
                Ok(d) => Ok(devices.push(d)),
                Err(m) => Err("error parsing device: "@ + m),
            },
        }
    }
}

/// A list of parsed devices, over views.
pub open spec fn parsed_devices(r: Result<Vec<Device>, String>) -> Parsed<Seq<DeviceView>> {
    match r {
        Ok(v) => Ok(devices_view(v@)),
        Err(m) => Err(m@),
    }
}

/// Whether some device is a GPU.
pub open spec fn has_gpu(devices: Seq<DeviceView>) -> bool {
    exists|i: int| 0 <= i < devices.len() && (#[trigger] devices[i]) is VirtioGpu
}

/// Whether some device is an input device of this kind.
pub open spec fn has_input(devices: Seq<DeviceView>, kind: VirtioInput) -> bool {
    exists|i: int|
        0 <= i < devices.len() && (#[trigger] devices[i]) == DeviceView::VirtioInput(kind)
}

/// Whether some device is a Virtio socket.
pub open spec fn has_vsock(devices: Seq<DeviceView>) -> bool {
    exists|i: int| 0 <= i < devices.len() && (#[trigger] devices[i]) is VirtioVsock
}

/// One device where a condition holds.
pub open spec fn device_if(condition: bool, device: DeviceView) -> Seq<DeviceView> {
    if condition {
        seq![device]
    } else {
        Seq::empty()
    }
}

/// The devices with what a window needs and is not there yet: a GPU, a
/// keyboard and a pointing device.
pub open spec fn with_gui(devices: Seq<DeviceView>) -> Seq<DeviceView> {
    devices + device_if(
        !has_gpu(devices),
        DeviceView::VirtioGpu(VirtioGpu { width: 800, height: 600 }),
    ) + device_if(
        !has_input(devices, VirtioInput::Keyboard),
        DeviceView::VirtioInput(VirtioInput::Keyboard),
    ) + device_if(
        !has_input(devices, VirtioInput::Pointing),
        DeviceView::VirtioInput(VirtioInput::Pointing),
    )
}

/// The devices with a Virtio socket for time synchronisation, where there is
/// none yet.
pub open spec fn with_timesync(devices: Seq<DeviceView>) -> Seq<DeviceView> {
    devices + device_if(
        !has_vsock(devices),
        DeviceView::VirtioVsock(VirtioVsockView { port: 0, socket_url: None, listen: false }),
    )
}

/// The devices that the options ask for.
pub open spec fn requested_devices(specs: Seq<Seq<char>>, gui: bool, timesync: bool) -> Parsed<
    Seq<DeviceView>,
> {
    match devices_of(specs) {
        Ok(devices) => {
            let devices = if gui {
                with_gui(devices)
            } else {
                devices
            };
            Ok(
                if timesync {
                    with_timesync(devices)
                } else {
                    devices
                },
            )
        },
        Err(m) => Err(m),
    }
}

/// Adds what a window needs and is not there yet.
pub fn add_gui_devices(devices: &mut Vec<Device>)
    ensures
        devices_view(final(devices)@) == with_gui(devices_view(old(devices)@)),
{
    let ghost before = devices_view(devices@);
    let mut gpu = false;
    let mut keyboard = false;
    let mut pointing = false;
    let mut i: usize = 0;
    while i < devices.len()
        invariant
            i <= devices@.len(),
            before == devices_view(devices@),
            gpu == has_gpu(before.take(i as int)),
            keyboard == has_input(before.take(i as int), VirtioInput::Keyboard),
            pointing == has_input(before.take(i as int), VirtioInput::Pointing),
        decreases devices@.len() - i,
    {
        proof {
            lemma_take_more(before, i as int);
            assert(before[i as int] == devices@[i as int]@);
        }
        match &devices[i] {
            Device::VirtioGpu(_) => {
                gpu = true;
            },
            Device::VirtioInput(VirtioInput::Keyboard) => {
                keyboard = true;
            },
            Device::VirtioInput(VirtioInput::Pointing) => {
                pointing = true;
            },
            _ => {},
        }
        i += 1;
    }
    assert(before.take(devices@.len() as int) =~= before);
    if !gpu {
        push_device(devices, Device::VirtioGpu(VirtioGpu::default()));
    }
    if !keyboard {
        push_device(devices, Device::VirtioInput(VirtioInput::Keyboard));
    }
    if !pointing {
        push_device(devices, Device::VirtioInput(VirtioInput::Pointing));
    }
    assert(devices_view(devices@) =~= with_gui(before));
}

/// Adds a Virtio socket for time synchronisation, where there is none yet.
pub fn add_timesync_device(devices: &mut Vec<Device>)
    ensures
        devices_view(final(devices)@) == with_timesync(devices_view(old(devices)@)),
{
    let ghost before = devices_view(devices@);
    let mut found = false;
    let mut i: usize = 0;
    while i < devices.len()
        invariant
            i <= devices@.len(),
            before == devices_view(devices@),
            found == has_vsock(before.take(i as int)),
        decreases devices@.len() - i,
    {
        proof {
            lemma_take_more(before, i as int);
            assert(before[i as int] == devices@[i as int]@);
        }
        if let Device::VirtioVsock(_) = &devices[i] {
            found = true;
        }
        i += 1;
    }
    assert(before.take(devices@.len() as int) =~= before);
    if !found {
        push_device(
            devices,
            Device::VirtioVsock(VirtioVsock { port: 0, socket_url: None, listen: false }),
        );
    }
    assert(devices_view(devices@) =~= with_timesync(before));
}

fn push_device(devices: &mut Vec<Device>, device: Device)
    ensures
        devices_view(final(devices)@) == devices_view(old(devices)@).push(device@),
{
    devices.push(device);
    assert(devices_view(devices@) =~= devices_view(old(devices)@).push(device@));
}

proof fn lemma_take_more(devices: Seq<DeviceView>, i: int)
    requires
        0 <= i < devices.len(),
    ensures
        has_gpu(devices.take(i + 1)) == (has_gpu(devices.take(i)) || devices[i] is VirtioGpu),
        forall|kind: VirtioInput| #[trigger]
            has_input(devices.take(i + 1), kind) == (has_input(devices.take(i), kind)
                || devices[i] == DeviceView::VirtioInput(kind)),
        has_vsock(devices.take(i + 1)) == (has_vsock(devices.take(i))
            || devices[i] is VirtioVsock),
{
    let a = devices.take(i);
    let b = devices.take(i + 1);
    assert(b[i] == devices[i]);
    assert(forall|j: int| 0 <= j < i ==> #[trigger] a[j] == b[j]);
    if has_gpu(a) {
        let j = choose|j: int| 0 <= j < a.len() && (#[trigger] a[j]) is VirtioGpu;
        assert(b[j] is VirtioGpu);
    }
    if has_gpu(b) {
        let j = choose|j: int| 0 <= j < b.len() && (#[trigger] b[j]) is VirtioGpu;
        if j < i {
            assert(a[j] is VirtioGpu);
        }
    }
    if has_vsock(a) {
        let j = choose|j: int| 0 <= j < a.len() && (#[trigger] a[j]) is VirtioVsock;
        assert(b[j] is VirtioVsock);
    }
    if has_vsock(b) {
        let j = choose|j: int| 0 <= j < b.len() && (#[trigger] b[j]) is VirtioVsock;
        if j < i {
            assert(a[j] is VirtioVsock);
        }
    }
    assert forall|kind: VirtioInput| #[trigger]
        has_input(b, kind) == (has_input(a, kind) || devices[i] == DeviceView::VirtioInput(
            kind,
        )) by {
        if has_input(a, kind) {
            let j = choose|j: int|
                0 <= j < a.len() && (#[trigger] a[j]) == DeviceView::VirtioInput(kind);
            assert(b[j] == DeviceView::VirtioInput(kind));
        }
        if has_input(b, kind) {
            let j = choose|j: int|
                0 <= j < b.len() && (#[trigger] b[j]) == DeviceView::VirtioInput(kind);
            if j < i {
                assert(a[j] == DeviceView::VirtioInput(kind));
            }
        }
    }
}

/// The devices with the cloud-init image behind them: a USB disk that the
/// guest can only read.
pub open spec fn with_cloud_init(devices: Seq<DeviceView>, iso_path: Seq<char>) -> Seq<DeviceView> {
    devices.push(DeviceView::UsbMassStorage(DiskView { path: iso_path, read_only: true }))
}

/// The image is one more device behind the others, which stay as they are. It
/// is a USB disk at the path of the image, and the guest cannot write to it.
pub proof fn law_cloud_init_image_is_attached(devices: Seq<DeviceView>, iso_path: Seq<char>)
    ensures
        ({
            let all = with_cloud_init(devices, iso_path);
            &&& all.len() == devices.len() + 1
            &&& forall|i: int| 0 <= i < devices.len() ==> #[trigger] all[i] == devices[i]
            &&& all.last() matches DeviceView::UsbMassStorage(disk) && disk.path == iso_path
                && disk.read_only
        }),
{
}

/// Adds the cloud-init image behind the devices: a USB disk that the guest can
/// only read.
pub fn attach_cloud_init(devices: &mut Vec<Device>, iso_path: String)
    ensures
        devices_view(final(devices)@) == with_cloud_init(devices_view(old(devices)@), iso_path@),
{
    push_device(
        devices,
        Device::UsbMassStorage(UsbMassStorage { path: iso_path, read_only: true }),
    );
}

impl Cli {
    /// The bootloader that the options ask for, or the message to end with.
    pub fn select_bootloader(&self) -> (r: Result<Bootloader, String>)
        ensures
            parsed(r) == selected_bootloader(
                opt_text(self.kernel),
                opt_text(self.initrd),
                opt_text(self.kernel_cmdline),
                opt_text(self.bootloader),
            ),
    {
        if let Some(kernel) = &self.kernel {
            return Ok(
                Bootloader::Linux(
                    LinuxBootloader {
                        kernel_path: kernel.clone(),
                        initrd_path: clone_opt(&self.initrd),
                        command_line: match &self.kernel_cmdline {
                            Some(text) => text.clone(),
                            None => String::new(),
                        },
                    },
                ),
            );
        }
        match &self.bootloader {
            Some(text) => match parse_bootloader(text.as_str()) {
                Ok(b) => Ok(b),
                Err(m) => Err(join2("error parsing bootloader: ", m.as_str())),
            },
            None => Err("error: either --bootloader or --kernel must be specified".to_owned()),
        }
    }

    /// The devices that the options ask for, or the message to end with.
    pub fn select_devices(&self) -> (r: Result<Vec<Device>, String>)
        ensures
            parsed_devices(r) == requested_devices(
                texts(self.device@),
                self.gui,
                self.timesync is Some,
            ),
    {
        let ghost specs = texts(self.device@);
        let mut devices: Vec<Device> = Vec::new();
        let mut i: usize = 0;
        assert(specs.take(0) =~= Seq::empty());
        assert(devices_view(devices@) =~= Seq::empty());
        while i < self.device.len()
            invariant
                i <= self.device@.len(),
                specs == texts(self.device@),
                devices_of(specs.take(i as int)) == Parsed::<Seq<DeviceView>>::Ok(
                    devices_view(devices@),
                ),
            decreases self.device@.len() - i,
        {
            let ghost before = devices_view(devices@);
            proof {
                assert(specs.take(i + 1).drop_last() =~= specs.take(i as int));
                assert(specs.take(i + 1).last() == self.device@[i as int]@);
            }
            match parse_device(self.device[i].as_str()) {
                Ok(d) => {
                    devices.push(d);
                    assert(devices_view(devices@) =~= before.push(d@));
                },
                Err(m) => {
                    proof {
                        lemma_first_error_stays(specs, i + 1);
                    }
                    return Err(join2("error parsing device: ", m.as_str()));
                },
            }
            i += 1;
        }
        assert(specs.take(self.device@.len() as int) =~= specs);
        if self.gui {
            add_gui_devices(&mut devices);
        }
        if self.timesync.is_some() {
            add_timesync_device(&mut devices);
        }
        Ok(devices)
    }

    /// The configuration of the machine, or the message to end with.
    pub fn build_config(&self, bootloader: Bootloader, devices: Vec<Device>) -> (r: Result<
        VmConfig,
        String,
    >)
        ensures
            parsed(r) == requested_config(
                self.cpus,
                self.memory,
                self.nested,
                bootloader@,
                devices_view(devices@),
            ),
    {
        let builder = VmConfig::builder().cpus(self.cpus).memory_mib(self.memory).bootloader(
            bootloader,
        ).devices(devices).nested(self.nested);
        assert(builder@.devices =~= devices_view(devices@));
        match builder.build() {
            Ok(config) => Ok(config),
            Err(e) => Err(join2("error building VM config: ", e.to_string().as_str())),
        }
    }

    /// The seconds between two reports of the resource usage: at least one.
    pub fn metrics_seconds(&self) -> (r: Option<u64>)
        ensures
            r == report_interval(self.metrics_interval),
    {
        match self.metrics_interval {
            Some(secs) => Some(
                if secs < 1 {
                    1
                } else {
                    secs
                },
            ),
            None => None,
        }
    }
}

/// The seconds between two reports of the resource usage: at least one.
pub open spec fn report_interval(asked: Option<u64>) -> Option<u64> {
    match asked {
        Some(secs) => Some(
            if secs < 1 {
                1
            } else {
                secs
            },
        ),
        None => None,
    }
}

/// There are reports exactly where an interval was asked for. They are that
/// far apart, or one second where that would be no time at all.
pub proof fn law_reports_are_a_second_apart_at_least(asked: Option<u64>)
    ensures
        report_interval(asked) is Some <==> asked is Some,
        asked matches Some(secs) ==> (secs >= 1 ==> report_interval(asked) == asked) && (secs == 0
            ==> report_interval(asked) == Some(1u64)),
{
}

/// The configuration that the options ask for.
pub open spec fn requested_config(
    cpus: u32,
    memory: u64,
    nested: bool,
    bootloader: BootloaderView,
    devices: Seq<DeviceView>,
) -> Parsed<VmConfigView> {
    match built(
        VmBuilderView {
            cpus: Some(cpus),
            memory_mib: Some(memory),
            bootloader: Some(bootloader),
            devices,
            nested,
            ..empty_builder()
        },
    ) {
        Ok(config) => Ok(config),
        Err(e) => Err("error building VM config: "@ + error_text(e)),
    }
}

/// Further specifications do not change the message for a bad one.
proof fn lemma_first_error_stays(specs: Seq<Seq<char>>, i: int)
    requires
        0 <= i <= specs.len(),
        devices_of(specs.take(i)) is Err,
    ensures
        devices_of(specs) == devices_of(specs.take(i)),
    decreases specs.len() - i,
{
    if i < specs.len() {
        assert(specs.take(i + 1).drop_last() =~= specs.take(i));
        lemma_first_error_stays(specs, i + 1);
    } else {
        assert(specs.take(i) =~= specs);
    }
}

/// The first specification that cannot be read decides the message.
pub proof fn law_first_bad_device_decides(specs: Seq<Seq<char>>, i: int, m: Seq<char>)
    requires
        0 <= i < specs.len(),
        forall|j: int| 0 <= j < i ==> device_of(#[trigger] specs[j]) is Ok,
        device_of(specs[i]) == Parsed::<DeviceView>::Err(m),
    ensures
        devices_of(specs) == Parsed::<Seq<DeviceView>>::Err("error parsing device: "@ + m),
{
    lemma_good_prefix(specs, i);
    assert(specs.take(i + 1).drop_last() =~= specs.take(i));
    lemma_first_error_stays(specs, i + 1);
}

proof fn lemma_good_prefix(specs: Seq<Seq<char>>, i: int)
    requires
        0 <= i <= specs.len(),
        forall|j: int| 0 <= j < i ==> device_of(#[trigger] specs[j]) is Ok,
    ensures
        devices_of(specs.take(i)) is Ok,
    decreases i,
{
    if i > 0 {
        lemma_good_prefix(specs, i - 1);
        assert(specs.take(i).drop_last() =~= specs.take(i - 1));
        assert(specs.take(i).last() == specs[i - 1]);
    }
}

/// A window has everything it needs, what was asked for comes first and
/// unchanged, and asking again adds nothing.
pub proof fn law_gui_devices(devices: Seq<DeviceView>)
    ensures
        ({
            let all = with_gui(devices);
            &&& all.take(devices.len() as int) == devices
            &&& all.len() <= devices.len() + 3
            &&& has_gpu(all)
            &&& has_input(all, VirtioInput::Keyboard)
            &&& has_input(all, VirtioInput::Pointing)
            &&& with_gui(all) == all
        }),
{
    let all = with_gui(devices);
    let a = device_if(
        !has_gpu(devices),
        DeviceView::VirtioGpu(VirtioGpu { width: 800, height: 600 }),
    );
    let b = device_if(
        !has_input(devices, VirtioInput::Keyboard),
        DeviceView::VirtioInput(VirtioInput::Keyboard),
    );
    let c = device_if(
        !has_input(devices, VirtioInput::Pointing),
        DeviceView::VirtioInput(VirtioInput::Pointing),
    );
    let n = devices.len() as int;
    assert(all.take(n) =~= devices);
    assert(forall|i: int| 0 <= i < n ==> #[trigger] all[i] == devices[i]);
    if has_gpu(devices) {
        let i = choose|i: int| 0 <= i < n && (#[trigger] devices[i]) is VirtioGpu;
        assert(all[i] is VirtioGpu);
    } else {
        assert(all[n] == a[0]);
    }
    if has_input(devices, VirtioInput::Keyboard) {
        let i = choose|i: int|
            0 <= i < n && (#[trigger] devices[i]) == DeviceView::VirtioInput(
                VirtioInput::Keyboard,
            );
        assert(all[i] == DeviceView::VirtioInput(VirtioInput::Keyboard));
    } else {
        assert(all[n + a.len()] == b[0]);
    }
    if has_input(devices, VirtioInput::Pointing) {
        let i = choose|i: int|
            0 <= i < n && (#[trigger] devices[i]) == DeviceView::VirtioInput(
                VirtioInput::Pointing,
            );
        assert(all[i] == DeviceView::VirtioInput(VirtioInput::Pointing));
    } else {
        assert(all[n + a.len() + b.len()] == c[0]);
    }
    assert(with_gui(all) =~= all);
}

/// Time synchronisation always has a socket, what was asked for comes first
/// and unchanged, and asking again adds nothing.
pub proof fn law_timesync_device(devices: Seq<DeviceView>)
    ensures
        ({
            let all = with_timesync(devices);
            &&& all.take(devices.len() as int) == devices
            &&& has_vsock(all)
            &&& with_timesync(all) == all
        }),
{
    let all = with_timesync(devices);
    let n = devices.len() as int;
    assert(all.take(n) =~= devices);
    if has_vsock(devices) {
        let i = choose|i: int| 0 <= i < n && (#[trigger] devices[i]) is VirtioVsock;
        assert(all[i] is VirtioVsock);
    } else {
        assert(all[n] is VirtioVsock);
    }
    assert(with_timesync(all) =~= all);
}

/// The configuration that is built has the number of CPUs, the memory and the
/// devices that were asked for.
pub proof fn law_configuration_is_as_asked(
    cpus: u32,
    memory: u64,
    nested: bool,
    bootloader: BootloaderView,
    devices: Seq<DeviceView>,
)
    requires
        cpus >= 1,
        memory >= 128,
    ensures
        requested_config(cpus, memory, nested, bootloader, devices) == Parsed::<VmConfigView>::Ok(
            VmConfigView {
                cpus,
                memory_mib: memory,
                bootloader,
                platform: PlatformView::Generic,
                devices,
                nested,
                machine_identifier: None,
            },
        ),
{
}

/// What the options select. The devices of the specifications come first, each
/// in its place. A window has a GPU, a keyboard and a pointing device, with or
/// without time synchronisation; time synchronisation has a Virtio socket,
/// with or without a window. Nothing is added where neither was asked for.
pub proof fn law_selected_devices(specs: Seq<Seq<char>>, gui: bool, timesync: bool)
    ensures
        requested_devices(specs, gui, timesync) is Ok <==> forall|j: int|
            0 <= j < specs.len() ==> device_of(#[trigger] specs[j]) is Ok,
        requested_devices(specs, gui, timesync) matches Ok(all) ==> {
            &&& all.len() >= specs.len()
            &&& forall|j: int|
                0 <= j < specs.len() ==> Parsed::<DeviceView>::Ok(#[trigger] all[j]) == device_of(
                    specs[j],
                )
            &&& timesync ==> exists|i: int| 0 <= i < all.len() && (#[trigger] all[i]) is VirtioVsock
            &&& gui ==> exists|i: int| 0 <= i < all.len() && (#[trigger] all[i]) is VirtioGpu
            &&& gui ==> exists|i: int|
                0 <= i < all.len() && (#[trigger] all[i]) == DeviceView::VirtioInput(
                    VirtioInput::Keyboard,
                )
            &&& gui ==> exists|i: int|
                0 <= i < all.len() && (#[trigger] all[i]) == DeviceView::VirtioInput(
                    VirtioInput::Pointing,
                )
            &&& !gui && !timesync ==> all.len() == specs.len()
        },
{
    lemma_parsed_devices(specs);
    if let Ok(devices) = devices_of(specs) {
        let n = devices.len() as int;
        let shown = if gui {
            with_gui(devices)
        } else {
            devices
        };
        if gui {
            law_gui_devices(devices);
            assert(forall|j: int| 0 <= j < n ==> #[trigger] shown[j] == shown.take(n)[j]);
        }
        let all = if timesync {
            with_timesync(shown)
        } else {
            shown
        };
        let m = shown.len() as int;
        if timesync {
            law_timesync_device(shown);
            assert(forall|j: int| 0 <= j < m ==> #[trigger] all[j] == all.take(m)[j]);
        }
        assert(forall|j: int| 0 <= j < m ==> #[trigger] all[j] == shown[j]);
        if gui {
            let g = choose|i: int| 0 <= i < m && (#[trigger] shown[i]) is VirtioGpu;
            assert(all[g] is VirtioGpu);
            let k = choose|i: int|
                0 <= i < m && (#[trigger] shown[i]) == DeviceView::VirtioInput(
                    VirtioInput::Keyboard,
                );
            assert(all[k] == DeviceView::VirtioInput(VirtioInput::Keyboard));
            let p = choose|i: int|
                0 <= i < m && (#[trigger] shown[i]) == DeviceView::VirtioInput(
                    VirtioInput::Pointing,
                );
            assert(all[p] == DeviceView::VirtioInput(VirtioInput::Pointing));
        }
    }
}

/// What is added to the selected devices: at most one GPU of 800 by 600, one
/// keyboard and one pointing device for a window, and one Virtio socket
/// without a port or a socket on the host for time synchronisation, each only
/// where the specifications ask for none.
pub proof fn law_added_devices(specs: Seq<Seq<char>>, gui: bool, timesync: bool, k: int)
    requires
        requested_devices(specs, gui, timesync) is Ok,
        specs.len() <= k < requested_devices(specs, gui, timesync)->Ok_0.len(),
    ensures
        ({
            let all = requested_devices(specs, gui, timesync)->Ok_0;
            let n = specs.len();
            &&& all[k] is VirtioGpu || all[k] is VirtioInput || all[k] is VirtioVsock
            &&& all[k] matches DeviceView::VirtioGpu(g) ==> gui && g.width == 800 && g.height == 600
                && forall|j: int| 0 <= j < n ==> !((#[trigger] all[j]) is VirtioGpu)
            &&& all[k] is VirtioInput ==> gui && forall|j: int|
                0 <= j < n ==> (#[trigger] all[j]) != all[k]
            &&& all[k] matches DeviceView::VirtioVsock(v) ==> timesync && v.port == 0
                && v.socket_url is None && !v.listen && forall|j: int|
                0 <= j < n ==> !((#[trigger] all[j]) is VirtioVsock)
            &&& forall|j: int| n <= j < all.len() && j != k ==> (#[trigger] all[j]) != all[k]
        }),
{
    lemma_parsed_devices(specs);
    let devices = devices_of(specs)->Ok_0;
    let n = devices.len() as int;
    let shown = if gui {
        with_gui(devices)
    } else {
        devices
    };
    let all = requested_devices(specs, gui, timesync)->Ok_0;
    let m = shown.len() as int;
    assert(forall|j: int| 0 <= j < n ==> #[trigger] shown[j] == devices[j]);
    assert(forall|j: int| 0 <= j < m ==> #[trigger] all[j] == shown[j]);
    assert forall|j: int| 0 <= j < n implies #[trigger] all[j] == devices[j] by {
        assert(all[j] == shown[j]);
    }
    if all[k] is VirtioVsock {
        assert forall|j: int| 0 <= j < n implies !((#[trigger] all[j]) is VirtioVsock) by {
            assert(all[j] == shown[j]);
        }
    }
    if all[k] is VirtioGpu {
        assert(all[k] == shown[k]);
    }
    if all[k] is VirtioInput {
        assert(all[k] == shown[k]);
    }
}

proof fn lemma_parsed_devices(specs: Seq<Seq<char>>)
    ensures
        devices_of(specs) is Ok <==> forall|j: int|
            0 <= j < specs.len() ==> device_of(#[trigger] specs[j]) is Ok,
        devices_of(specs) matches Ok(devices) ==> devices.len() == specs.len() && forall|j: int|
            0 <= j < specs.len() ==> Parsed::<DeviceView>::Ok(#[trigger] devices[j]) == device_of(
                specs[j],
            ),
    decreases specs.len(),
{
    if specs.len() > 0 {
        let before = specs.drop_last();
        lemma_parsed_devices(before);
        assert(forall|j: int| 0 <= j < before.len() ==> #[trigger] before[j] == specs[j]);
        assert(specs.last() == specs[specs.len() - 1]);
        if let Ok(devices) = devices_of(specs) {
            let d = devices_of(before)->Ok_0;
            assert forall|j: int| 0 <= j < specs.len() implies Parsed::<DeviceView>::Ok(
                #[trigger] devices[j],
            ) == device_of(specs[j]) by {
                if j < before.len() {
                    assert(devices[j] == d[j]);
                    assert(before[j] == specs[j]);
                }
            }
            assert forall|j: int| 0 <= j < specs.len() implies device_of(
                #[trigger] specs[j],
            ) is Ok by {
                assert(Parsed::<DeviceView>::Ok(devices[j]) == device_of(specs[j]));
            }
        } else if forall|j: int| 0 <= j < specs.len() ==> device_of(#[trigger] specs[j]) is Ok {
            assert forall|j: int| 0 <= j < before.len() implies device_of(
                #[trigger] before[j],
            ) is Ok by {
                assert(before[j] == specs[j]);
            }
        }
    }
}

/// A kernel that was named boots with its own initrd and command line,
/// whatever specification stands beside it; without one the specification
/// decides, and without either there is no bootloader.
pub proof fn law_selected_bootloader(
    kernel: Seq<char>,
    initrd: Option<Seq<char>>,
    cmdline: Option<Seq<char>>,
    specification: Option<Seq<char>>,
)
    ensures
        selected_bootloader(Some(kernel), initrd, cmdline, specification) matches Ok(
            BootloaderView::Linux { kernel_path, initrd_path, command_line },
        ) && kernel_path == kernel && initrd_path == initrd && (cmdline matches Some(text)
            ==> command_line == text) && (cmdline is None ==> command_line.len() == 0),
        specification is None ==> selected_bootloader(None, initrd, cmdline, specification) is Err,
        specification matches Some(text) ==> {
            &&& bootloader_of(text) is Ok ==> selected_bootloader(
                None,
                initrd,
                cmdline,
                specification,
            ) == bootloader_of(text)
            &&& bootloader_of(text) is Err ==> selected_bootloader(
                None,
                initrd,
                cmdline,
                specification,
            ) is Err
        },
{
}

/// Sizes that no machine can have are refused.
pub proof fn law_configurations_that_are_refused(
    cpus: u32,
    memory: u64,
    nested: bool,
    bootloader: BootloaderView,
    devices: Seq<DeviceView>,
)
    ensures
        requested_config(cpus, memory, nested, bootloader, devices) is Err <==> cpus == 0 || memory
            < 128,
{
}

} // verus!
