//! The protocol of `vmnet.framework`: return codes, the description of an
//! interface to start, and what the framework reports back.
use vstd::prelude::*;

use crate::config::device::network::{
    ipv4_of, ipv4_text, law_ipv4_text_round_trip, law_mac_text_round_trip, mac_of, mac_text,
    Ipv4Addr, MacAddress, VmnetConfig, VmnetConfigView, VmnetMode,
};
use crate::error::{error_text, Error, ErrorView};
use crate::text::{clone_opt, contains_char, join2, join3, opt_text};

verus! {

/// Return codes of the framework.
#[derive(Debug, Clone, Copy, PartialEq, Eq, Structural)]
pub enum VmnetReturn {
    Success,
    Failure,
    MemFailure,
    InvalidArgument,
    SetupIncomplete,
    InvalidAccess,
    PacketTooBig,
    BufferExhausted,
    TooManyPackets,
    SharingServiceBusy,
    Unknown,
}

impl VmnetReturn {
    /// The framework's number for the code; `-1` for a code without one.
    pub open spec fn number(self) -> i32 {
        match self {
            VmnetReturn::Success => 1000,
            VmnetReturn::Failure => 1001,
            VmnetReturn::MemFailure => 1002,
            VmnetReturn::InvalidArgument => 1003,
            VmnetReturn::SetupIncomplete => 1004,
            VmnetReturn::InvalidAccess => 1005,
            VmnetReturn::PacketTooBig => 1006,
            VmnetReturn::BufferExhausted => 1007,
            VmnetReturn::TooManyPackets => 1008,
            VmnetReturn::SharingServiceBusy => 1009,
            VmnetReturn::Unknown => -1i32,
        }
    }

    /// The code that a number stands for.
    pub open spec fn of_number(v: i32) -> VmnetReturn {
        if v == 1000 {
            VmnetReturn::Success
        } else if v == 1001 {
            VmnetReturn::Failure
        } else if v == 1002 {
            VmnetReturn::MemFailure
        } else if v == 1003 {
            VmnetReturn::InvalidArgument
        } else if v == 1004 {
            VmnetReturn::SetupIncomplete
        } else if v == 1005 {
            VmnetReturn::InvalidAccess
        } else if v == 1006 {
            VmnetReturn::PacketTooBig
        } else if v == 1007 {
            VmnetReturn::BufferExhausted
        } else if v == 1008 {
            VmnetReturn::TooManyPackets
        } else if v == 1009 {
            VmnetReturn::SharingServiceBusy
        } else {
            VmnetReturn::Unknown
        }
    }

    /// What the code means, in words.
    pub open spec fn meaning(self) -> Seq<char> {
        match self {
            VmnetReturn::Success => "success"@,
            VmnetReturn::Failure => "generic failure"@,
            VmnetReturn::MemFailure => "memory allocation failure"@,
            VmnetReturn::InvalidArgument => "invalid argument"@,
            VmnetReturn::SetupIncomplete => "setup incomplete"@,
            VmnetReturn::InvalidAccess => "invalid access (entitlement missing or not root?)"@,
            VmnetReturn::PacketTooBig => "packet too big"@,
            VmnetReturn::BufferExhausted => "buffer exhausted"@,
            VmnetReturn::TooManyPackets => "too many packets"@,
            VmnetReturn::SharingServiceBusy =>
                "sharing service busy (another Shared-mode iface active?)"@,
            VmnetReturn::Unknown => "unknown return code"@,
        }
    }

    /// What the code means, in words.
    pub fn to_string(&self) -> (r: String)
        ensures
            r@ == self.meaning(),
    {
        match self {
            VmnetReturn::Success => "success".to_owned(),
            VmnetReturn::Failure => "generic failure".to_owned(),
            VmnetReturn::MemFailure => "memory allocation failure".to_owned(),
            VmnetReturn::InvalidArgument => "invalid argument".to_owned(),
            VmnetReturn::SetupIncomplete => "setup incomplete".to_owned(),
            VmnetReturn::InvalidAccess =>
                "invalid access (entitlement missing or not root?)".to_owned(),
            VmnetReturn::PacketTooBig => "packet too big".to_owned(),
            VmnetReturn::BufferExhausted => "buffer exhausted".to_owned(),
            VmnetReturn::TooManyPackets => "too many packets".to_owned(),
            VmnetReturn::SharingServiceBusy =>
                "sharing service busy (another Shared-mode iface active?)".to_owned(),
            VmnetReturn::Unknown => "unknown return code".to_owned(),
        }
    }
}

impl From<i32> for VmnetReturn {
    fn from(v: i32) -> (r: Self)
        ensures
            r == VmnetReturn::of_number(v),
    {
        match v {
            1000 => VmnetReturn::Success,
            1001 => VmnetReturn::Failure,
            1002 => VmnetReturn::MemFailure,
            1003 => VmnetReturn::InvalidArgument,
            1004 => VmnetReturn::SetupIncomplete,
            1005 => VmnetReturn::InvalidAccess,
            1006 => VmnetReturn::PacketTooBig,
            1007 => VmnetReturn::BufferExhausted,
            1008 => VmnetReturn::TooManyPackets,
            1009 => VmnetReturn::SharingServiceBusy,
            _ => VmnetReturn::Unknown,
        }
    }
}

impl vstd::std_specs::convert::FromSpecImpl<i32> for VmnetReturn {
    open spec fn obeys_from_spec() -> bool {
        true
    }

    open spec fn from_spec(v: i32) -> Self {
        VmnetReturn::of_number(v)
    }
}

/// Every code is read back from its number, and every number without a code
/// is `Unknown`.
pub proof fn law_vmnet_codes_round_trip(code: VmnetReturn, v: i32)
    ensures
        VmnetReturn::of_number(code.number()) == code,
        !(1000 <= v <= 1009) <==> VmnetReturn::of_number(v) == VmnetReturn::Unknown,
        1000 <= v <= 1009 ==> VmnetReturn::of_number(v).number() == v,
{
}

/// The framework's operating modes.
#[derive(Debug, Clone, Copy, PartialEq, Eq, Structural)]
pub enum OperatingMode {
    Shared,
    Host,
    Bridged,
}

impl OperatingMode {
    /// The mode that stands for a configured one.
    pub open spec fn of_mode(m: VmnetMode) -> OperatingMode {
        match m {
            VmnetMode::Shared => OperatingMode::Shared,
            VmnetMode::Host => OperatingMode::Host,
            VmnetMode::Bridged => OperatingMode::Bridged,
        }
    }

    /// The framework's number for the mode.
    pub open spec fn code(self) -> u64 {
        match self {
            OperatingMode::Shared => 1,
            OperatingMode::Host => 2,
            OperatingMode::Bridged => 3,
        }
    }

    /// The framework's number for the mode.
    pub fn number(&self) -> (r: u64)
        ensures
            r == self.code(),
    {
        match self {
            OperatingMode::Shared => 1,
            OperatingMode::Host => 2,
            OperatingMode::Bridged => 3,
        }
    }
}

impl From<VmnetMode> for OperatingMode {
    fn from(m: VmnetMode) -> (r: Self)
        ensures
            r == OperatingMode::of_mode(m),
    {
        match m {
            VmnetMode::Shared => OperatingMode::Shared,
            VmnetMode::Host => OperatingMode::Host,
            VmnetMode::Bridged => OperatingMode::Bridged,
        }
    }
}

impl vstd::std_specs::convert::FromSpecImpl<VmnetMode> for OperatingMode {
    open spec fn obeys_from_spec() -> bool {
        true
    }

    open spec fn from_spec(m: VmnetMode) -> Self {
        OperatingMode::of_mode(m)
    }
}

/// A failure of the framework: what was attempted, the code, and possibly
/// more.
#[derive(Debug)]
pub struct VmnetError {
    pub code: VmnetReturn,
    pub context: &'static str,
    pub detail: Option<String>,
}

/// A [`VmnetError`] over sequences of characters.
pub struct VmnetErrorView {
    pub code: VmnetReturn,
    pub context: Seq<char>,
    pub detail: Option<Seq<char>>,
}

impl Clone for VmnetError {
    fn clone(&self) -> (r: Self)
        ensures
            r@ == self@,
    {
        VmnetError { code: self.code, context: self.context, detail: clone_opt(&self.detail) }
    }
}

impl View for VmnetError {
    type V = VmnetErrorView;

    open spec fn view(&self) -> VmnetErrorView {
        VmnetErrorView {
            code: self.code,
            context: self.context@,
            detail: opt_text(self.detail),
        }
    }
}

/// The message shown for a failure.
pub open spec fn vmnet_error_text(e: VmnetErrorView) -> Seq<char> {
    match e.detail {
        Some(d) => e.context + ": "@ + e.code.meaning() + " ("@ + d + ")"@,
        None => e.context + ": "@ + e.code.meaning(),
    }
}

impl VmnetError {
    /// A failure without further detail.
    pub fn new(code: VmnetReturn, context: &'static str) -> (r: Self)
        ensures
            r@ == (VmnetErrorView { code, context: context@, detail: None }),
    {
        VmnetError { code, context, detail: None }
    }

    /// The message shown for this failure.
    pub fn to_string(&self) -> (r: String)
        ensures
            r@ == vmnet_error_text(self@),
    {
        let code = self.code.to_string();
        let mut r = join3(self.context, ": ", code.as_str());
        if let Some(d) = &self.detail {
            r.append(" (");
            r.append(d.as_str());
            r.append(")");
        }
        r
    }

    /// The failure as an error of the library.
    pub fn into_error(self) -> (r: Error)
        ensures
            r@ == ErrorView::InvalidDevice("vmnet: "@ + vmnet_error_text(self@)),
    {
        Error::InvalidDevice(join2("vmnet: ", self.to_string().as_str()))
    }
}

/// The outcome of a call to the framework, over views.
pub open spec fn vmnet_outcome<T>(r: Result<T, VmnetError>) -> Result<T, VmnetErrorView> {
    match r {
        Ok(v) => Ok(v),
        Err(e) => Err(e@),
    }
}

/// What a return code means: success, or the failure of what was attempted.
pub open spec fn result_of_code(ret: i32, context: Seq<char>) -> Result<(), VmnetErrorView> {
    let code = VmnetReturn::of_number(ret);
    if code == VmnetReturn::Success {
        Ok(())
    } else {
        Err(VmnetErrorView { code, context, detail: None })
    }
}

/// What a return code means: success, or the failure of what was attempted.
pub fn check_return(ret: i32, context: &'static str) -> (r: Result<(), VmnetError>)
    ensures
        vmnet_outcome(r) == result_of_code(ret, context@),
{
    let code = VmnetReturn::from(ret);
    if code == VmnetReturn::Success {
        Ok(())
    } else {
        Err(VmnetError::new(code, context))
    }
}

/// A key of the description of an interface.
#[derive(Debug, Clone, Copy, PartialEq, Eq, Structural)]
pub enum StartKey {
    OperationMode,
    SharedInterfaceName,
    StartAddress,
    EndAddress,
    SubnetMask,
    AllocateMacAddress,
    EnableIsolation,
}

/// One entry of the description of an interface.
#[derive(Debug)]
pub enum StartSetting {
    Number(StartKey, u64),
    Text(StartKey, String),
    Flag(StartKey, bool),
}

/// A [`StartSetting`] over sequences of characters.
pub enum StartSettingView {
    Number(StartKey, u64),
    Text(StartKey, Seq<char>),
    Flag(StartKey, bool),
}

impl View for StartSetting {
    type V = StartSettingView;

    open spec fn view(&self) -> StartSettingView {
        match *self {
            StartSetting::Number(k, n) => StartSettingView::Number(k, n),
            StartSetting::Text(k, s) => StartSettingView::Text(k, s@),
            StartSetting::Flag(k, b) => StartSettingView::Flag(k, b),
        }
    }
}

/// The views of a list of settings.
pub open spec fn settings_view(settings: Seq<StartSetting>) -> Seq<StartSettingView> {
    settings.map_values(|s: StartSetting| s@)
}

/// The setting for an optional text.
pub open spec fn text_setting(key: StartKey, text: Option<Seq<char>>) -> Seq<StartSettingView> {
    match text {
        Some(t) => seq![StartSettingView::Text(key, t)],
        None => Seq::empty(),
    }
}

/// The text of an optional address.
pub open spec fn opt_ipv4_text(a: Option<Ipv4Addr>) -> Option<Seq<char>> {
    match a {
        Some(a) => Some(ipv4_text(a)),
        None => None,
    }
}

/// The settings that are specific to a mode: the interface to bridge to in
/// Bridged mode, the addresses in the others.
pub open spec fn mode_settings(cfg: VmnetConfigView) -> Seq<StartSettingView> {
    if cfg.mode == VmnetMode::Bridged {
        text_setting(StartKey::SharedInterfaceName, cfg.bridged_interface)
    } else {
        text_setting(StartKey::StartAddress, opt_ipv4_text(cfg.start_address)) + text_setting(
            StartKey::EndAddress,
            opt_ipv4_text(cfg.end_address),
        ) + text_setting(StartKey::SubnetMask, opt_ipv4_text(cfg.subnet_mask))
    }
}

/// The description of the interface that a configuration asks for. Bridged
/// mode needs an interface to bridge to and ignores the addresses; the other
/// modes ignore that interface.
pub open spec fn start_settings(cfg: VmnetConfigView) -> Result<
    Seq<StartSettingView>,
    ErrorView,
> {
    if cfg.mode == VmnetMode::Bridged && cfg.bridged_interface is None {
        Err(
            ErrorView::InvalidDevice(
                "VmnetConfig::bridged_interface is required when mode is Bridged"@,
            ),
        )
    } else if cfg.mode == VmnetMode::Bridged && cfg.bridged_interface->0.contains('\0') {
        Err(ErrorView::InvalidDevice("VmnetConfig::bridged_interface contains a NUL byte"@))
    } else {
        Ok(
            seq![
                StartSettingView::Number(
                    StartKey::OperationMode,
                    OperatingMode::of_mode(cfg.mode).code(),
                ),
            ] + mode_settings(cfg) + seq![
                StartSettingView::Flag(StartKey::AllocateMacAddress, cfg.allocate_mac),
                StartSettingView::Flag(StartKey::EnableIsolation, cfg.isolated),
            ],
        )
    }
}

/// What a mode ignores has no bearing on the interface: the addresses in
/// Bridged mode, the interface to bridge to in the others.
pub proof fn law_ignored_settings_do_not_matter(a: VmnetConfigView, b: VmnetConfigView)
    requires
        a.mode == b.mode,
        a.allocate_mac == b.allocate_mac,
        a.isolated == b.isolated,
        a.mode == VmnetMode::Bridged ==> a.bridged_interface == b.bridged_interface,
        a.mode != VmnetMode::Bridged ==> a.start_address == b.start_address && a.end_address
            == b.end_address && a.subnet_mask == b.subnet_mask,
    ensures
        start_settings(a) == start_settings(b),
{
}

/// Only Bridged mode can be asked for in vain.
pub proof fn law_other_modes_have_a_description(cfg: VmnetConfigView)
    requires
        cfg.mode != VmnetMode::Bridged,
    ensures
        start_settings(cfg) is Ok,
{
}

/// The outcome of describing an interface, over views.
pub open spec fn settings_outcome<E: View>(r: Result<Vec<StartSetting>, E>) -> Result<
    Seq<StartSettingView>,
    E::V,
> {
    match r {
        Ok(v) => Ok(settings_view(v@)),
        Err(e) => Err(e@),
    }
}

fn push_setting(settings: &mut Vec<StartSetting>, s: StartSetting)
    ensures
        settings_view(final(settings)@) == settings_view(old(settings)@) + seq![s@],
{
    settings.push(s);
    assert(settings_view(settings@) =~= settings_view(old(settings)@) + seq![s@]);
}

fn push_address(settings: &mut Vec<StartSetting>, key: StartKey, a: Option<Ipv4Addr>)
    ensures
        settings_view(final(settings)@) == settings_view(old(settings)@) + text_setting(
            key,
            opt_ipv4_text(a),
        ),
{
    match a {
        Some(a) => push_setting(settings, StartSetting::Text(key, a.to_string())),
        None => {
            assert(settings_view(settings@) + Seq::empty() =~= settings_view(settings@));
        },
    }
}

fn push_mode_settings(settings: &mut Vec<StartSetting>, cfg: &VmnetConfig)
    ensures
        settings_view(final(settings)@) == settings_view(old(settings)@) + mode_settings(cfg@),
{
    if cfg.mode == VmnetMode::Bridged {
        match &cfg.bridged_interface {
            Some(name) => push_setting(
                settings,
                StartSetting::Text(StartKey::SharedInterfaceName, name.clone()),
            ),
            None => {},
        }
    } else {
        push_address(settings, StartKey::StartAddress, cfg.start_address);
        push_address(settings, StartKey::EndAddress, cfg.end_address);
        push_address(settings, StartKey::SubnetMask, cfg.subnet_mask);
    }
    assert(settings_view(settings@) =~= settings_view(old(settings)@) + mode_settings(cfg@));
}

/// The description of the interface that a configuration asks for.
pub fn build_start_dict(cfg: &VmnetConfig) -> (r: Result<Vec<StartSetting>, Error>)
    ensures
        settings_outcome(r) == start_settings(cfg@),
{
    if cfg.mode == VmnetMode::Bridged {
        match &cfg.bridged_interface {
            None => {
                return Err(
                    Error::InvalidDevice(
                        "VmnetConfig::bridged_interface is required when mode is Bridged".to_owned(),
                    ),
                );
            },
            Some(name) => {
                if contains_char(name.as_str(), '\0') {
                    return Err(
                        Error::InvalidDevice(
                            "VmnetConfig::bridged_interface contains a NUL byte".to_owned(),
                        ),
                    );
                }
            },
        }
    }
    let mut settings: Vec<StartSetting> = Vec::new();
    let mode = OperatingMode::from(cfg.mode);
    push_setting(&mut settings, StartSetting::Number(StartKey::OperationMode, mode.number()));
    assert(settings_view(Seq::<StartSetting>::empty()) =~= Seq::empty());
    push_mode_settings(&mut settings, cfg);
    push_setting(
        &mut settings,
        StartSetting::Flag(StartKey::AllocateMacAddress, cfg.allocate_mac),
    );
    push_setting(&mut settings, StartSetting::Flag(StartKey::EnableIsolation, cfg.isolated));
    assert(settings_view(settings@) =~= start_settings(cfg@)->Ok_0);
    Ok(settings)
}

/// What the framework reports of a started interface.
#[derive(Debug)]
pub struct StartReply {
    pub mac: Option<String>,
    pub mtu: u64,
    pub max_packet_size: u64,
    pub start_address: Option<String>,
    pub end_address: Option<String>,
    pub subnet_mask: Option<String>,
}

/// A [`StartReply`] over sequences of characters.
pub struct StartReplyView {
    pub mac: Option<Seq<char>>,
    pub mtu: u64,
    pub max_packet_size: u64,
    pub start_address: Option<Seq<char>>,
    pub end_address: Option<Seq<char>>,
    pub subnet_mask: Option<Seq<char>>,
}

impl View for StartReply {
    type V = StartReplyView;

    open spec fn view(&self) -> StartReplyView {
        StartReplyView {
            mac: opt_text(self.mac),
            mtu: self.mtu,
            max_packet_size: self.max_packet_size,
            start_address: opt_text(self.start_address),
            end_address: opt_text(self.end_address),
            subnet_mask: opt_text(self.subnet_mask),
        }
    }
}

/// What is known of a running interface.
#[derive(Debug, Clone, Copy)]
pub struct VmnetStartParams {
    pub mac: MacAddress,
    pub mtu: u32,
    pub max_packet_size: u32,
    pub dhcp_start: Option<Ipv4Addr>,
    pub dhcp_end: Option<Ipv4Addr>,
    pub subnet_mask: Option<Ipv4Addr>,
}

/// A [`VmnetStartParams`] over sequences.
pub struct VmnetStartParamsView {
    pub mac: Seq<u8>,
    pub mtu: u32,
    pub max_packet_size: u32,
    pub dhcp_start: Option<Ipv4Addr>,
    pub dhcp_end: Option<Ipv4Addr>,
    pub subnet_mask: Option<Ipv4Addr>,
}

impl View for VmnetStartParams {
    type V = VmnetStartParamsView;

    open spec fn view(&self) -> VmnetStartParamsView {
        VmnetStartParamsView {
            mac: self.mac@,
            mtu: self.mtu,
            max_packet_size: self.max_packet_size,
            dhcp_start: self.dhcp_start,
            dhcp_end: self.dhcp_end,
            subnet_mask: self.subnet_mask,
        }
    }
}

/// The address that an optional text denotes.
pub open spec fn opt_ipv4_of(s: Option<Seq<char>>) -> Option<Ipv4Addr> {
    match s {
        Some(t) => ipv4_of(t),
        None => None,
    }
}

/// The low 32 bits of a number.
pub open spec fn low_u32(n: u64) -> u32 {
    (n % 0x1_0000_0000) as u32
}

/// What a report says. It must hold a MAC address; addresses that cannot be
/// read are left out.
pub open spec fn params_of(reply: StartReplyView) -> Result<
    VmnetStartParamsView,
    VmnetErrorView,
> {
    match reply.mac {
        None => Err(
            VmnetErrorView {
                code: VmnetReturn::Failure,
                context: "vmnet returned params without a MAC address"@,
                detail: None,
            },
        ),
        Some(s) => match mac_of(s) {
            None => Err(
                VmnetErrorView {
                    code: VmnetReturn::Failure,
                    context: "vmnet returned an unparseable MAC address"@,
                    detail: None,
                },
            ),
            Some(mac) => Ok(
                VmnetStartParamsView {
                    mac,
                    mtu: low_u32(reply.mtu),
                    max_packet_size: low_u32(reply.max_packet_size),
                    dhcp_start: opt_ipv4_of(reply.start_address),
                    dhcp_end: opt_ipv4_of(reply.end_address),
                    subnet_mask: opt_ipv4_of(reply.subnet_mask),
                },
            ),
        },
    }
}

/// The outcome of starting an interface, over views.
pub open spec fn params_outcome(r: Result<VmnetStartParams, VmnetError>) -> Result<
    VmnetStartParamsView,
    VmnetErrorView,
> {
    match r {
        Ok(p) => Ok(p@),
        Err(e) => Err(e@),
    }
}

fn read_address(s: &Option<String>) -> (r: Option<Ipv4Addr>)
    ensures
        r == opt_ipv4_of(opt_text(*s)),
{
    match s {
        Some(t) => Ipv4Addr::parse(t.as_str()),
        None => None,
    }
}

fn truncate(n: u64) -> (r: u32)
    ensures
        r == low_u32(n),
{
    (n % 0x1_0000_0000) as u32
}

/// Reads what the framework reports of a started interface.
pub fn parse_params(reply: &StartReply) -> (r: Result<VmnetStartParams, VmnetError>)
    ensures
        params_outcome(r) == params_of(reply@),
{
    match &reply.mac {
        None => Err(
            VmnetError::new(
                VmnetReturn::Failure,
                "vmnet returned params without a MAC address",
            ),
        ),
        Some(s) => match MacAddress::parse(s.as_str()) {
            None => Err(
                VmnetError::new(
                    VmnetReturn::Failure,
                    "vmnet returned an unparseable MAC address",
                ),
            ),
            Some(mac) => Ok(
                VmnetStartParams {
                    mac,
                    mtu: truncate(reply.mtu),
                    max_packet_size: truncate(reply.max_packet_size),
                    dhcp_start: read_address(&reply.start_address),
                    dhcp_end: read_address(&reply.end_address),
                    subnet_mask: read_address(&reply.subnet_mask),
                },
            ),
        },
    }
}

/// What is done next to start an interface, or how that ended.
#[derive(Debug)]
pub enum StartStage {
    /// Call the framework with this description.
    Submit(Vec<StartSetting>),
    /// Wait for the completion handler.
    Wait,
    /// The interface runs.
    Started(VmnetStartParams),
    /// It does not run.
    Failed(VmnetError),
}

/// A [`StartStage`] over sequences.
pub enum StartStageView {
    Submit(Seq<StartSettingView>),
    Wait,
    Started(VmnetStartParamsView),
    Failed(VmnetErrorView),
}

impl View for StartStage {
    type V = StartStageView;

    open spec fn view(&self) -> StartStageView {
        match *self {
            StartStage::Submit(s) => StartStageView::Submit(settings_view(s@)),
            StartStage::Wait => StartStageView::Wait,
            StartStage::Started(p) => StartStageView::Started(p@),
            StartStage::Failed(e) => StartStageView::Failed(e@),
        }
    }
}

/// The first stage: the description, or the failure to make one.
pub open spec fn first_stage(cfg: VmnetConfigView) -> StartStageView {
    match start_settings(cfg) {
        Ok(settings) => StartStageView::Submit(settings),
        Err(e) => StartStageView::Failed(
            VmnetErrorView {
                code: VmnetReturn::InvalidArgument,
                context: "build_start_dict"@,
                detail: Some(error_text(e)),
            },
        ),
    }
}

/// Starts an interface: what to hand to the framework.
pub fn start_interface(cfg: &VmnetConfig) -> (r: StartStage)
    ensures
        r@ == first_stage(cfg@),
{
    match build_start_dict(cfg) {
        Ok(settings) => StartStage::Submit(settings),
        Err(e) => StartStage::Failed(
            VmnetError {
                code: VmnetReturn::InvalidArgument,
                context: "build_start_dict",
                detail: Some(e.to_string()),
            },
        ),
    }
}

/// The stage after the call to the framework returned. Without an interface
/// the completion handler is never called: that is how the framework turns
/// down a process that may not use it.
pub open spec fn submitted_stage(interface_is_null: bool) -> StartStageView {
    if interface_is_null {
        StartStageView::Failed(
            VmnetErrorView {
                code: VmnetReturn::InvalidAccess,
                context: "vmnet_start_interface returned null iface"@,
                detail: Some(
                    "entitlement denied, binary not codesigned for vmnet, or insufficient privileges"@,
                ),
            },
        )
    } else {
        StartStageView::Wait
    }
}

/// Takes what the call to the framework returned.
pub fn start_submitted(interface_is_null: bool) -> (r: StartStage)
    ensures
        r@ == submitted_stage(interface_is_null),
{
    if interface_is_null {
        StartStage::Failed(
            VmnetError {
                code: VmnetReturn::InvalidAccess,
                context: "vmnet_start_interface returned null iface",
                detail: Some(
                    "entitlement denied, binary not codesigned for vmnet, or insufficient privileges".to_owned(),
                ),
            },
        )
    } else {
        StartStage::Wait
    }
}

/// The stage after the completion handler was called with a return code and,
/// on success, a report.
pub open spec fn completed_stage(ret: i32, reply: StartReplyView) -> StartStageView {
    match result_of_code(ret, "vmnet_start_interface completion"@) {
        Ok(_) => match params_of(reply) {
            Ok(p) => StartStageView::Started(p),
            Err(e) => StartStageView::Failed(e),
        },
        Err(e) => StartStageView::Failed(e),
    }
}

/// Takes what the completion handler was called with.
pub fn start_completed(ret: i32, reply: &StartReply) -> (r: StartStage)
    ensures
        r@ == completed_stage(ret, reply@),
{
    match check_return(ret, "vmnet_start_interface completion") {
        Ok(_) => match parse_params(reply) {
            Ok(p) => StartStage::Started(p),
            Err(e) => StartStage::Failed(e),
        },
        Err(e) => StartStage::Failed(e),
    }
}

/// How stopping an interface ends: `completion` is the code that the
/// completion handler was called with, which happens only where the
/// submission succeeded.
pub open spec fn stop_outcome(submit: i32, completion: i32) -> Result<(), VmnetErrorView> {
    match result_of_code(submit, "vmnet_stop_interface submit"@) {
        Ok(_) => result_of_code(completion, "vmnet_stop_interface completion"@),
        Err(e) => Err(e),
    }
}

/// Whether the completion of a stop is to be waited for, from the code that
/// its submission returned.
pub fn stop_submitted(submit: i32) -> (r: Result<(), Error>)
    ensures
        crate::error::outcome(r) == match result_of_code(submit, "vmnet_stop_interface submit"@) {
            Ok(_) => Ok::<(), ErrorView>(()),
            Err(e) => Err(ErrorView::InvalidDevice("vmnet: "@ + vmnet_error_text(e))),
        },
{
    match check_return(submit, "vmnet_stop_interface submit") {
        Ok(_) => Ok(()),
        Err(e) => Err(e.into_error()),
    }
}

/// How stopping an interface ends, from the codes of its submission and its
/// completion.
pub fn stop_interface(submit: i32, completion: i32) -> (r: Result<(), Error>)
    ensures
        crate::error::outcome(r) == match stop_outcome(submit, completion) {
            Ok(_) => Ok::<(), ErrorView>(()),
            Err(e) => Err(ErrorView::InvalidDevice("vmnet: "@ + vmnet_error_text(e))),
        },
{
    match stop_submitted(submit) {
        Ok(_) => match check_return(completion, "vmnet_stop_interface completion") {
            Ok(_) => Ok(()),
            Err(e) => Err(e.into_error()),
        },
        Err(e) => Err(e),
    }
}

/// The number of packets that a transfer moved, from its return code and the
/// count that it reported.
pub open spec fn moved_packets(ret: i32, count: i32, context: Seq<char>) -> Result<
    usize,
    VmnetErrorView,
> {
    match result_of_code(ret, context) {
        Ok(_) => Ok(
            if count < 0 {
                0
            } else {
                count as usize
            },
        ),
        Err(e) => Err(e),
    }
}

fn packets_moved(ret: i32, count: i32, context: &'static str) -> (r: Result<usize, VmnetError>)
    ensures
        vmnet_outcome(r) == moved_packets(ret, count, context@),
{
    match check_return(ret, context) {
        Ok(_) => Ok(
            if count < 0 {
                0
            } else {
                count as usize
            },
        ),
        Err(e) => Err(e),
    }
}

/// The number of packets that a read got.
pub fn read_packets(ret: i32, count: i32) -> (r: Result<usize, VmnetError>)
    ensures
        vmnet_outcome(r) == moved_packets(ret, count, "vmnet_read"@),
{
    packets_moved(ret, count, "vmnet_read")
}

/// The number of packets that a write took.
pub fn write_packets(ret: i32, count: i32) -> (r: Result<usize, VmnetError>)
    ensures
        vmnet_outcome(r) == moved_packets(ret, count, "vmnet_write"@),
{
    packets_moved(ret, count, "vmnet_write")
}

/// Whether the callback for available packets was registered.
pub fn packets_callback_set(ret: i32) -> (r: Result<(), VmnetError>)
    ensures
        vmnet_outcome(r) == result_of_code(ret, "vmnet_interface_set_event_callback"@),
{
    check_return(ret, "vmnet_interface_set_event_callback")
}

/// The error where no description could be allocated.
pub fn null_dictionary_error() -> (r: Error)
    ensures
        r@ == ErrorView::InvalidDevice("xpc_dictionary_create returned null"@),
{
    Error::InvalidDevice("xpc_dictionary_create returned null".to_owned())
}

/// Every description holds exactly what the configuration asks for: one entry
/// for the mode, one for each of the two flags with the value that was set,
/// and a text for each setting that the mode knows and that was made. No entry
/// occurs twice.
pub proof fn law_descriptions_are_as_configured(cfg: VmnetConfigView)
    requires
        start_settings(cfg) is Ok,
    ensures
        ({
            let s = start_settings(cfg)->Ok_0;
            let bridged = cfg.mode == VmnetMode::Bridged;
            &&& s.no_duplicates()
            &&& forall|key: StartKey, on: bool| #[trigger]
                s.contains(StartSettingView::Flag(key, on)) <==> (key == StartKey::EnableIsolation
                    && on == cfg.isolated) || (key == StartKey::AllocateMacAddress && on
                    == cfg.allocate_mac)
            &&& forall|key: StartKey, n: u64| #[trigger]
                s.contains(StartSettingView::Number(key, n)) <==> key == StartKey::OperationMode
                    && n == (match cfg.mode {
                    VmnetMode::Shared => 1u64,
                    VmnetMode::Host => 2u64,
                    VmnetMode::Bridged => 3u64,
                })
            &&& forall|key: StartKey, t: Seq<char>| #[trigger]
                s.contains(StartSettingView::Text(key, t)) <==> {
                    ||| key == StartKey::SharedInterfaceName && bridged && cfg.bridged_interface
                        == Some(t)
                    ||| key == StartKey::StartAddress && !bridged && (cfg.start_address matches Some(
                        a,
                    ) && t == ipv4_text(a))
                    ||| key == StartKey::EndAddress && !bridged && (cfg.end_address matches Some(a)
                        && t == ipv4_text(a))
                    ||| key == StartKey::SubnetMask && !bridged && (cfg.subnet_mask matches Some(a)
                        && t == ipv4_text(a))
                }
        }),
{
    let s = start_settings(cfg)->Ok_0;
    let bridged = cfg.mode == VmnetMode::Bridged;
    let n = s.len();
    assert(s[0] is Number);
    assert(s[n - 2] == StartSettingView::Flag(StartKey::AllocateMacAddress, cfg.allocate_mac));
    assert(s[n - 1] == StartSettingView::Flag(StartKey::EnableIsolation, cfg.isolated));
    let m = mode_settings(cfg);
    assert forall|j: int| 1 <= j < n - 2 implies #[trigger] s[j] == m[j - 1] by {}
    assert forall|j: int| 0 <= j < m.len() implies #[trigger] m[j] == s[j + 1] by {}
    let a = text_setting(StartKey::StartAddress, opt_ipv4_text(cfg.start_address));
    let b = text_setting(StartKey::EndAddress, opt_ipv4_text(cfg.end_address));
    let c = text_setting(StartKey::SubnetMask, opt_ipv4_text(cfg.subnet_mask));
    assert forall|key: StartKey, t: Seq<char>| #[trigger]
        s.contains(StartSettingView::Text(key, t)) <==> {
            ||| key == StartKey::SharedInterfaceName && bridged && cfg.bridged_interface == Some(t)
            ||| key == StartKey::StartAddress && !bridged && (cfg.start_address matches Some(x) && t
                == ipv4_text(x))
            ||| key == StartKey::EndAddress && !bridged && (cfg.end_address matches Some(x) && t
                == ipv4_text(x))
            ||| key == StartKey::SubnetMask && !bridged && (cfg.subnet_mask matches Some(x) && t
                == ipv4_text(x))
        } by {
        if bridged {
            if cfg.bridged_interface == Some(t) {
                assert(s[1] == m[0]);
            }
        } else {
            if a.len() > 0 {
                assert(s[1] == a[0]);
            }
            if b.len() > 0 {
                assert(s[1 + a.len() as int] == b[0]);
            }
            if c.len() > 0 {
                assert(s[1 + (a.len() + b.len()) as int] == c[0]);
            }
        }
    }
}

/// Two configurations that differ in whether the machine is isolated, in
/// whether an address is asked for, or in the mode, have different
/// descriptions.
pub proof fn law_descriptions_tell_configurations_apart(a: VmnetConfigView, b: VmnetConfigView)
    requires
        start_settings(a) is Ok,
        a.isolated != b.isolated || a.allocate_mac != b.allocate_mac || a.mode != b.mode,
    ensures
        start_settings(a) != start_settings(b),
{
    if start_settings(a) == start_settings(b) {
        law_descriptions_are_as_configured(a);
        law_descriptions_are_as_configured(b);
        let s = start_settings(a)->Ok_0;
        assert(s.contains(StartSettingView::Flag(StartKey::EnableIsolation, a.isolated)));
        assert(s.contains(StartSettingView::Flag(StartKey::AllocateMacAddress, a.allocate_mac)));
        assert(s[0] is Number);
        assert(s.contains(s[0]));
    }
}

/// There is a description unless Bridged mode lacks the name of an interface,
/// or the name holds a NUL. The failure to make one is an invalid argument.
pub proof fn law_descriptions_exist(cfg: VmnetConfigView)
    ensures
        start_settings(cfg) is Err <==> cfg.mode == VmnetMode::Bridged && (cfg.bridged_interface
            matches Some(name) ==> name.contains('\0')),
        start_settings(cfg) matches Err(e) ==> e is InvalidDevice && (first_stage(cfg) matches
            StartStageView::Failed(f) && f.code == VmnetReturn::InvalidArgument),
        start_settings(cfg) matches Ok(s) ==> first_stage(cfg) == StartStageView::Submit(s),
{
}

/// The framework's numbers for its return codes.
pub proof fn law_vmnet_codes(v: i32)
    ensures
        VmnetReturn::of_number(v) == VmnetReturn::Success <==> v == 1000,
        VmnetReturn::of_number(v) == VmnetReturn::Failure <==> v == 1001,
        VmnetReturn::of_number(v) == VmnetReturn::MemFailure <==> v == 1002,
        VmnetReturn::of_number(v) == VmnetReturn::InvalidArgument <==> v == 1003,
        VmnetReturn::of_number(v) == VmnetReturn::SetupIncomplete <==> v == 1004,
        VmnetReturn::of_number(v) == VmnetReturn::InvalidAccess <==> v == 1005,
        VmnetReturn::of_number(v) == VmnetReturn::PacketTooBig <==> v == 1006,
        VmnetReturn::of_number(v) == VmnetReturn::BufferExhausted <==> v == 1007,
        VmnetReturn::of_number(v) == VmnetReturn::TooManyPackets <==> v == 1008,
        VmnetReturn::of_number(v) == VmnetReturn::SharingServiceBusy <==> v == 1009,
{
}

/// A call succeeded exactly where it returned 1000; any other code is a
/// failure that keeps the code and names what was attempted.
pub proof fn law_only_success_is_success(ret: i32, context: Seq<char>)
    ensures
        result_of_code(ret, context) is Ok <==> ret == 1000,
        result_of_code(ret, context) matches Err(e) ==> e.context == context && e.detail is None && (
        1001 <= ret <= 1009 ==> e.code.number() == ret) && (!(1000 <= ret <= 1009) ==> e.code
            == VmnetReturn::Unknown),
{
}

/// What the framework reports of an interface is what is known of it: the
/// address, both sizes, both ends of the pool and the mask, each from its own
/// entry.
pub proof fn law_reports_are_read_back(
    mac: Seq<u8>,
    mtu: u32,
    max_packet_size: u32,
    start: Option<Ipv4Addr>,
    end: Option<Ipv4Addr>,
    mask: Option<Ipv4Addr>,
)
    requires
        mac.len() == 6,
    ensures
        params_of(
            (StartReplyView {
                mac: Some(mac_text(mac)),
                mtu: mtu as u64,
                max_packet_size: max_packet_size as u64,
                start_address: opt_ipv4_text(start),
                end_address: opt_ipv4_text(end),
                subnet_mask: opt_ipv4_text(mask),
            }),
        ) == Ok::<VmnetStartParamsView, VmnetErrorView>(
            VmnetStartParamsView {
                mac,
                mtu,
                max_packet_size,
                dhcp_start: start,
                dhcp_end: end,
                subnet_mask: mask,
            },
        ),
{
    law_mac_text_round_trip(mac);
    if let Some(a) = start {
        law_ipv4_text_round_trip(a);
    }
    if let Some(a) = end {
        law_ipv4_text_round_trip(a);
    }
    if let Some(a) = mask {
        law_ipv4_text_round_trip(a);
    }
}

/// An interface runs exactly where the framework handed one out, completed
/// the start with success and reported a readable address. One that was not
/// handed out is a denial.
pub proof fn law_interfaces_that_run(interface_is_null: bool, ret: i32, reply: StartReplyView)
    ensures
        submitted_stage(interface_is_null) is Wait <==> !interface_is_null,
        interface_is_null ==> (submitted_stage(interface_is_null) matches StartStageView::Failed(e)
            && e.code == VmnetReturn::InvalidAccess),
        completed_stage(ret, reply) is Started <==> ret == 1000 && (reply.mac matches Some(text)
            && mac_of(text) is Some),
        ret == 1005 ==> (completed_stage(ret, reply) matches StartStageView::Failed(e) && e.code
            == VmnetReturn::InvalidAccess),
        completed_stage(ret, reply) is Started || completed_stage(ret, reply) is Failed,
        ret != 1000 ==> (completed_stage(ret, reply) matches StartStageView::Failed(e) && e.code
            == VmnetReturn::of_number(ret)),
        completed_stage(ret, reply) matches StartStageView::Started(p) ==> params_of(reply) == Ok::<
            VmnetStartParamsView,
            VmnetErrorView,
        >(p),
{
}

/// An interface was stopped exactly where the stop was submitted and completed
/// with success.
pub proof fn law_interfaces_that_stop(submit: i32, completion: i32)
    ensures
        stop_outcome(submit, completion) is Ok <==> submit == 1000 && completion == 1000,
{
}

/// A transfer that succeeds has moved as many packets as it reports, and none
/// where it reports a negative number; any other code is a failure.
pub proof fn law_packets_that_moved(ret: i32, count: i32, context: Seq<char>)
    ensures
        moved_packets(ret, count, context) is Ok <==> ret == 1000,
        ret == 1000 && count >= 0 ==> moved_packets(ret, count, context)->Ok_0 == count,
        ret == 1000 && count < 0 ==> moved_packets(ret, count, context)->Ok_0 == 0,
        moved_packets(ret, count, context) matches Err(e) ==> e.context == context,
{
}

/// The message of a failure starts with what was attempted and names the code;
/// a detail stands in brackets at the end.
pub proof fn law_failure_messages(code: VmnetReturn, context: Seq<char>, detail: Seq<char>)
    ensures
        ({
            let plain = vmnet_error_text(VmnetErrorView { code, context, detail: None });
            let full = vmnet_error_text(VmnetErrorView { code, context, detail: Some(detail) });
            &&& plain.take(context.len() as int) == context
            &&& plain.skip(context.len() as int + 2) == code.meaning()
            &&& full == plain + seq![' ', '('] + detail + seq![')']
        }),
{
    reveal_strlit(": ");
    reveal_strlit(" (");
    reveal_strlit(")");
    let plain = vmnet_error_text(VmnetErrorView { code, context, detail: None });
    let full = vmnet_error_text(VmnetErrorView { code, context, detail: Some(detail) });
    assert(plain.take(context.len() as int) =~= context);
    assert(plain.skip(context.len() as int + 2) =~= code.meaning());
    assert(full =~= plain + seq![' ', '('] + detail + seq![')']);
}

} // verus!
