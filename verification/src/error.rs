//! Errors of the library and of the Virtualization framework.
use vstd::prelude::*;

use crate::number::{push_signed_decimal, signed_decimal};
use crate::text::{join2, join3};
use crate::vm::state::VmState;

verus! {

/// Anything that can go wrong while a VM is configured, built or run.
#[derive(Debug)]
pub enum Error {
    InvalidConfiguration(String),
    InvalidDevice(String),
    InvalidBootloader(String),
    InvalidState { current: VmState, operation: &'static str },
    VzError { code: VzErrorCode, message: String },
    ValidationFailed(String),
    FileNotFound(String),
    Io(String),
    DispatchError(String),
    Timeout,
    RosettaUnavailable,
    RequiresAppleSilicon,
}

/// What an [`Error`] says, over sequences of characters.
pub enum ErrorView {
    InvalidConfiguration(Seq<char>),
    InvalidDevice(Seq<char>),
    InvalidBootloader(Seq<char>),
    InvalidState { current: VmState, operation: Seq<char> },
    VzError { code: VzErrorCode, message: Seq<char> },
    ValidationFailed(Seq<char>),
    FileNotFound(Seq<char>),
    Io(Seq<char>),
    DispatchError(Seq<char>),
    Timeout,
    RosettaUnavailable,
    RequiresAppleSilicon,
}

impl View for Error {
    type V = ErrorView;

    open spec fn view(&self) -> ErrorView {
        match *self {
            Error::InvalidConfiguration(m) => ErrorView::InvalidConfiguration(m@),
            Error::InvalidDevice(m) => ErrorView::InvalidDevice(m@),
            Error::InvalidBootloader(m) => ErrorView::InvalidBootloader(m@),
            Error::InvalidState { current, operation } => ErrorView::InvalidState {
                current,
                operation: operation@,
            },
            Error::VzError { code, message } => ErrorView::VzError { code, message: message@ },
            Error::ValidationFailed(m) => ErrorView::ValidationFailed(m@),
            Error::FileNotFound(m) => ErrorView::FileNotFound(m@),
            Error::Io(m) => ErrorView::Io(m@),
            Error::DispatchError(m) => ErrorView::DispatchError(m@),
            Error::Timeout => ErrorView::Timeout,
            Error::RosettaUnavailable => ErrorView::RosettaUnavailable,
            Error::RequiresAppleSilicon => ErrorView::RequiresAppleSilicon,
        }
    }
}

/// The message shown for an error.
pub open spec fn error_text(e: ErrorView) -> Seq<char> {
    match e {
        ErrorView::InvalidConfiguration(m) => "invalid VM configuration: "@ + m,
        ErrorView::InvalidDevice(m) => "invalid device configuration: "@ + m,
        ErrorView::InvalidBootloader(m) => "invalid bootloader configuration: "@ + m,
        ErrorView::InvalidState { current, operation } => "VM is in state "@ + current.name()
            + ", cannot perform "@ + operation,
        ErrorView::VzError { code, message } => "Virtualization framework error ("@ + code.name()
            + "): "@ + message,
        ErrorView::ValidationFailed(m) => "configuration validation failed: "@ + m,
        ErrorView::FileNotFound(p) => "file not found: "@ + p,
        ErrorView::Io(m) => "I/O error: "@ + m,
        ErrorView::DispatchError(m) => "dispatch queue error: "@ + m,
        ErrorView::Timeout => "operation timed out"@,
        ErrorView::RosettaUnavailable => "rosetta is not available on this system"@,
        ErrorView::RequiresAppleSilicon => "macOS platform requires Apple Silicon"@,
    }
}

impl Error {
    /// The message shown for this error.
    pub fn to_string(&self) -> (r: String)
        ensures
            r@ == error_text(self@),
    {
        match self {
            Error::InvalidConfiguration(m) => join2("invalid VM configuration: ", m.as_str()),
            Error::InvalidDevice(m) => join2("invalid device configuration: ", m.as_str()),
            Error::InvalidBootloader(m) => join2("invalid bootloader configuration: ", m.as_str()),
            Error::InvalidState { current, operation } => {
                let mut r = join3(
                    "VM is in state ",
                    current.to_string().as_str(),
                    ", cannot perform ",
                );
                r.append(operation);
                r
            },
            Error::VzError { code, message } => {
                let mut r = join3(
                    "Virtualization framework error (",
                    code.to_string().as_str(),
                    "): ",
                );
                r.append(message.as_str());
                r
            },
            Error::ValidationFailed(m) => join2("configuration validation failed: ", m.as_str()),
            Error::FileNotFound(p) => join2("file not found: ", p.as_str()),
            Error::Io(m) => join2("I/O error: ", m.as_str()),
            Error::DispatchError(m) => join2("dispatch queue error: ", m.as_str()),
            Error::Timeout => "operation timed out".to_owned(),
            Error::RosettaUnavailable => "rosetta is not available on this system".to_owned(),
            Error::RequiresAppleSilicon => "macOS platform requires Apple Silicon".to_owned(),
        }
    }
}

/// The outcome of a fallible operation, over views.
pub open spec fn result_view<T: View>(r: Result<T, Error>) -> Result<T::V, ErrorView> {
    match r {
        Ok(v) => Ok(v@),
        Err(e) => Err(e@),
    }
}

/// The outcome of a fallible operation whose value is plain data.
pub open spec fn outcome<T>(r: Result<T, Error>) -> Result<T, ErrorView> {
    match r {
        Ok(v) => Ok(v),
        Err(e) => Err(e@),
    }
}

/// Error codes of the Virtualization framework.
#[derive(Debug, Clone, Copy, PartialEq, Eq, Structural)]
pub enum VzErrorCode {
    Internal,
    InvalidVirtualMachineConfiguration,
    InvalidVirtualMachineState,
    InvalidVirtualMachineStateTransition,
    InvalidDiskImage,
    VirtualMachineLimitExceeded,
    NetworkError,
    OutOfDiskSpace,
    OperationCancelled,
    NotSupported,
    Save,
    Restore,
    NbdNegotiationFailed,
    NbdDisconnected,
    UsbControllerNotFound,
    DeviceAlreadyAttached,
    Unknown(isize),
}

impl VzErrorCode {
    /// The framework's number for this code.
    pub open spec fn ns_code(self) -> isize {
        match self {
            VzErrorCode::Internal => 1,
            VzErrorCode::InvalidVirtualMachineConfiguration => 2,
            VzErrorCode::InvalidVirtualMachineState => 3,
            VzErrorCode::InvalidVirtualMachineStateTransition => 4,
            VzErrorCode::InvalidDiskImage => 5,
            VzErrorCode::VirtualMachineLimitExceeded => 6,
            VzErrorCode::NetworkError => 7,
            VzErrorCode::OutOfDiskSpace => 8,
            VzErrorCode::OperationCancelled => 9,
            VzErrorCode::NotSupported => 10,
            VzErrorCode::Save => 11,
            VzErrorCode::Restore => 12,
            VzErrorCode::NbdNegotiationFailed => 20001,
            VzErrorCode::NbdDisconnected => 20002,
            VzErrorCode::UsbControllerNotFound => 30001,
            VzErrorCode::DeviceAlreadyAttached => 30002,
            VzErrorCode::Unknown(other) => other,
        }
    }

    /// The numbers that have a name of their own.
    pub open spec fn is_known(code: isize) -> bool {
        1 <= code <= 12 || 20001 <= code <= 20002 || 30001 <= code <= 30002
    }

    /// The name of the code, as error messages show it.
    pub open spec fn name(self) -> Seq<char> {
        match self {
            VzErrorCode::Internal => "Internal"@,
            VzErrorCode::InvalidVirtualMachineConfiguration =>
                "InvalidVirtualMachineConfiguration"@,
            VzErrorCode::InvalidVirtualMachineState => "InvalidVirtualMachineState"@,
            VzErrorCode::InvalidVirtualMachineStateTransition =>
                "InvalidVirtualMachineStateTransition"@,
            VzErrorCode::InvalidDiskImage => "InvalidDiskImage"@,
            VzErrorCode::VirtualMachineLimitExceeded => "VirtualMachineLimitExceeded"@,
            VzErrorCode::NetworkError => "NetworkError"@,
            VzErrorCode::OutOfDiskSpace => "OutOfDiskSpace"@,
            VzErrorCode::OperationCancelled => "OperationCancelled"@,
            VzErrorCode::NotSupported => "NotSupported"@,
            VzErrorCode::Save => "Save"@,
            VzErrorCode::Restore => "Restore"@,
            VzErrorCode::NbdNegotiationFailed => "NbdNegotiationFailed"@,
            VzErrorCode::NbdDisconnected => "NbdDisconnected"@,
            VzErrorCode::UsbControllerNotFound => "UsbControllerNotFound"@,
            VzErrorCode::DeviceAlreadyAttached => "DeviceAlreadyAttached"@,
            VzErrorCode::Unknown(other) => "Unknown("@ + signed_decimal(other as int) + ")"@,
        }
    }

    /// The code that the framework's number stands for.
    pub fn from_ns_code(code: isize) -> (r: Self)
        ensures
            r.ns_code() == code,
            r is Unknown <==> !Self::is_known(code),
    {
        match code {
            1 => VzErrorCode::Internal,
            2 => VzErrorCode::InvalidVirtualMachineConfiguration,
            3 => VzErrorCode::InvalidVirtualMachineState,
            4 => VzErrorCode::InvalidVirtualMachineStateTransition,
            5 => VzErrorCode::InvalidDiskImage,
            6 => VzErrorCode::VirtualMachineLimitExceeded,
            7 => VzErrorCode::NetworkError,
            8 => VzErrorCode::OutOfDiskSpace,
            9 => VzErrorCode::OperationCancelled,
            10 => VzErrorCode::NotSupported,
            11 => VzErrorCode::Save,
            12 => VzErrorCode::Restore,
            20001 => VzErrorCode::NbdNegotiationFailed,
            20002 => VzErrorCode::NbdDisconnected,
            30001 => VzErrorCode::UsbControllerNotFound,
            30002 => VzErrorCode::DeviceAlreadyAttached,
            other => VzErrorCode::Unknown(other),
        }
    }

    /// The name of the code, as error messages show it.
    pub fn to_string(&self) -> (r: String)
        ensures
            r@ == self.name(),
    {
        match self {
            VzErrorCode::Internal => "Internal".to_owned(),
            VzErrorCode::InvalidVirtualMachineConfiguration =>
                "InvalidVirtualMachineConfiguration".to_owned(),
            VzErrorCode::InvalidVirtualMachineState => "InvalidVirtualMachineState".to_owned(),
            VzErrorCode::InvalidVirtualMachineStateTransition =>
                "InvalidVirtualMachineStateTransition".to_owned(),
            VzErrorCode::InvalidDiskImage => "InvalidDiskImage".to_owned(),
            VzErrorCode::VirtualMachineLimitExceeded => "VirtualMachineLimitExceeded".to_owned(),
            VzErrorCode::NetworkError => "NetworkError".to_owned(),
            VzErrorCode::OutOfDiskSpace => "OutOfDiskSpace".to_owned(),
            VzErrorCode::OperationCancelled => "OperationCancelled".to_owned(),
            VzErrorCode::NotSupported => "NotSupported".to_owned(),
            VzErrorCode::Save => "Save".to_owned(),
            VzErrorCode::Restore => "Restore".to_owned(),
            VzErrorCode::NbdNegotiationFailed => "NbdNegotiationFailed".to_owned(),
            VzErrorCode::NbdDisconnected => "NbdDisconnected".to_owned(),
            VzErrorCode::UsbControllerNotFound => "UsbControllerNotFound".to_owned(),
            VzErrorCode::DeviceAlreadyAttached => "DeviceAlreadyAttached".to_owned(),
            VzErrorCode::Unknown(other) => {
                let mut r = "Unknown(".to_owned();
                push_signed_decimal(&mut r, *other as i64);
                r.append(")");
                r
            },
        }
    }
}

/// The error for a failure that the framework reported: its code, and its
/// description followed by whatever further diagnostics it carries.
pub open spec fn framework_error(
    code: isize,
    description: Seq<char>,
    reason: Option<Seq<char>>,
    recovery: Option<Seq<char>>,
    keys: Seq<Seq<char>>,
    underlying: Option<Seq<char>>,
    r: ErrorView,
) -> bool {
    &&& r matches ErrorView::VzError { code: c, message }
    &&& c.ns_code() == code
    &&& (c is Unknown <==> !VzErrorCode::is_known(code))
    &&& message == description + labelled(" Reason: "@, reason) + labelled(" Recovery: "@, recovery)
        + (if keys.len() == 0 {
        Seq::empty()
    } else {
        " userInfo keys: ["@ + comma_separated(keys) + "]"@
    }) + labelled(" underlying: "@, underlying)
}

/// `label` and the text behind it, or nothing.
pub open spec fn labelled(label: Seq<char>, text: Option<Seq<char>>) -> Seq<char> {
    match text {
        Some(t) => label + t,
        None => Seq::empty(),
    }
}

/// The items with `, ` between them.
pub open spec fn comma_separated(items: Seq<Seq<char>>) -> Seq<char>
    decreases items.len(),
{
    if items.len() == 0 {
        Seq::empty()
    } else if items.len() == 1 {
        items[0]
    } else {
        comma_separated(items.drop_last()) + ", "@ + items.last()
    }
}

/// Appends `label` and the text behind it, where there is one.
fn push_labelled(out: &mut String, label: &str, text: &Option<String>)
    ensures
        final(out)@ == old(out)@ + labelled(label@, crate::text::opt_text(*text)),
{
    match text {
        Some(t) => {
            out.append(label);
            out.append(t.as_str());
            assert(out@ =~= old(out)@ + (label@ + t@));
        },
        None => {
            assert(out@ =~= old(out)@ + Seq::<char>::empty());
        },
    }
}

/// Joins the items with `, `.
pub fn join_with_commas(items: &Vec<String>) -> (r: String)
    ensures
        r@ == comma_separated(crate::text::texts(items@)),
{
    let ghost all = crate::text::texts(items@);
    let mut r = String::new();
    let mut i: usize = 0;
    while i < items.len()
        invariant
            i <= items@.len(),
            all == crate::text::texts(items@),
            r@ == comma_separated(all.take(i as int)),
        decreases items@.len() - i,
    {
        proof {
            assert(all.take(i + 1).drop_last() =~= all.take(i as int));
            assert(all.take(i + 1).last() == items@[i as int]@);
        }
        if i > 0 {
            r.append(", ");
        }
        r.append(items[i].as_str());
        i += 1;
        assert(r@ =~= comma_separated(all.take(i as int)));
    }
    assert(all.take(items@.len() as int) =~= all);
    r
}

/// The error for a failure that the framework reported, from the parts of the
/// report: its number, its description, an optional reason and recovery
/// suggestion, the keys of its user info, and an optional underlying error.
pub fn ns_error_to_error(
    code: isize,
    description: &str,
    reason: &Option<String>,
    recovery: &Option<String>,
    keys: &Vec<String>,
    underlying: &Option<String>,
) -> (r: Error)
    ensures
        framework_error(
            code,
            description@,
            crate::text::opt_text(*reason),
            crate::text::opt_text(*recovery),
            crate::text::texts(keys@),
            crate::text::opt_text(*underlying),
            r@,
        ),
{
    let mut message = description.to_owned();
    push_labelled(&mut message, " Reason: ", reason);
    push_labelled(&mut message, " Recovery: ", recovery);
    let ghost before = message@;
    if keys.len() > 0 {
        message.append(" userInfo keys: [");
        message.append(join_with_commas(keys).as_str());
        message.append("]");
        assert(message@ =~= before + (" userInfo keys: ["@ + comma_separated(
            crate::text::texts(keys@),
        ) + "]"@));
    } else {
        assert(message@ =~= before + Seq::<char>::empty());
    }
    push_labelled(&mut message, " underlying: ", underlying);
    Error::VzError { code: VzErrorCode::from_ns_code(code), message }
}

/// Codes with the same number are the same code, where both or neither of
/// them stand for an unknown one.
pub proof fn law_ns_codes_are_distinct(a: VzErrorCode, b: VzErrorCode)
    requires
        a.ns_code() == b.ns_code(),
        a is Unknown <==> b is Unknown,
    ensures
        a == b,
{
}

/// The framework's numbers for its error codes; any other number is kept as
/// it is.
pub proof fn law_ns_codes(c: VzErrorCode)
    requires
        !(c is Unknown),
    ensures
        c.ns_code() == 1 <==> c == VzErrorCode::Internal,
        c.ns_code() == 2 <==> c == VzErrorCode::InvalidVirtualMachineConfiguration,
        c.ns_code() == 3 <==> c == VzErrorCode::InvalidVirtualMachineState,
        c.ns_code() == 4 <==> c == VzErrorCode::InvalidVirtualMachineStateTransition,
        c.ns_code() == 5 <==> c == VzErrorCode::InvalidDiskImage,
        c.ns_code() == 6 <==> c == VzErrorCode::VirtualMachineLimitExceeded,
        c.ns_code() == 7 <==> c == VzErrorCode::NetworkError,
        c.ns_code() == 8 <==> c == VzErrorCode::OutOfDiskSpace,
        c.ns_code() == 9 <==> c == VzErrorCode::OperationCancelled,
        c.ns_code() == 10 <==> c == VzErrorCode::NotSupported,
        c.ns_code() == 11 <==> c == VzErrorCode::Save,
        c.ns_code() == 12 <==> c == VzErrorCode::Restore,
        c.ns_code() == 20001 <==> c == VzErrorCode::NbdNegotiationFailed,
        c.ns_code() == 20002 <==> c == VzErrorCode::NbdDisconnected,
        c.ns_code() == 30001 <==> c == VzErrorCode::UsbControllerNotFound,
        c.ns_code() == 30002 <==> c == VzErrorCode::DeviceAlreadyAttached,
        VzErrorCode::is_known(c.ns_code()),
{
}

/// A number without a name of its own is shown as it is.
pub proof fn law_unknown_codes_keep_their_number(n: isize)
    ensures
        VzErrorCode::Unknown(n).ns_code() == n,
        VzErrorCode::is_known(n) <==> (1 <= n && n <= 12) || n == 20001 || n == 20002 || n == 30001
            || n == 30002,
{
}

/// A report without further diagnostics is shown as its description, and each
/// diagnostic that it carries is appended behind its label, in a fixed order.
pub proof fn law_diagnostics_are_appended(
    code: isize,
    description: Seq<char>,
    reason: Seq<char>,
    recovery: Seq<char>,
    key: Seq<char>,
    underlying: Seq<char>,
    plain: ErrorView,
    full: ErrorView,
)
    requires
        framework_error(code, description, None, None, Seq::empty(), None, plain),
        framework_error(
            code,
            description,
            Some(reason),
            Some(recovery),
            seq![key],
            Some(underlying),
            full,
        ),
    ensures
        plain matches ErrorView::VzError { code: c, message } && c.ns_code() == code && message
            == description,
        full matches ErrorView::VzError { code: c, message } && c.ns_code() == code && message
            == description + " Reason: "@ + reason + " Recovery: "@ + recovery
            + " userInfo keys: ["@ + key + "]"@ + " underlying: "@ + underlying,
{
    assert(comma_separated(seq![key]) == key);
    assert(plain->message =~= description);
    assert(full->message =~= description + " Reason: "@ + reason + " Recovery: "@ + recovery
        + " userInfo keys: ["@ + key + "]"@ + " underlying: "@ + underlying);
}

/// Items are listed in order, with a comma and a space between two of them.
pub proof fn law_items_are_listed(items: Seq<Seq<char>>, item: Seq<char>)
    ensures
        comma_separated(seq![item]) == item,
        items.len() > 0 ==> comma_separated(items.push(item)) == comma_separated(items) + seq![
            ',',
            ' ',
        ] + item,
{
    reveal_strlit(", ");
    assert(", "@ =~= seq![',', ' ']);
    if items.len() > 0 {
        assert(items.push(item).drop_last() =~= items);
    }
}

} // verus!
