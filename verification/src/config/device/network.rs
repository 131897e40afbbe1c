//! Network devices and the addresses they carry.
use vstd::prelude::*;

use crate::number::{
    decimal, digits_value, hex_byte, law_notation_is_unique, lemma_decimal, lemma_digit_char,
    lemma_digits_push, parse_unsigned, push_decimal, push_hex_byte, read_unsigned,
};
use crate::text::{
    clone_opt, join, law_join_undoes_split, law_split_undoes_join, lemma_join_push, opt_text, split,
    split_text, texts, to_chars,
};

verus! {

/// A Virtio network device.
#[derive(Debug)]
pub struct VirtioNet {
    pub attachment: NetAttachment,
    pub mac_address: Option<MacAddress>,
}

impl Clone for VirtioNet {
    fn clone(&self) -> (r: Self)
        ensures
            r@ == self@,
    {
        VirtioNet {
            attachment: self.attachment.clone(),
            mac_address: self.mac_address,
        }
    }
}

/// What a network device is connected to on the host.
#[derive(Debug)]
pub enum NetAttachment {
    /// The framework's own NAT.
    Nat,
    /// A datagram socket that the caller serves.
    UnixSocket { path: String },
    /// A descriptor that the caller serves.
    FileDescriptor { fd: i32 },
    /// Managed networking via `vmnet.framework`. Every packet crosses this
    /// library, which is what makes per-interface counters possible.
    Vmnet(VmnetConfig),
}

impl Clone for NetAttachment {
    fn clone(&self) -> (r: Self)
        ensures
            r@ == self@,
    {
        match self {
            NetAttachment::Nat => NetAttachment::Nat,
            NetAttachment::UnixSocket { path } => NetAttachment::UnixSocket { path: path.clone() },
            NetAttachment::FileDescriptor { fd } => NetAttachment::FileDescriptor { fd: *fd },
            NetAttachment::Vmnet(cfg) => NetAttachment::Vmnet(cfg.clone()),
        }
    }
}

/// Configuration of a `vmnet.framework`-backed network attachment.
#[derive(Debug)]
pub struct VmnetConfig {
    pub mode: VmnetMode,
    /// Override the DHCP pool start address. Ignored for Bridged mode.
    pub start_address: Option<Ipv4Addr>,
    /// Override the DHCP pool end address. Ignored for Bridged mode.
    pub end_address: Option<Ipv4Addr>,
    /// Override the subnet mask. Ignored for Bridged mode.
    pub subnet_mask: Option<Ipv4Addr>,
    /// Ask vmnet to assign a MAC address.
    pub allocate_mac: bool,
    /// Isolate this VM from other vmnet interfaces on the host bridge.
    pub isolated: bool,
    /// Host interface to bridge to. Required in Bridged mode, ignored
    /// otherwise.
    pub bridged_interface: Option<String>,
}

impl Clone for VmnetConfig {
    fn clone(&self) -> (r: Self)
        ensures
            r@ == self@,
    {
        VmnetConfig {
            mode: self.mode,
            start_address: self.start_address,
            end_address: self.end_address,
            subnet_mask: self.subnet_mask,
            allocate_mac: self.allocate_mac,
            isolated: self.isolated,
            bridged_interface: clone_opt(&self.bridged_interface),
        }
    }
}

/// `vmnet.framework` operating mode.
#[derive(Debug, Clone, Copy, PartialEq, Eq, Structural)]
pub enum VmnetMode {
    /// Shared NAT: the guest sees a private subnet behind the host.
    Shared,
    /// Host-only network.
    Host,
    /// Bridged to a physical host interface.
    Bridged,
}

impl Default for VmnetMode {
    fn default() -> (r: Self)
        ensures
            r == VmnetMode::Shared,
    {
        VmnetMode::Shared
    }
}

impl Default for VmnetConfig {
    fn default() -> (r: Self)
        ensures
            r@ == default_vmnet_config(),
    {
        VmnetConfig {
            mode: VmnetMode::default(),
            start_address: None,
            end_address: None,
            subnet_mask: None,
            allocate_mac: false,
            isolated: false,
            bridged_interface: None,
        }
    }
}

/// A [`VmnetConfig`] over sequences of characters.
pub struct VmnetConfigView {
    pub mode: VmnetMode,
    pub start_address: Option<Ipv4Addr>,
    pub end_address: Option<Ipv4Addr>,
    pub subnet_mask: Option<Ipv4Addr>,
    pub allocate_mac: bool,
    pub isolated: bool,
    pub bridged_interface: Option<Seq<char>>,
}

/// Shared mode with the framework's own address pool.
pub open spec fn default_vmnet_config() -> VmnetConfigView {
    VmnetConfigView {
        mode: VmnetMode::Shared,
        start_address: None,
        end_address: None,
        subnet_mask: None,
        allocate_mac: false,
        isolated: false,
        bridged_interface: None,
    }
}

impl View for VmnetConfig {
    type V = VmnetConfigView;

    open spec fn view(&self) -> VmnetConfigView {
        VmnetConfigView {
            mode: self.mode,
            start_address: self.start_address,
            end_address: self.end_address,
            subnet_mask: self.subnet_mask,
            allocate_mac: self.allocate_mac,
            isolated: self.isolated,
            bridged_interface: opt_text(self.bridged_interface),
        }
    }
}

/// A [`NetAttachment`] over sequences of characters.
pub enum NetAttachmentView {
    Nat,
    UnixSocket { path: Seq<char> },
    FileDescriptor { fd: i32 },
    Vmnet(VmnetConfigView),
}

impl View for NetAttachment {
    type V = NetAttachmentView;

    open spec fn view(&self) -> NetAttachmentView {
        match *self {
            NetAttachment::Nat => NetAttachmentView::Nat,
            NetAttachment::UnixSocket { path } => NetAttachmentView::UnixSocket { path: path@ },
            NetAttachment::FileDescriptor { fd } => NetAttachmentView::FileDescriptor { fd },
            NetAttachment::Vmnet(cfg) => NetAttachmentView::Vmnet(cfg@),
        }
    }
}

/// A [`VirtioNet`] over sequences.
#[verifier::ext_equal]
pub struct VirtioNetView {
    pub attachment: NetAttachmentView,
    pub mac_address: Option<Seq<u8>>,
}

/// The bytes of an optional MAC address.
pub open spec fn opt_mac(m: Option<MacAddress>) -> Option<Seq<u8>> {
    match m {
        Some(a) => Some(a@),
        None => None,
    }
}

impl View for VirtioNet {
    type V = VirtioNetView;

    open spec fn view(&self) -> VirtioNetView {
        VirtioNetView { attachment: self.attachment@, mac_address: opt_mac(self.mac_address) }
    }
}

/// A 6-byte MAC address.
#[derive(Debug, Clone, Copy, PartialEq, Eq)]
pub struct MacAddress(pub [u8; 6]);

impl View for MacAddress {
    type V = Seq<u8>;

    open spec fn view(&self) -> Seq<u8> {
        self.0@
    }
}

/// Whether every one of the parts is a hexadecimal number that fits a byte.
pub open spec fn all_hex_bytes(parts: Seq<Seq<char>>) -> bool {
    forall|i: int| 0 <= i < parts.len() ==> parse_unsigned(#[trigger] parts[i], 16, 255) is Some
}

/// The address that a text denotes: six hexadecimal bytes with `:` between
/// them.
pub open spec fn mac_of(s: Seq<char>) -> Option<Seq<u8>> {
    let parts = split(s, ':');
    if parts.len() == 6 && all_hex_bytes(parts) {
        Some(Seq::new(6, |i: int| parse_unsigned(parts[i], 16, 255)->0 as u8))
    } else {
        None
    }
}

/// The text of an address: every byte in two digits of lower case, with `:`
/// between them.
pub open spec fn mac_text(m: Seq<u8>) -> Seq<char> {
    join(m.map_values(|b: u8| hex_byte(b)), ':')
}

impl MacAddress {
    /// Reads an address such as `aa:bb:cc:dd:ee:ff`.
    pub fn parse(s: &str) -> (r: Option<Self>)
        ensures
            opt_mac(r) == mac_of(s@),
    {
        let parts = split_text(s, ':');
        let ghost pieces = split(s@, ':');
        if parts.len() != 6 {
            assert(texts(parts@).len() == parts@.len());
            return None;
        }
        let mut bytes: Vec<u8> = Vec::new();
        let mut i: usize = 0;
        while i < 6
            invariant
                i <= 6,
                parts@.len() == 6,
                pieces == texts(parts@),
                pieces == split(s@, ':'),
                bytes@.len() == i,
                forall|j: int|
                    0 <= j < i ==> parse_unsigned(#[trigger] pieces[j], 16, 255) == Some(
                        bytes@[j] as nat,
                    ),
            decreases 6 - i,
        {
            assert(pieces[i as int] == parts@[i as int]@);
            match read_unsigned(parts[i].as_str(), 16, 255) {
                Some(v) => {
                    bytes.push(v as u8);
                },
                None => {
                    return None;
                },
            }
            i += 1;
        }
        let m = MacAddress([bytes[0], bytes[1], bytes[2], bytes[3], bytes[4], bytes[5]]);
        proof {
            let wanted = Seq::new(6, |i: int| parse_unsigned(pieces[i], 16, 255)->0 as u8);
            assert forall|j: int| 0 <= j < 6 implies m@[j] == wanted[j] by {
                assert(parse_unsigned(pieces[j], 16, 255) == Some(bytes@[j] as nat));
            }
            assert(m@ =~= wanted);
        }
        Some(m)
    }

    /// The address in text, such as `aa:bb:cc:dd:ee:ff`.
    pub fn to_string(&self) -> (r: String)
        ensures
            r@ == mac_text(self@),
    {
        let ghost parts = self@.map_values(|b: u8| hex_byte(b));
        let mut r = String::new();
        let mut i: usize = 0;
        assert(parts.take(0) =~= Seq::<Seq<char>>::empty());
        while i < 6
            invariant
                i <= 6,
                parts == self@.map_values(|b: u8| hex_byte(b)),
                r@ == join(parts.take(i as int), ':'),
            decreases 6 - i,
        {
            if i > 0 {
                r.push(':');
            }
            push_hex_byte(&mut r, self.0[i]);
            proof {
                lemma_join_push(parts.take(i as int), parts[i as int], ':');
                assert(parts.take(i + 1) =~= parts.take(i as int).push(parts[i as int]));
                if i == 0 {
                    assert(r@ =~= parts[0]);
                } else {
                    assert(r@ =~= join(parts.take(i as int), ':') + seq![':'] + parts[i as int]);
                }
            }
            i += 1;
        }
        assert(parts.take(6) =~= parts);
        r
    }
}

/// A byte in two hexadecimal digits reads back as the byte.
proof fn lemma_hex_byte(b: u8)
    ensures
        parse_unsigned(hex_byte(b), 16, 255) == Some(b as nat),
        !hex_byte(b).contains(':'),
{
    let high = b as int / 16;
    let low = b as int % 16;
    lemma_digit_char(high, 16);
    lemma_digit_char(low, 16);
    let empty = Seq::<char>::empty();
    let one = empty.push(crate::number::digit_char(high));
    lemma_digits_push(empty, crate::number::digit_char(high), 16);
    lemma_digits_push(one, crate::number::digit_char(low), 16);
    assert(hex_byte(b) =~= one.push(crate::number::digit_char(low)));
}

/// Every address is the one that its own text denotes.
pub proof fn law_mac_text_round_trip(m: Seq<u8>)
    requires
        m.len() == 6,
    ensures
        mac_of(mac_text(m)) == Some(m),
{
    let parts = m.map_values(|b: u8| hex_byte(b));
    assert forall|i: int| 0 <= i < parts.len() implies !(#[trigger] parts[i]).contains(':') && (
    parse_unsigned(parts[i], 16, 255) == Some(m[i] as nat)) by {
        lemma_hex_byte(m[i]);
    }
    law_split_undoes_join(parts, ':');
    assert(mac_of(mac_text(m))->0 =~= m);
}

/// An IPv4 address: its four octets, most significant first.
#[derive(Debug, Clone, Copy, PartialEq, Eq, Structural)]
pub struct Ipv4Addr(pub u8, pub u8, pub u8, pub u8);

/// One octet in text: one to three decimal digits without a leading zero, of
/// at most 255.
pub open spec fn octet_of(s: Seq<char>) -> Option<nat> {
    match digits_value(s, 10) {
        Some(v) => if 1 <= s.len() <= 3 && (s.len() > 1 ==> s[0] != '0') && v <= 255 {
            Some(v)
        } else {
            None
        },
        None => None,
    }
}

/// The address that a text denotes: four octets with `.` between them.
pub open spec fn ipv4_of(s: Seq<char>) -> Option<Ipv4Addr> {
    let parts = split(s, '.');
    if parts.len() == 4 && octet_of(parts[0]) is Some && octet_of(parts[1]) is Some && octet_of(
        parts[2],
    ) is Some && octet_of(parts[3]) is Some {
        Some(
            Ipv4Addr(
                octet_of(parts[0])->0 as u8,
                octet_of(parts[1])->0 as u8,
                octet_of(parts[2])->0 as u8,
                octet_of(parts[3])->0 as u8,
            ),
        )
    } else {
        None
    }
}

/// The text of an address, such as `192.168.64.1`.
pub open spec fn ipv4_text(a: Ipv4Addr) -> Seq<char> {
    join(
        seq![decimal(a.0 as nat), decimal(a.1 as nat), decimal(a.2 as nat), decimal(a.3 as nat)],
        '.',
    )
}

/// Reads one octet.
fn read_octet(s: &str) -> (r: Option<u8>)
    ensures
        match r {
            Some(v) => octet_of(s@) == Some(v as nat),
            None => octet_of(s@) is None,
        },
{
    let chars = to_chars(s);
    if chars.len() == 0 || chars.len() > 3 || (chars.len() > 1 && chars[0] == '0') {
        return None;
    }
    if chars[0] == '+' {
        proof {
            crate::number::lemma_prefix_not_digits(s@, 10);
        }
        return None;
    }
    match read_unsigned(s, 10, 255) {
        Some(v) => Some(v as u8),
        None => None,
    }
}

impl Ipv4Addr {
    /// The address with the given octets.
    pub fn new(a: u8, b: u8, c: u8, d: u8) -> (r: Self)
        ensures
            r == Ipv4Addr(a, b, c, d),
    {
        Ipv4Addr(a, b, c, d)
    }

    /// Reads an address such as `192.168.64.1`.
    pub fn parse(s: &str) -> (r: Option<Self>)
        ensures
            r == ipv4_of(s@),
    {
        let parts = split_text(s, '.');
        let ghost pieces = split(s@, '.');
        assert(pieces == texts(parts@));
        assert(pieces.len() == parts@.len());
        if parts.len() != 4 {
            return None;
        }
        assert(forall|i: int| 0 <= i < 4 ==> pieces[i] == (#[trigger] parts@[i])@);
        match (
            read_octet(parts[0].as_str()),
            read_octet(parts[1].as_str()),
            read_octet(parts[2].as_str()),
            read_octet(parts[3].as_str()),
        ) {
            (Some(a), Some(b), Some(c), Some(d)) => Some(Ipv4Addr(a, b, c, d)),
            _ => None,
        }
    }

    /// The address in text, such as `192.168.64.1`.
    pub fn to_string(&self) -> (r: String)
        ensures
            r@ == ipv4_text(*self),
    {
        let mut r = String::new();
        push_decimal(&mut r, self.0 as u64);
        r.push('.');
        push_decimal(&mut r, self.1 as u64);
        r.push('.');
        push_decimal(&mut r, self.2 as u64);
        r.push('.');
        push_decimal(&mut r, self.3 as u64);
        proof {
            reveal_with_fuel(join, 4);
            let parts = seq![
                decimal(self.0 as nat),
                decimal(self.1 as nat),
                decimal(self.2 as nat),
                decimal(self.3 as nat),
            ];
            assert(parts.drop_first().drop_first().drop_first() =~= seq![decimal(self.3 as nat)]);
            assert(r@ =~= ipv4_text(*self));
        }
        r
    }
}

/// The decimal notation of a byte is an octet.
proof fn lemma_octet(v: u8)
    ensures
        octet_of(decimal(v as nat)) == Some(v as nat),
        !decimal(v as nat).contains('.'),
{
    let n = v as nat;
    lemma_decimal(n);
    reveal_with_fuel(decimal, 4);
    if n >= 10 {
        lemma_digit_char((n / 10 % 10) as int, 10);
        if n >= 100 {
            assert(1 <= n / 100 <= 2);
            assert(n / 10 / 10 == n / 100);
            assert(decimal(n)[0] == crate::number::digit_char((n / 100) as int));
        } else {
            assert(decimal(n)[0] == crate::number::digit_char((n / 10) as int));
        }
    }
    assert forall|i: int| 0 <= i < decimal(n).len() implies decimal(n)[i] != '.' by {
        assert('0' <= decimal(n)[i]);
    }
}

/// Every address is the one that its own text denotes.
pub proof fn law_ipv4_text_round_trip(a: Ipv4Addr)
    ensures
        ipv4_of(ipv4_text(a)) == Some(a),
{
    lemma_octet(a.0);
    lemma_octet(a.1);
    lemma_octet(a.2);
    lemma_octet(a.3);
    let parts = seq![
        decimal(a.0 as nat),
        decimal(a.1 as nat),
        decimal(a.2 as nat),
        decimal(a.3 as nat),
    ];
    law_split_undoes_join(parts, '.');
}

/// Every address has one notation: a text that denotes it is the text that it
/// is written as. In particular there are no leading zeros, signs or spaces.
pub proof fn law_ipv4_notation_is_unique(s: Seq<char>)
    ensures
        ipv4_of(s) matches Some(a) ==> ipv4_text(a) == s,
{
    if let Some(a) = ipv4_of(s) {
        let parts = split(s, '.');
        law_notation_is_unique(parts[0]);
        law_notation_is_unique(parts[1]);
        law_notation_is_unique(parts[2]);
        law_notation_is_unique(parts[3]);
        assert(seq![
            decimal(a.0 as nat),
            decimal(a.1 as nat),
            decimal(a.2 as nat),
            decimal(a.3 as nat),
        ] =~= parts);
        law_join_undoes_split(s, '.');
    }
}

/// An address has six parts, each of them a hexadecimal number of one byte.
pub proof fn law_mac_addresses_have_six_parts(parts: Seq<Seq<char>>)
    requires
        parts.len() > 0,
        forall|i: int| 0 <= i < parts.len() ==> !(#[trigger] parts[i]).contains(':'),
    ensures
        mac_of(join(parts, ':')) is Some ==> parts.len() == 6,
        mac_of(join(parts, ':')) matches Some(m) ==> m.len() == 6 && forall|i: int|
            0 <= i < 6 ==> parse_unsigned(parts[i], 16, 255) == Some((#[trigger] m[i]) as nat),
{
    law_split_undoes_join(parts, ':');
    if let Some(m) = mac_of(join(parts, ':')) {
        assert forall|i: int| 0 <= i < 6 implies parse_unsigned(parts[i], 16, 255) == Some(
            (#[trigger] m[i]) as nat,
        ) by {
            assert(parse_unsigned(parts[i], 16, 255) is Some);
        }
    }
}

} // verus!
