//! What a decoder is handed: addresses, times, packet context and payload.

use vstd::prelude::*;

use crate::text;
use crate::text::{cat, dec_text, hex_text, same_text};

verus! {

/// The transport that carried a payload.
#[derive(Debug, Clone, Copy, PartialEq, Eq, Structural)]
pub enum TransportProtocol {
    Tcp,
    Udp,
    Ethernet,
}

impl TransportProtocol {
    /// The name of the transport.
    pub open spec fn name(self) -> Seq<char> {
        match self {
            TransportProtocol::Tcp => "tcp"@,
            TransportProtocol::Udp => "udp"@,
            TransportProtocol::Ethernet => "ethernet"@,
        }
    }

    /// The name of the transport.
    pub fn as_str(&self) -> (r: &'static str)
        ensures
            r@ == self.name(),
    {
        match self {
            TransportProtocol::Tcp => "tcp",
            TransportProtocol::Udp => "udp",
            TransportProtocol::Ethernet => "ethernet",
        }
    }
}

/// What traffic a decoder asks for.
#[derive(Debug, Clone, Copy, PartialEq, Eq, Structural)]
pub enum DecoderInterest {
    TcpPort(u16),
    UdpPort(u16),
    EtherType(u16),
    Llc { dsap: u8, ssap: u8 },
}

/// A point in time: whole seconds since the Unix epoch and the nanoseconds after them.
#[derive(Debug, Clone, Copy, PartialEq, Eq, Structural)]
pub struct Timestamp {
    pub seconds: i64,
    pub nanos: u32,
}

/// Two to the power of 64.
pub open spec fn two64() -> int {
    0x1_0000_0000_0000_0000
}

proof fn negated_mod(n: int, p: int)
    requires
        n >= 0,
        p > 0,
    ensures
        (-n) % p == (p - n % p) % p,
{
    vstd::arithmetic::div_mod::lemma_fundamental_div_mod(n, p);
    assert(p * (n / p + 1) + -n == p - n % p) by (nonlinear_arith)
        requires
            n == p * (n / p) + n % p,
    ;
    vstd::arithmetic::div_mod::lemma_mod_multiples_vanish(n / p + 1, -n, p);
}

impl Timestamp {
    /// The nanoseconds since the Unix epoch.
    pub open spec fn total_nanos(self) -> int {
        self.seconds * 1_000_000_000 + self.nanos
    }

    /// The whole microseconds since the Unix epoch, as a 64-bit pattern.
    pub open spec fn micros(self) -> u64 {
        ((self.seconds * 1_000_000 + self.nanos / 1_000) % two64()) as u64
    }

    /// The second of the day.
    pub open spec fn day_second(self) -> int {
        self.seconds as int % 86_400
    }

    /// The nanoseconds from `earlier` to this time. Nanoseconds beyond a whole second stand for a
    /// leap second, which is counted where it lies between the two, by the second of the day.
    pub open spec fn nanos_since(self, earlier: Timestamp) -> int {
        let second: int = 1_000_000_000;
        let plain = self.total_nanos() - earlier.total_nanos();
        if self.day_second() > earlier.day_second() && earlier.nanos >= second {
            plain + second
        } else if self.day_second() < earlier.day_second() && self.nanos >= second {
            plain - second
        } else {
            plain
        }
    }

    /// Whether less than a whole second is missing for this time to reach `earlier`.
    pub open spec fn reached_spec(self, earlier: Timestamp) -> bool {
        self.nanos_since(earlier) > -1_000_000_000
    }

    fn second_of_day(&self) -> (r: i128)
        ensures
            r == self.day_second(),
    {
        let s: i128 = self.seconds as i128;
        if s >= 0 {
            s % 86_400
        } else {
            proof {
                negated_mod(-s, 86_400);
            }
            let r: i128 = (-s) % 86_400;
            if r == 0 {
                0
            } else {
                86_400 - r
            }
        }
    }

    /// The whole microseconds since the Unix epoch, as a 64-bit pattern.
    pub fn timestamp_micros(&self) -> (r: u64)
        ensures
            r == self.micros(),
    {
        let m: i128 = self.seconds as i128 * 1_000_000 + (self.nanos / 1_000) as i128;
        let p: i128 = 0x1_0000_0000_0000_0000;
        if m >= 0 {
            (m % p) as u64
        } else {
            proof {
                negated_mod(-m, p as int);
            }
            let s: i128 = p - (-m) % p;
            if s == p {
                0
            } else {
                s as u64
            }
        }
    }

    /// Whether a wait that began at `earlier` is over: the difference, in whole seconds
    /// rounded towards zero, is not negative.
    pub fn reached(&self, earlier: &Timestamp) -> (r: bool)
        ensures
            r == self.reached_spec(*earlier),
    {
        let a: i128 = self.seconds as i128 * 1_000_000_000 + self.nanos as i128;
        let b: i128 = earlier.seconds as i128 * 1_000_000_000 + earlier.nanos as i128;
        let mut since: i128 = a - b;
        let now: i128 = self.second_of_day();
        let begun: i128 = earlier.second_of_day();
        if now > begun && earlier.nanos >= 1_000_000_000 {
            since = since + 1_000_000_000;
        } else if now < begun && self.nanos >= 1_000_000_000 {
            since = since - 1_000_000_000;
        }
        since > -1_000_000_000
    }
}

/// A network address. An IPv6 address is held as its canonical text.
#[derive(Debug, Clone)]
pub enum IpAddress {
    V4([u8; 4]),
    V6(String),
}

/// The dotted decimal text of an IPv4 address.
pub open spec fn dotted(b: Seq<u8>) -> Seq<char> {
    text::dec(b[0] as nat) + "."@ + text::dec(b[1] as nat) + "."@ + text::dec(b[2] as nat) + "."@
        + text::dec(b[3] as nat)
}

/// An address as contracts speak of it.
pub enum AddressView {
    V4(Seq<u8>),
    V6(Seq<char>),
}

impl AddressView {
    /// The canonical text of the address.
    pub open spec fn text(self) -> Seq<char> {
        match self {
            AddressView::V4(b) => dotted(b),
            AddressView::V6(t) => t,
        }
    }

    /// Whether the address is the unspecified one.
    pub open spec fn unspecified(self) -> bool {
        match self {
            AddressView::V4(b) => b[0] == 0 && b[1] == 0 && b[2] == 0 && b[3] == 0,
            AddressView::V6(t) => t == "::"@,
        }
    }
}

impl View for IpAddress {
    type V = AddressView;

    open spec fn view(&self) -> AddressView {
        match self {
            IpAddress::V4(b) => AddressView::V4(b@),
            IpAddress::V6(t) => AddressView::V6(t@),
        }
    }
}

impl IpAddress {
    /// The canonical text of the address.
    pub fn text(&self) -> (r: String)
        ensures
            r@ == self@.text(),
    {
        match self {
            IpAddress::V4(b) => {
                let s = cat(cat(dec_text(b[0]).as_str(), ".").as_str(), dec_text(b[1]).as_str());
                let s = cat(cat(s.as_str(), ".").as_str(), dec_text(b[2]).as_str());
                cat(cat(s.as_str(), ".").as_str(), dec_text(b[3]).as_str())
            },
            IpAddress::V6(t) => t.as_str().to_owned(),
        }
    }

    /// Whether the address is the unspecified one.
    pub fn is_unspecified(&self) -> (r: bool)
        ensures
            r == self@.unspecified(),
    {
        match self {
            IpAddress::V4(b) => b[0] == 0 && b[1] == 0 && b[2] == 0 && b[3] == 0,
            IpAddress::V6(t) => same_text(t.as_str(), "::"),
        }
    }

    /// A copy of the address.
    pub fn copy(&self) -> (r: Self)
        ensures
            r@ == self@,
    {
        match self {
            IpAddress::V4(b) => IpAddress::V4(*b),
            IpAddress::V6(t) => IpAddress::V6(t.as_str().to_owned()),
        }
    }
}

/// The text of a hardware address: six pairs of hexadecimal digits with colons between.
pub open spec fn mac_text(m: Seq<u8>) -> Seq<char> {
    text::hex(m[0] as nat, 2) + ":"@ + text::hex(m[1] as nat, 2) + ":"@ + text::hex(
        m[2] as nat,
        2,
    ) + ":"@ + text::hex(m[3] as nat, 2) + ":"@ + text::hex(m[4] as nat, 2) + ":"@ + text::hex(
        m[5] as nat,
        2,
    )
}

/// The text of a hardware address.
pub fn format_mac(m: &[u8; 6]) -> (r: String)
    ensures
        r@ == mac_text(m@),
{
    let s = cat(cat(hex_text(m[0], 2).as_str(), ":").as_str(), hex_text(m[1], 2).as_str());
    let s = cat(cat(s.as_str(), ":").as_str(), hex_text(m[2], 2).as_str());
    let s = cat(cat(s.as_str(), ":").as_str(), hex_text(m[3], 2).as_str());
    let s = cat(cat(s.as_str(), ":").as_str(), hex_text(m[4], 2).as_str());
    cat(cat(s.as_str(), ":").as_str(), hex_text(m[5], 2).as_str())
}

/// Addresses, ports and capture time of a packet. `timestamp` counts nanoseconds.
#[derive(Debug, Clone)]
pub struct PacketContext {
    pub src_mac: [u8; 6],
    pub dst_mac: [u8; 6],
    pub src_ip: IpAddress,
    pub dst_ip: IpAddress,
    pub src_port: u16,
    pub dst_port: u16,
    pub vlan_id: Option<u16>,
    pub timestamp: u64,
}

/// A packet context as contracts speak of it.
pub struct ContextView {
    pub src_mac: Seq<u8>,
    pub dst_mac: Seq<u8>,
    pub src_ip: AddressView,
    pub dst_ip: AddressView,
    pub src_port: u16,
    pub dst_port: u16,
    pub vlan_id: Option<u16>,
    pub timestamp: u64,
}

impl View for PacketContext {
    type V = ContextView;

    open spec fn view(&self) -> ContextView {
        ContextView {
            src_mac: self.src_mac@,
            dst_mac: self.dst_mac@,
            src_ip: self.src_ip@,
            dst_ip: self.dst_ip@,
            src_port: self.src_port,
            dst_port: self.dst_port,
            vlan_id: self.vlan_id,
            timestamp: self.timestamp,
        }
    }
}

/// The key of the asset at an address: the address where it is specified, else the hardware
/// address.
pub open spec fn asset_key(ip: AddressView, mac: Seq<u8>) -> Seq<char> {
    if ip.unspecified() {
        mac_text(mac)
    } else {
        ip.text()
    }
}

fn asset_key_text(ip: &IpAddress, mac: &[u8; 6]) -> (r: String)
    ensures
        r@ == asset_key(ip@, mac@),
{
    if ip.is_unspecified() {
        format_mac(mac)
    } else {
        ip.text()
    }
}

/// The key of the source asset; falls back to the hardware address when the source address is
/// unspecified.
pub fn context_asset_key(context: &PacketContext) -> (r: String)
    ensures
        r@ == asset_key(context@.src_ip, context@.src_mac),
{
    asset_key_text(&context.src_ip, &context.src_mac)
}

/// The key of the destination asset; falls back to the hardware address when the destination
/// address is unspecified.
pub fn context_remote_asset_key(context: &PacketContext) -> (r: String)
    ensures
        r@ == asset_key(context@.dst_ip, context@.dst_mac),
{
    asset_key_text(&context.dst_ip, &context.dst_mac)
}

/// One payload of a session, with where and when it was captured.
#[derive(Debug, Clone)]
pub struct StreamChunk<'a> {
    pub capture_id: &'a str,
    pub segment_hash: &'a str,
    pub interface_id: u32,
    pub frame_index: u64,
    pub timestamp: Timestamp,
    pub context: PacketContext,
    pub ethertype: u16,
    pub ip_proto: Option<u8>,
    pub llc: Option<(u8, u8)>,
    pub transport: TransportProtocol,
    pub payload: &'a [u8],
    pub session_key: String,
    pub captured_len: u64,
}

/// A chunk as contracts speak of it.
pub struct ChunkView {
    pub capture_id: Seq<char>,
    pub segment_hash: Seq<char>,
    pub interface_id: u32,
    pub frame_index: u64,
    pub timestamp: Timestamp,
    pub context: ContextView,
    pub ethertype: u16,
    pub ip_proto: Option<u8>,
    pub llc: Option<(u8, u8)>,
    pub transport: TransportProtocol,
    pub payload: Seq<u8>,
    pub session_key: Seq<char>,
    pub captured_len: u64,
}

impl<'a> View for StreamChunk<'a> {
    type V = ChunkView;

    open spec fn view(&self) -> ChunkView {
        ChunkView {
            capture_id: self.capture_id@,
            segment_hash: self.segment_hash@,
            interface_id: self.interface_id,
            frame_index: self.frame_index,
            timestamp: self.timestamp,
            context: self.context@,
            ethertype: self.ethertype,
            ip_proto: self.ip_proto,
            llc: self.llc,
            transport: self.transport,
            payload: self.payload@,
            session_key: self.session_key@,
            captured_len: self.captured_len,
        }
    }
}

} // verus!
