//! EtherNet/IP explicit messaging on TCP port 44818.
//!
//! The encapsulation header is taken apart elsewhere; this decoder reads the CIP data in it
//! and turns both into events. Cyclic I/O and CIP Safety have decoders of their own.

use vstd::prelude::*;

use crate::bytes;
use crate::bytes::{cut, get_le16, get_le32};
use crate::collections;
use crate::collections::Attributes;
use crate::events;
use crate::events::{
    artifact_event, asset_event, chunk_envelope, emit, emit_all, no_events, no_values,
    parse_anomaly_event, transaction_event, AssetObservation, AssetView, BronzeEvent, EnvelopeView,
    EventEnvelope, EventView, ProtocolFields, ProtocolFieldsView, ProtocolTransaction,
    TransactionView,
};
use crate::packet;
use crate::packet::{ChunkView, DecoderInterest, StreamChunk, TransportProtocol};
use crate::text;
use crate::text::{cat, dec_text, lossy_text, no_texts, one_text, opt_owned, push_text};

verus! {

/// The parsed encapsulation header, with the data after it.
#[derive(Debug, Clone)]
pub struct EthernetIpFields {
    pub command: u16,
    pub session_handle: u32,
    pub encap_status: u32,
    pub encap_options: u32,
    pub cip_data: Vec<u8>,
}

/// The typed fields of an EtherNet/IP packet.
#[derive(Debug, Clone)]
pub struct EthernetIpBronzeFields {
    pub encap_command: u16,
    pub encap_command_name: String,
    pub session_handle: Option<u32>,
    pub encap_status: Option<u32>,
    pub encap_options: Option<u32>,
    pub cip_service: Option<u8>,
    pub cip_service_name: Option<String>,
    pub cip_class_id: Option<u32>,
    pub cip_instance_id: Option<u32>,
    pub cip_attribute_id: Option<u32>,
    pub cip_general_status: Option<u8>,
    pub cip_extended_status: Option<u16>,
    pub is_request: bool,
    pub direction: String,
}

/// EtherNet/IP fields as contracts speak of them.
pub struct EthernetIpFieldsView {
    pub encap_command: u16,
    pub encap_command_name: Seq<char>,
    pub session_handle: Option<u32>,
    pub encap_status: Option<u32>,
    pub encap_options: Option<u32>,
    pub cip_service: Option<u8>,
    pub cip_service_name: Option<Seq<char>>,
    pub cip_class_id: Option<u32>,
    pub cip_instance_id: Option<u32>,
    pub cip_attribute_id: Option<u32>,
    pub cip_general_status: Option<u8>,
    pub cip_extended_status: Option<u16>,
    pub is_request: bool,
    pub direction: Seq<char>,
}

impl View for EthernetIpBronzeFields {
    type V = EthernetIpFieldsView;

    open spec fn view(&self) -> EthernetIpFieldsView {
        EthernetIpFieldsView {
            encap_command: self.encap_command,
            encap_command_name: self.encap_command_name@,
            session_handle: self.session_handle,
            encap_status: self.encap_status,
            encap_options: self.encap_options,
            cip_service: self.cip_service,
            cip_service_name: text::opt_view(self.cip_service_name),
            cip_class_id: self.cip_class_id,
            cip_instance_id: self.cip_instance_id,
            cip_attribute_id: self.cip_attribute_id,
            cip_general_status: self.cip_general_status,
            cip_extended_status: self.cip_extended_status,
            is_request: self.is_request,
            direction: self.direction@,
        }
    }
}

/// What a device says of itself.
#[derive(Debug, Clone)]
pub struct CipIdentityClaim {
    pub vendor_id: u16,
    pub device_type: u16,
    pub product_code: u16,
    pub revision: String,
    pub serial_number: u32,
    pub product_name: String,
    pub status: u16,
    pub state: Option<u8>,
    pub ip_address: Option<String>,
}

/// An identity as contracts speak of it.
pub struct ClaimView {
    pub vendor_id: u16,
    pub device_type: u16,
    pub product_code: u16,
    pub revision: Seq<char>,
    pub serial_number: u32,
    pub product_name: Seq<char>,
    pub status: u16,
    pub state: Option<u8>,
    pub ip_address: Option<Seq<char>>,
}

impl View for CipIdentityClaim {
    type V = ClaimView;

    open spec fn view(&self) -> ClaimView {
        ClaimView {
            vendor_id: self.vendor_id,
            device_type: self.device_type,
            product_code: self.product_code,
            revision: self.revision@,
            serial_number: self.serial_number,
            product_name: self.product_name@,
            status: self.status,
            state: self.state,
            ip_address: text::opt_view(self.ip_address),
        }
    }
}

/// The views of a list of identities.
pub open spec fn claims_view(v: Seq<CipIdentityClaim>) -> Seq<ClaimView> {
    Seq::new(v.len(), |i: int| v[i]@)
}

// ---------------------------------------------------------------------------
// Labels
// ---------------------------------------------------------------------------

/// The name of an encapsulation command.
pub open spec fn command_of(command: u16) -> Seq<char> {
    if command == 0x0001 {
        "nop"@
    } else if command == 0x0004 {
        "list_services"@
    } else if command == 0x0063 {
        "list_identity"@
    } else if command == 0x0064 {
        "list_interfaces"@
    } else if command == 0x0065 {
        "register_session"@
    } else if command == 0x0066 {
        "unregister_session"@
    } else if command == 0x006F {
        "send_rr_data"@
    } else if command == 0x0070 {
        "send_unit_data"@
    } else {
        "encapsulation_command"@
    }
}

/// The name of an encapsulation command.
pub fn ethernet_ip_command_name(command: u16) -> (r: &'static str)
    ensures
        r@ == command_of(command),
{
    match command {
        0x0001 => "nop",
        0x0004 => "list_services",
        0x0063 => "list_identity",
        0x0064 => "list_interfaces",
        0x0065 => "register_session",
        0x0066 => "unregister_session",
        0x006F => "send_rr_data",
        0x0070 => "send_unit_data",
        _ => "encapsulation_command",
    }
}

/// The name of a vendor.
pub open spec fn vendor_of(vendor_id: u16) -> Option<Seq<char>> {
    if vendor_id == 1 {
        Some("Rockwell Automation/Allen-Bradley"@)
    } else {
        None
    }
}

/// The name of a vendor.
pub fn cip_vendor_name(vendor_id: u16) -> (r: Option<&'static str>)
    ensures
        text::opt_str(r) == vendor_of(vendor_id),
{
    match vendor_id {
        1 => Some("Rockwell Automation/Allen-Bradley"),
        _ => None,
    }
}

/// The role of a device type.
pub open spec fn role_of(device_type: u16) -> Option<Seq<char>> {
    if device_type == 0x000E {
        Some("plc"@)
    } else if device_type == 0x000C {
        Some("adapter"@)
    } else {
        None
    }
}

/// The role of a device type.
pub fn cip_role_from_device_type(device_type: u16) -> (r: Option<&'static str>)
    ensures
        text::opt_str(r) == role_of(device_type),
{
    match device_type {
        0x000E => Some("plc"),
        0x000C => Some("adapter"),
        _ => None,
    }
}

/// The name of a service code, whether it stands in a request or in a response.
pub open spec fn service_code_of(service: u8) -> Option<Seq<char>> {
    let s = service & 0x7F;
    if s == 0x01 {
        Some("get_attributes_all"@)
    } else if s == 0x02 {
        Some("set_attributes_all"@)
    } else if s == 0x03 {
        Some("get_attribute_list"@)
    } else if s == 0x04 {
        Some("set_attribute_list"@)
    } else if s == 0x05 {
        Some("reset"@)
    } else if s == 0x09 {
        Some("delete"@)
    } else if s == 0x0A {
        Some("multiple_service_packet"@)
    } else if s == 0x0E {
        Some("get_attribute_single"@)
    } else if s == 0x10 {
        Some("set_attribute_single"@)
    } else if s == 0x4B {
        Some("execute_pccc"@)
    } else if s == 0x4C {
        Some("read_tag"@)
    } else if s == 0x4D {
        Some("write_tag"@)
    } else if s == 0x4E {
        Some("forward_close"@)
    } else if s == 0x52 {
        Some("unconnected_send"@)
    } else if s == 0x54 {
        Some("forward_open"@)
    } else if s == 0x5B {
        Some("large_forward_open"@)
    } else {
        None
    }
}

/// The name of a service code.
pub fn cip_service_code_name(service: u8) -> (r: Option<&'static str>)
    ensures
        text::opt_str(r) == service_code_of(service),
{
    match service & 0x7F {
        0x01 => Some("get_attributes_all"),
        0x02 => Some("set_attributes_all"),
        0x03 => Some("get_attribute_list"),
        0x04 => Some("set_attribute_list"),
        0x05 => Some("reset"),
        0x09 => Some("delete"),
        0x0A => Some("multiple_service_packet"),
        0x0E => Some("get_attribute_single"),
        0x10 => Some("set_attribute_single"),
        0x4B => Some("execute_pccc"),
        0x4C => Some("read_tag"),
        0x4D => Some("write_tag"),
        0x4E => Some("forward_close"),
        0x52 => Some("unconnected_send"),
        0x54 => Some("forward_open"),
        0x5B => Some("large_forward_open"),
        _ => None,
    }
}

// ---------------------------------------------------------------------------
// The explicit message
// ---------------------------------------------------------------------------

/// The first of `n` packet items from `off` on that carries a CIP message.
pub open spec fn message_item(data: Seq<u8>, off: int, n: nat) -> Option<Seq<u8>>
    decreases n,
{
    if n == 0 || off + 4 > data.len() {
        None
    } else {
        let item_type = bytes::le16(data, off);
        let end = off + 4 + bytes::le16(data, off + 2);
        if end > data.len() {
            None
        } else if item_type == 0x00B1 || item_type == 0x00B2 {
            Some(data.subrange(off + 4, end))
        } else {
            message_item(data, end, (n - 1) as nat)
        }
    }
}

/// The CIP message in the data of a packet: that of the first connected or unconnected data
/// item.
pub open spec fn message_of(data: Seq<u8>) -> Option<Seq<u8>> {
    if data.len() < 8 {
        None
    } else {
        message_item(data, 8, bytes::le16(data, 6) as nat)
    }
}

/// The bytes of an optional slice.
pub open spec fn opt_bytes(b: Option<&[u8]>) -> Option<Seq<u8>> {
    match b {
        Some(s) => Some(s@),
        None => None,
    }
}

/// The CIP message in the data of a packet.
pub fn cip_explicit_message(cip_data: &[u8]) -> (r: Option<&[u8]>)
    ensures
        opt_bytes(r) == message_of(cip_data@),
{
    if cip_data.len() < 8 {
        return None;
    }
    let item_count = get_le16(cip_data, 6);
    let mut left: u16 = item_count;
    let mut offset: usize = 8;
    while left > 0
        invariant
            cip_data.len() >= 8,
            offset <= cip_data.len(),
            message_of(cip_data@) == message_item(cip_data@, offset as int, left as nat),
        decreases left,
    {
        if cip_data.len() - offset < 4 {
            return None;
        }
        let item_type = get_le16(cip_data, offset);
        let item_len = get_le16(cip_data, offset + 2) as usize;
        if cip_data.len() - offset - 4 < item_len {
            return None;
        }
        let start: usize = offset + 4;
        if item_type == 0x00B1 || item_type == 0x00B2 {
            return Some(cut(cip_data, start, start + item_len));
        }
        offset = start + item_len;
        left = left - 1;
    }
    None
}

/// The first byte that is not zero.
pub open spec fn first_nonzero(b: Seq<u8>) -> Option<u8>
    decreases b.len(),
{
    if b.len() == 0 {
        None
    } else if b[0] != 0 {
        Some(b[0])
    } else {
        first_nonzero(b.drop_first())
    }
}

fn find_nonzero(b: &[u8]) -> (r: Option<u8>)
    ensures
        r == first_nonzero(b@),
{
    let mut i: usize = 0;
    assert(b@.skip(0) =~= b@);
    while i < b.len()
        invariant
            i <= b.len(),
            first_nonzero(b@) == first_nonzero(b@.skip(i as int)),
        decreases b.len() - i,
    {
        assert(b@.skip(i as int).drop_first() =~= b@.skip(i + 1));
        if b[i] != 0 {
            return Some(b[i]);
        }
        i = i + 1;
    }
    None
}

/// The service byte of a packet: that of its message, or the first byte that is not zero
/// where no message can be made out.
pub open spec fn service_byte(data: Seq<u8>) -> Option<u8> {
    match message_of(data) {
        Some(m) => if m.len() > 0 {
            Some(m[0])
        } else {
            first_nonzero(data)
        },
        None => first_nonzero(data),
    }
}

/// The service label of a packet.
pub open spec fn service_of(data: Seq<u8>) -> Option<Seq<char>> {
    match service_byte(data) {
        None => None,
        Some(b) => {
            let s = b & 0x7F;
            if s == 0x01 {
                Some("get_attributes_all"@)
            } else if s == 0x4C {
                Some("read_tag_service"@)
            } else if s == 0x4D {
                Some("write_tag_service"@)
            } else if s == 0x0E {
                Some("get_attribute_single"@)
            } else if s == 0x10 {
                Some("set_attribute_single"@)
            } else if s == 0x54 {
                Some("forward_open"@)
            } else if s == 0x52 {
                Some("unconnected_send"@)
            } else {
                None
            }
        },
    }
}

/// The service label of a packet.
pub fn cip_service_name(cip_data: &[u8]) -> (r: Option<&'static str>)
    ensures
        text::opt_str(r) == service_of(cip_data@),
{
    let byte: Option<u8> = match cip_explicit_message(cip_data) {
        Some(m) => if m.len() > 0 {
            Some(m[0])
        } else {
            find_nonzero(cip_data)
        },
        None => find_nonzero(cip_data),
    };
    match byte {
        None => None,
        Some(b) => match b & 0x7F {
            0x01 => Some("get_attributes_all"),
            0x4C => Some("read_tag_service"),
            0x4D => Some("write_tag_service"),
            0x0E => Some("get_attribute_single"),
            0x10 => Some("set_attribute_single"),
            0x54 => Some("forward_open"),
            0x52 => Some("unconnected_send"),
            _ => None,
        },
    }
}

// ---------------------------------------------------------------------------
// Identities
// ---------------------------------------------------------------------------

/// A revision in text.
pub open spec fn revision_of(major: u8, minor: u8) -> Seq<char> {
    text::dec(major as nat) + "."@ + text::dec(minor as nat)
}

fn revision_text(major: u8, minor: u8) -> (r: String)
    ensures
        r@ == revision_of(major, minor),
{
    cat(cat(dec_text(major).as_str(), ".").as_str(), dec_text(minor).as_str())
}

/// The identity whose fields start at `o` in `b`, where its name lies within the bytes.
pub open spec fn identity_at(b: Seq<u8>, o: int, ip_address: Option<Seq<char>>) -> Option<
    ClaimView,
> {
    let name_end = o + 15 + b[o + 14];
    if name_end > b.len() {
        None
    } else {
        Some(
            ClaimView {
                vendor_id: bytes::le16(b, o),
                device_type: bytes::le16(b, o + 2),
                product_code: bytes::le16(b, o + 4),
                revision: revision_of(b[o + 6], b[o + 7]),
                status: bytes::le16(b, o + 8),
                serial_number: bytes::le32(b, o + 10),
                product_name: text::lossy(b.subrange(o + 15, name_end)),
                state: if name_end < b.len() {
                    Some(b[name_end])
                } else {
                    None
                },
                ip_address,
            },
        )
    }
}

fn parse_identity(b: &[u8], o: usize, ip_address: Option<String>) -> (r: Option<CipIdentityClaim>)
    requires
        o + 15 <= b.len(),
    ensures
        collections::opt_v(r) == identity_at(b@, o as int, text::opt_view(ip_address)),
{
    let name_len = b[o + 14] as usize;
    if b.len() - o - 15 < name_len {
        return None;
    }
    let end: usize = o + 15 + name_len;
    let state: Option<u8> = if end < b.len() {
        Some(b[end])
    } else {
        None
    };
    Some(
        CipIdentityClaim {
            vendor_id: get_le16(b, o),
            device_type: get_le16(b, o + 2),
            product_code: get_le16(b, o + 4),
            revision: revision_text(b[o + 6], b[o + 7]),
            serial_number: get_le32(b, o + 10),
            product_name: lossy_text(cut(b, o + 15, end)),
            status: get_le16(b, o + 8),
            state,
            ip_address,
        },
    )
}

/// The identity in an item of a ListIdentity reply.
pub open spec fn list_item(item: Seq<u8>) -> Option<ClaimView> {
    if item.len() < 34 {
        None
    } else {
        identity_at(item, 18, Some(packet::dotted(item.subrange(6, 10))))
    }
}

/// The identity in an item of a ListIdentity reply.
pub fn parse_list_identity_item(item: &[u8]) -> (r: Option<CipIdentityClaim>)
    ensures
        collections::opt_v(r) == list_item(item@),
{
    if item.len() < 34 {
        return None;
    }
    let ip = packet::IpAddress::V4([item[6], item[7], item[8], item[9]]);
    assert(ip@->V4_0 =~= item@.subrange(6, 10));
    parse_identity(item, 18, Some(ip.text()))
}

/// The identities in the `n` items from `off` on, added to those before.
pub open spec fn list_from(data: Seq<u8>, off: int, n: nat, claims: Seq<ClaimView>) -> Seq<
    ClaimView,
>
    decreases n,
{
    if n == 0 || off + 4 > data.len() {
        claims
    } else {
        let end = off + 4 + bytes::le16(data, off + 2);
        if end > data.len() {
            claims
        } else {
            let found = if bytes::le16(data, off) == 0x000C {
                match list_item(data.subrange(off + 4, end)) {
                    Some(c) => claims.push(c),
                    None => claims,
                }
            } else {
                claims
            };
            list_from(data, end, (n - 1) as nat, found)
        }
    }
}

/// The identities in a ListIdentity reply.
pub open spec fn list_identity(data: Seq<u8>) -> Seq<ClaimView> {
    if data.len() < 2 {
        Seq::empty()
    } else {
        list_from(data, 2, bytes::le16(data, 0) as nat, Seq::empty())
    }
}

/// The identities in a ListIdentity reply.
pub fn parse_enip_list_identity(data: &[u8]) -> (r: Vec<CipIdentityClaim>)
    ensures
        claims_view(r@) == list_identity(data@),
{
    let mut claims: Vec<CipIdentityClaim> = Vec::new();
    assert(claims_view(claims@) =~= Seq::<ClaimView>::empty());
    if data.len() < 2 {
        return claims;
    }
    let item_count = get_le16(data, 0);
    let mut left: u16 = item_count;
    let mut offset: usize = 2;
    while left > 0
        invariant
            data.len() >= 2,
            offset <= data.len(),
            list_identity(data@) == list_from(
                data@,
                offset as int,
                left as nat,
                claims_view(claims@),
            ),
        decreases left,
    {
        if data.len() - offset < 4 {
            return claims;
        }
        let item_type = get_le16(data, offset);
        let item_len = get_le16(data, offset + 2) as usize;
        if data.len() - offset - 4 < item_len {
            return claims;
        }
        let start: usize = offset + 4;
        if item_type == 0x000C {
            match parse_list_identity_item(cut(data, start, start + item_len)) {
                Some(claim) => {
                    let ghost before = claims@;
                    claims.push(claim);
                    assert(claims_view(claims@) =~= claims_view(before).push(claim@));
                },
                None => {},
            }
        }
        offset = start + item_len;
        left = left - 1;
    }
    claims
}

/// The identity in a successful Get_Attributes_All reply.
pub open spec fn identity_response(data: Seq<u8>) -> Option<ClaimView> {
    match message_of(data) {
        None => None,
        Some(m) => if m.len() < 4 || m[0] != 0x81 || m[2] != 0 {
            None
        } else {
            let o = 4 + 2 * m[3];
            if o + 15 > m.len() {
                None
            } else {
                identity_at(m, o, None)
            }
        },
    }
}

/// The identity in a successful Get_Attributes_All reply.
pub fn parse_cip_identity_response(cip_data: &[u8]) -> (r: Option<CipIdentityClaim>)
    ensures
        collections::opt_v(r) == identity_response(cip_data@),
{
    match cip_explicit_message(cip_data) {
        None => None,
        Some(m) => {
            if m.len() < 4 || m[0] != 0x81 || m[2] != 0 {
                return None;
            }
            let o: usize = 4 + m[3] as usize * 2;
            if m.len() < 15 || o > m.len() - 15 {
                return None;
            }
            parse_identity(m, o, None)
        },
    }
}

/// The identities in a packet, by its command.
pub open spec fn claims_of(command: u16, data: Seq<u8>) -> Seq<ClaimView> {
    if command == 0x0063 {
        list_identity(data)
    } else if command == 0x006F || command == 0x0070 {
        match identity_response(data) {
            Some(c) => Seq::<ClaimView>::empty().push(c),
            None => Seq::empty(),
        }
    } else {
        Seq::empty()
    }
}

/// The identities in a packet, by its command.
pub fn parse_cip_identity_claims(command: u16, cip_data: &[u8]) -> (r: Vec<CipIdentityClaim>)
    ensures
        claims_view(r@) == claims_of(command, cip_data@),
{
    let mut claims: Vec<CipIdentityClaim> = Vec::new();
    assert(claims_view(claims@) =~= Seq::<ClaimView>::empty());
    if command == 0x0063 {
        return parse_enip_list_identity(cip_data);
    }
    if command == 0x006F || command == 0x0070 {
        match parse_cip_identity_response(cip_data) {
            Some(c) => {
                claims.push(c);
                assert(claims_view(claims@) =~= Seq::<ClaimView>::empty().push(c@));
            },
            None => {},
        }
    }
    claims
}

/// The first identity in a packet.
pub open spec fn first_claim(command: u16, data: Seq<u8>) -> Option<ClaimView> {
    if claims_of(command, data).len() > 0 {
        Some(claims_of(command, data)[0])
    } else {
        None
    }
}

/// The first identity in a packet.
pub fn parse_cip_identity_claim(command: u16, cip_data: &[u8]) -> (r: Option<CipIdentityClaim>)
    ensures
        collections::opt_v(r) == first_claim(command, cip_data@),
{
    let mut claims = parse_cip_identity_claims(command, cip_data);
    assert(claims_view(claims@).len() == claims@.len());
    if claims.len() == 0 {
        None
    } else {
        Some(claims.remove(0))
    }
}

/// The object references of a packet: its service, and the identity object where it was
/// read.
pub open spec fn refs_of(data: Seq<u8>) -> Seq<Seq<char>> {
    let s = match service_of(data) {
        Some(service) => Seq::<Seq<char>>::empty().push("cip_service:"@ + service),
        None => Seq::empty(),
    };
    if identity_response(data) is Some {
        s.push("cip_object:identity"@)
    } else {
        s
    }
}

/// The object references of a packet.
pub fn cip_object_refs(cip_data: &[u8]) -> (r: Vec<String>)
    ensures
        text::texts(r@) == refs_of(cip_data@),
{
    let mut refs = no_texts();
    if let Some(service) = cip_service_name(cip_data) {
        push_text(&mut refs, cat("cip_service:", service));
    }
    if parse_cip_identity_response(cip_data).is_some() {
        push_text(&mut refs, "cip_object:identity".to_owned());
    }
    refs
}

// ---------------------------------------------------------------------------
// PCCC
// ---------------------------------------------------------------------------

/// Where the embedded PCCC message starts in a CIP message with the Execute PCCC service,
/// and whether the message is a request.
pub open spec fn pccc_at(m: Seq<u8>) -> Option<(bool, int)> {
    if m.len() == 0 || m[0] & 0x7F != 0x4B {
        None
    } else if m[0] & 0x80 == 0 {
        if m.len() < 2 || m.len() < 2 + 2 * m[1] {
            None
        } else {
            Some((true, 2 + 2 * m[1]))
        }
    } else {
        if m.len() < 4 || m.len() < 4 + 2 * m[3] {
            None
        } else {
            Some((false, 4 + 2 * m[3]))
        }
    }
}

/// The embedded PCCC message of a CIP message, and whether it is a request.
pub open spec fn pccc_of(m: Seq<u8>) -> Option<(bool, Seq<u8>)> {
    match pccc_at(m) {
        Some((is_request, start)) => Some((is_request, m.skip(start))),
        None => None,
    }
}

/// The bytes of an optional request flag and slice.
pub open spec fn opt_pdu(r: Option<(bool, &[u8])>) -> Option<(bool, Seq<u8>)> {
    match r {
        Some((q, b)) => Some((q, b@)),
        None => None,
    }
}

/// The embedded PCCC message of a CIP message, and whether it is a request; none for any
/// other service and for a message that ends too early.
pub fn extract_pccc_pdu(message: &[u8]) -> (r: Option<(bool, &[u8])>)
    ensures
        opt_pdu(r) == pccc_of(message@),
{
    if message.len() == 0 {
        return None;
    }
    let service = message[0];
    let is_request = service & 0x80 == 0;
    if service & 0x7F != 0x4B {
        return None;
    }
    let start: usize;
    if is_request {
        if message.len() < 2 {
            return None;
        }
        start = 2 + message[1] as usize * 2;
    } else {
        if message.len() < 4 {
            return None;
        }
        start = 4 + message[3] as usize * 2;
    }
    if message.len() < start {
        return None;
    }
    let pdu = cut(message, start, message.len());
    assert(pdu@ =~= message@.skip(start as int));
    Some((is_request, pdu))
}

/// Whether the CIP data of a packet is kept and looked into for PCCC.
pub open spec fn carries_cip(f: EthernetIpFields) -> bool {
    (f.command == 0x006F || f.command == 0x0070) && f.cip_data@.len() > 0
}

/// The PCCC message of a packet, and whether it is a request.
pub open spec fn packet_pccc(f: EthernetIpFields) -> Option<(bool, Seq<u8>)> {
    if carries_cip(f) {
        match message_of(f.cip_data@) {
            Some(m) => pccc_of(m),
            None => None,
        }
    } else {
        None
    }
}

/// The PCCC message of a packet, and whether it is a request: what a PCCC decoder is to be
/// handed before the packet is taken in.
pub fn pccc_pdu(fields: &EthernetIpFields) -> (r: Option<(bool, &[u8])>)
    ensures
        opt_pdu(r) == packet_pccc(*fields),
{
    if (fields.command == 0x006F || fields.command == 0x0070) && fields.cip_data.len() > 0 {
        match cip_explicit_message(fields.cip_data.as_slice()) {
            Some(m) => extract_pccc_pdu(m),
            None => None,
        }
    } else {
        None
    }
}

// ---------------------------------------------------------------------------
// Path and status
// ---------------------------------------------------------------------------

/// Class, instance and attribute of a path.
pub type PathIds = (Option<u32>, Option<u32>, Option<u32>);

/// What the segments of a path from `i` on add to class, instance and attribute. Logical
/// segments carry them, in 8, 16 or 32 bits; data segments are passed over; any other
/// segment, and one that ends too early, stops the walk.
pub open spec fn path_from(path: Seq<u8>, i: int, ids: PathIds) -> PathIds
    decreases path.len() - i,
{
    if i < 0 || i >= path.len() {
        ids
    } else {
        let seg = path[i];
        let seg_type = (seg & 0xE0) >> 5;
        let seg_format = seg & 0x1F;
        if seg_type == 1 {
            let logical_type = (seg_format & 0x1C) >> 2;
            let format = seg_format & 0x03;
            if format == 0 && i + 1 < path.len() {
                path_from(path, i + 2, with_id(ids, logical_type, path[i + 1] as u32))
            } else if format == 1 && i + 3 < path.len() {
                path_from(path, i + 4, with_id(ids, logical_type, bytes::le16(path, i + 2) as u32))
            } else if format == 2 && i + 5 < path.len() {
                path_from(path, i + 6, with_id(ids, logical_type, bytes::le32(path, i + 2)))
            } else {
                ids
            }
        } else if seg_type == 4 && i + 1 < path.len() {
            let next = i + 2 + 2 * path[i + 1];
            if next < path.len() {
                path_from(path, next, ids)
            } else {
                ids
            }
        } else {
            ids
        }
    }
}

/// Class, instance or attribute set by the type of a logical segment.
pub open spec fn with_id(ids: PathIds, logical_type: u8, value: u32) -> PathIds {
    if logical_type == 0 {
        (Some(value), ids.1, ids.2)
    } else if logical_type == 1 {
        (ids.0, Some(value), ids.2)
    } else if logical_type == 4 {
        (ids.0, ids.1, Some(value))
    } else {
        ids
    }
}

/// Class, instance and attribute of a path that follows its length in 16-bit words.
pub open spec fn path_ids(data: Seq<u8>) -> PathIds {
    if data.len() < 1 || data.len() < 1 + 2 * data[0] {
        (None, None, None)
    } else {
        path_from(data.subrange(1, 1 + 2 * data[0]), 0, (None, None, None))
    }
}

/// Class, instance and attribute of a path that follows its length in 16-bit words.
pub fn parse_cip_path(data: &[u8]) -> (r: (Option<u32>, Option<u32>, Option<u32>))
    ensures
        r == path_ids(data@),
{
    if data.len() < 1 {
        return (None, None, None);
    }
    let path_bytes: usize = data[0] as usize * 2;
    if data.len() - 1 < path_bytes {
        return (None, None, None);
    }
    let path = cut(data, 1, 1 + path_bytes);
    let mut class: Option<u32> = None;
    let mut instance: Option<u32> = None;
    let mut attribute: Option<u32> = None;
    let mut i: usize = 0;
    while i < path.len()
        invariant
            i <= path.len(),
            path@.len() <= 510,
            path_ids(data@) == path_from(path@, i as int, (class, instance, attribute)),
        decreases path.len() - i,
    {
        let seg = path[i];
        let seg_type = (seg & 0xE0) >> 5;
        let seg_format = seg & 0x1F;
        if seg_type == 1 {
            let logical_type = (seg_format & 0x1C) >> 2;
            let format = seg_format & 0x03;
            let value: u32;
            let next: usize;
            if format == 0 && i + 1 < path.len() {
                value = path[i + 1] as u32;
                next = i + 2;
            } else if format == 1 && i + 3 < path.len() {
                value = get_le16(path, i + 2) as u32;
                next = i + 4;
            } else if format == 2 && i + 5 < path.len() {
                value = get_le32(path, i + 2);
                next = i + 6;
            } else {
                return (class, instance, attribute);
            }
            match logical_type {
                0 => {
                    class = Some(value);
                },
                1 => {
                    instance = Some(value);
                },
                4 => {
                    attribute = Some(value);
                },
                _ => {},
            }
            i = next;
        } else if seg_type == 4 && i + 1 < path.len() {
            let next: usize = i + 2 + path[i + 1] as usize * 2;
            if next >= path.len() {
                return (class, instance, attribute);
            }
            i = next;
        } else {
            return (class, instance, attribute);
        }
    }
    (class, instance, attribute)
}

/// General and extended status of a CIP response.
pub open spec fn response_status(m: Seq<u8>) -> (Option<u8>, Option<u16>) {
    if m.len() < 4 || m[0] & 0x80 == 0 {
        (None, None)
    } else {
        (
            Some(m[2]),
            if m[3] > 0 && m.len() >= 4 + 2 * m[3] {
                Some(bytes::le16(m, 4))
            } else {
                None
            },
        )
    }
}

/// General and extended status of a CIP response.
pub fn cip_response_status(message: &[u8]) -> (r: (Option<u8>, Option<u16>))
    ensures
        r == response_status(message@),
{
    if message.len() < 4 || message[0] & 0x80 == 0 {
        return (None, None);
    }
    let ext_size = message[3] as usize;
    let extended: Option<u16> = if ext_size > 0 && message.len() >= 4 + ext_size * 2 {
        Some(get_le16(message, 4))
    } else {
        None
    };
    (Some(message[2]), extended)
}

// ---------------------------------------------------------------------------
// Typed fields
// ---------------------------------------------------------------------------

/// The typed fields of a packet. Only a request has a path, only a response a status.
pub open spec fn typed(
    command: u16,
    command_name: Seq<char>,
    session_handle: u32,
    encap_status: u32,
    encap_options: u32,
    data: Seq<u8>,
    is_request: bool,
    direction: Seq<char>,
) -> EthernetIpFieldsView {
    let m = message_of(data);
    let service: Option<u8> = match m {
        Some(x) => if x.len() > 0 {
            Some(x[0] & 0x7F)
        } else {
            None
        },
        None => None,
    };
    let ids: PathIds = match m {
        Some(x) => if is_request && x.len() > 1 {
            path_ids(x.skip(1))
        } else {
            (None, None, None)
        },
        None => (None, None, None),
    };
    let status: (Option<u8>, Option<u16>) = match m {
        Some(x) => response_status(x),
        None => (None, None),
    };
    EthernetIpFieldsView {
        encap_command: command,
        encap_command_name: command_name,
        session_handle: if session_handle == 0 {
            None
        } else {
            Some(session_handle)
        },
        encap_status: Some(encap_status),
        encap_options: Some(encap_options),
        cip_service: service,
        cip_service_name: match service {
            Some(s) => service_code_of(s),
            None => None,
        },
        cip_class_id: ids.0,
        cip_instance_id: ids.1,
        cip_attribute_id: ids.2,
        cip_general_status: status.0,
        cip_extended_status: status.1,
        is_request,
        direction,
    }
}

/// The typed fields of a packet.
pub fn build_eip_bronze_fields(
    command: u16,
    command_name: &str,
    session_handle: u32,
    encap_status: u32,
    encap_options: u32,
    cip_data: &[u8],
    is_request: bool,
    direction: &str,
) -> (r: EthernetIpBronzeFields)
    ensures
        r@ == typed(
            command,
            command_name@,
            session_handle,
            encap_status,
            encap_options,
            cip_data@,
            is_request,
            direction@,
        ),
{
    let message = cip_explicit_message(cip_data);
    let cip_service: Option<u8> = match message {
        Some(m) => if m.len() > 0 {
            Some(m[0] & 0x7F)
        } else {
            None
        },
        None => None,
    };
    let cip_service_name: Option<String> = match cip_service {
        Some(code) => opt_owned(cip_service_code_name(code)),
        None => None,
    };
    let (cip_class_id, cip_instance_id, cip_attribute_id) = match message {
        Some(m) => if is_request && m.len() > 1 {
            let rest = cut(m, 1, m.len());
            assert(rest@ =~= m@.skip(1));
            parse_cip_path(rest)
        } else {
            (None, None, None)
        },
        None => (None, None, None),
    };
    let (cip_general_status, cip_extended_status) = match message {
        Some(m) => cip_response_status(m),
        None => (None, None),
    };
    EthernetIpBronzeFields {
        encap_command: command,
        encap_command_name: command_name.to_owned(),
        session_handle: if session_handle == 0 {
            None
        } else {
            Some(session_handle)
        },
        encap_status: Some(encap_status),
        encap_options: Some(encap_options),
        cip_service,
        cip_service_name,
        cip_class_id,
        cip_instance_id,
        cip_attribute_id,
        cip_general_status,
        cip_extended_status,
        is_request,
        direction: direction.to_owned(),
    }
}

// ---------------------------------------------------------------------------
// Events
// ---------------------------------------------------------------------------

/// The envelope of a chunk.
pub open spec fn env(c: ChunkView) -> EnvelopeView {
    events::chunk_env(c, TransportProtocol::Tcp, "ethernet_ip"@)
}

fn envelope(chunk: &StreamChunk<'_>) -> (r: EventEnvelope)
    ensures
        r@ == env(chunk@),
{
    chunk_envelope(chunk, TransportProtocol::Tcp, "ethernet_ip")
}

/// The direction of a chunk: what goes to the well-known port is a request.
pub open spec fn direction_of(c: ChunkView) -> Seq<char> {
    if c.context.dst_port == 44818 {
        "request"@
    } else {
        "response"@
    }
}

/// The attributes of a packet.
pub open spec fn attrs_of(f: EthernetIpFields) -> Map<Seq<char>, Seq<char>> {
    let m = Map::empty().insert("session_handle"@, text::dec(f.session_handle as nat)).insert(
        "encapsulation_command"@,
        text::hex0x(f.command as nat, 4),
    );
    let m = collections::insert_opt(m, "cip_service"@, service_of(f.cip_data@));
    match first_claim(f.command, f.cip_data@) {
        Some(c) => m.insert("cip_vendor_id"@, text::dec(c.vendor_id as nat)).insert(
            "cip_product_code"@,
            text::dec(c.product_code as nat),
        ).insert("cip_serial_number"@, text::dec(c.serial_number as nat)).insert(
            "cip_revision"@,
            c.revision,
        ),
        None => m,
    }
}

/// The transaction of a packet.
pub open spec fn packet_seen(c: ChunkView, f: EthernetIpFields) -> EventView {
    events::tx_view(
        c.capture_id,
        env(c),
        TransactionView {
            object_refs: refs_of(f.cip_data@),
            protocol_fields: Some(
                ProtocolFieldsView::EthernetIp(
                    typed(
                        f.command,
                        command_of(f.command),
                        f.session_handle,
                        f.encap_status,
                        f.encap_options,
                        f.cip_data@,
                        c.context.dst_port == 44818,
                        direction_of(c),
                    ),
                ),
            ),
            ..events::plain_tx(
                command_of(f.command),
                direction_of(c),
                Some(command_of(f.command) + " session="@ + text::dec(f.session_handle as nat)),
                attrs_of(f),
            )
        },
    )
}

/// The device behind an identity: at the address that it gives, else at the source.
pub open spec fn device_seen(c: ChunkView, id: ClaimView) -> EventView {
    let key = match id.ip_address {
        Some(ip) => ip,
        None => c.context.src_ip.text(),
    };
    let m = Map::empty().insert("ip"@, key).insert(
        "cip_vendor_id"@,
        text::dec(id.vendor_id as nat),
    ).insert("cip_device_type"@, text::dec(id.device_type as nat)).insert(
        "cip_product_code"@,
        text::dec(id.product_code as nat),
    ).insert("cip_serial_number"@, text::dec(id.serial_number as nat)).insert(
        "cip_revision"@,
        id.revision,
    ).insert("cip_status"@, text::dec(id.status as nat));
    events::asset_event_view(
        c.capture_id,
        env(c),
        AssetView {
            asset_key: key,
            role: role_of(id.device_type),
            vendor: vendor_of(id.vendor_id),
            model: Some(id.product_name),
            firmware: Some(id.revision),
            hostnames: Seq::empty(),
            protocols: seq!["ethernet_ip"@].push("cip"@),
            identifiers: collections::insert_opt(m, "cip_state"@, text::opt_dec(id.state)),
        },
    )
}

fn device_event(chunk: &StreamChunk<'_>, id: CipIdentityClaim) -> (r: BronzeEvent)
    ensures
        r@ == device_seen(chunk@, id@),
{
    let key = match &id.ip_address {
        Some(ip) => ip.as_str().to_owned(),
        None => chunk.context.src_ip.text(),
    };
    let mut m = Attributes::new();
    m.put("ip", key.as_str());
    m.put_dec("cip_vendor_id", id.vendor_id);
    m.put_dec("cip_device_type", id.device_type);
    m.put_dec("cip_product_code", id.product_code);
    m.put_dec("cip_serial_number", id.serial_number);
    m.put("cip_revision", id.revision.as_str());
    m.put_dec("cip_status", id.status);
    m.put_some_dec("cip_state", id.state);
    let mut protocols = one_text("ethernet_ip".to_owned());
    push_text(&mut protocols, "cip".to_owned());
    asset_event(
        chunk.capture_id,
        envelope(chunk),
        AssetObservation {
            asset_key: key,
            role: opt_owned(cip_role_from_device_type(id.device_type)),
            vendor: opt_owned(cip_vendor_name(id.vendor_id)),
            model: Some(id.product_name),
            firmware: Some(id.revision),
            hostnames: no_texts(),
            protocols,
            identifiers: m,
        },
    )
}

/// The devices behind a list of identities.
pub open spec fn devices(c: ChunkView, ids: Seq<ClaimView>) -> Seq<EventView> {
    Seq::new(ids.len(), |i: int| device_seen(c, ids[i]))
}

/// The events of a packet: its transaction, the devices that it identifies, what PCCC made
/// of the message in it, and its CIP data.
pub open spec fn packet_events(c: ChunkView, f: EthernetIpFields, pccc: Seq<EventView>) -> Seq<
    EventView,
> {
    let t = Seq::<EventView>::empty().push(packet_seen(c, f)) + devices(
        c,
        claims_of(f.command, f.cip_data@),
    );
    let p = if packet_pccc(f) is Some {
        t + pccc
    } else {
        t
    };
    events::push_if(
        p,
        carries_cip(f),
        events::artifact_view(
            c.capture_id,
            env(c),
            "cip_payload"@,
            text::dec(f.session_handle as nat) + ":"@ + text::dec(c.frame_index as nat),
            Some("application/octet-stream"@),
            Some("EtherNet/IP CIP payload"@),
            f.cip_data@,
        ),
    )
}

/// The events of a chunk.
pub open spec fn chunk_events(
    c: ChunkView,
    fields: Option<EthernetIpFields>,
    pccc: Seq<EventView>,
) -> Seq<EventView> {
    match fields {
        Some(f) => packet_events(c, f, pccc),
        None => Seq::<EventView>::empty().push(
            events::anomaly_view(
                c.capture_id,
                env(c),
                "ethernet_ip"@,
                "medium"@,
                "failed to parse ethernet/ip payload"@,
                c.payload,
            ),
        ),
    }
}

/// The EtherNet/IP decoder.
#[derive(Debug, Default)]
pub struct EthernetIpDecoderWrapper;

impl EthernetIpDecoderWrapper {
    /// The name of the decoder.
    pub fn name(&self) -> (r: &'static str)
        ensures
            r@ == "ethernet_ip"@,
    {
        "ethernet_ip"
    }

    /// The traffic that the decoder asks for.
    pub fn interest(&self) -> (r: &'static [DecoderInterest])
        ensures
            r@ == seq![DecoderInterest::TcpPort(44818)],
    {
        &[DecoderInterest::TcpPort(44818)]
    }

    /// Takes in a chunk of a TCP stream, what was parsed from it, and the events that a PCCC
    /// decoder gave for its `pccc_pdu`. The latter count only where there is such a message.
    pub fn on_stream_chunk(
        &mut self,
        chunk: &StreamChunk<'_>,
        fields: Option<EthernetIpFields>,
        pccc_events: Vec<BronzeEvent>,
        out: &mut Vec<BronzeEvent>,
    )
        ensures
            events::events(final(out)@) == events::events(old(out)@) + chunk_events(
                chunk@,
                fields,
                events::events(pccc_events@),
            ),
    {
        let mut ev = no_events();
        match fields {
            Some(f) => {
                let data = f.cip_data.as_slice();
                let command_name = ethernet_ip_command_name(f.command);
                let is_request = chunk.context.dst_port == 44818;
                let direction = if is_request {
                    "request"
                } else {
                    "response"
                };
                let mut attributes = Attributes::new();
                attributes.put_dec("session_handle", f.session_handle);
                attributes.put_hex("encapsulation_command", f.command, 4);
                attributes.insert_some("cip_service", opt_owned(cip_service_name(data)));
                match parse_cip_identity_claim(f.command, data) {
                    Some(identity) => {
                        attributes.put_dec("cip_vendor_id", identity.vendor_id);
                        attributes.put_dec("cip_product_code", identity.product_code);
                        attributes.put_dec("cip_serial_number", identity.serial_number);
                        attributes.put("cip_revision", identity.revision.as_str());
                    },
                    None => {},
                }
                let typed_fields = build_eip_bronze_fields(
                    f.command,
                    command_name,
                    f.session_handle,
                    f.encap_status,
                    f.encap_options,
                    data,
                    is_request,
                    direction,
                );
                let summary = cat(
                    cat(command_name, " session=").as_str(),
                    dec_text(f.session_handle).as_str(),
                );
                emit(
                    &mut ev,
                    transaction_event(
                        chunk.capture_id,
                        envelope(chunk),
                        ProtocolTransaction {
                            operation: command_name.to_owned(),
                            status: direction.to_owned(),
                            request_summary: Some(summary),
                            response_summary: None,
                            object_refs: cip_object_refs(data),
                            values: no_values(),
                            attributes,
                            modbus: None,
                            protocol_fields: Some(ProtocolFields::EthernetIp(typed_fields)),
                        },
                    ),
                );
                self.identities(chunk, f.command, data, &mut ev);
                if pccc_pdu(&f).is_some() {
                    emit_all(&mut ev, pccc_events);
                }
                if (f.command == 0x006F || f.command == 0x0070) && f.cip_data.len() > 0 {
                    let key = cat(
                        cat(dec_text(f.session_handle).as_str(), ":").as_str(),
                        dec_text(chunk.frame_index).as_str(),
                    );
                    emit(
                        &mut ev,
                        artifact_event(
                            chunk.capture_id,
                            envelope(chunk),
                            "cip_payload",
                            key.as_str(),
                            Some("application/octet-stream"),
                            Some("EtherNet/IP CIP payload"),
                            data,
                        ),
                    );
                }
            },
            None => {
                emit(
                    &mut ev,
                    parse_anomaly_event(
                        chunk.capture_id,
                        envelope(chunk),
                        "ethernet_ip",
                        "medium",
                        "failed to parse ethernet/ip payload",
                        chunk.payload,
                    ),
                );
            },
        }
        emit_all(out, ev);
    }

    fn identities(
        &mut self,
        chunk: &StreamChunk<'_>,
        command: u16,
        data: &[u8],
        out: &mut Vec<BronzeEvent>,
    )
        ensures
            events::events(final(out)@) == events::events(old(out)@) + devices(
                chunk@,
                claims_of(command, data@),
            ),
    {
        let mut claims = parse_cip_identity_claims(command, data);
        let ghost all = claims_view(claims@);
        let ghost prior = events::events(out@);
        let total = claims.len();
        let mut i: usize = 0;
        assert(devices(chunk@, all.take(0)) =~= Seq::<EventView>::empty());
        assert(prior =~= prior + devices(chunk@, all.take(0)));
        assert(claims_view(claims@) =~= all.skip(0));
        while i < total
            invariant
                i <= total,
                total == all.len(),
                claims_view(claims@) == all.skip(i as int),
                events::events(out@) == prior + devices(chunk@, all.take(i as int)),
            decreases total - i,
        {
            assert(claims_view(claims@).len() == claims@.len());
            let ghost before = claims@;
            let claim = claims.remove(0);
            proof {
                assert(claim@ == claims_view(before)[0]);
                assert forall|j: int| 0 <= j < claims@.len() implies #[trigger] claims_view(
                    claims@,
                )[j] == all.skip(i + 1)[j] by {
                    assert(claims_view(before)[j + 1] == all.skip(i as int)[j + 1]);
                }
                assert(claims_view(claims@) =~= all.skip(i + 1));
                assert(devices(chunk@, all.take(i + 1)) =~= devices(
                    chunk@,
                    all.take(i as int),
                ).push(device_seen(chunk@, all[i as int])));
            }
            emit(out, device_event(chunk, claim));
            i = i + 1;
        }
        assert(all.take(i as int) =~= all);
    }
}

// ---------------------------------------------------------------------------
// Laws
// ---------------------------------------------------------------------------

/// The direction in the typed fields of a packet is the status of its transaction, and says
/// `request` exactly when the packet goes to the well-known port.
pub proof fn direction_is_status(c: ChunkView, f: EthernetIpFields)
    ensures
        ({
            let tx = packet_seen(c, f).family->ProtocolTransaction_0;
            let t = tx.protocol_fields->Some_0->EthernetIp_0;
            &&& t.direction == tx.status
            &&& t.is_request == (c.context.dst_port == 44818)
            &&& t.is_request ==> tx.status == "request"@
            &&& !t.is_request ==> tx.status == "response"@
        }),
{
}

/// A packet names at most as many devices as its ListIdentity reply declares items, and at
/// most one where it carries a CIP message.
pub proof fn identities_are_bounded(command: u16, data: Seq<u8>)
    ensures
        command == 0x0063 && data.len() >= 2 ==> claims_of(command, data).len() <= bytes::le16(
            data,
            0,
        ),
        command != 0x0063 ==> claims_of(command, data).len() <= 1,
{
    if command == 0x0063 && data.len() >= 2 {
        list_is_bounded(data, 2, bytes::le16(data, 0) as nat, Seq::empty());
    }
}

proof fn list_is_bounded(data: Seq<u8>, off: int, n: nat, claims: Seq<ClaimView>)
    ensures
        list_from(data, off, n, claims).len() <= claims.len() + n,
    decreases n,
{
    if n > 0 && off + 4 <= data.len() {
        let end = off + 4 + bytes::le16(data, off + 2);
        if end <= data.len() {
            let found = if bytes::le16(data, off) == 0x000C {
                match list_item(data.subrange(off + 4, end)) {
                    Some(c) => claims.push(c),
                    None => claims,
                }
            } else {
                claims
            };
            list_is_bounded(data, end, (n - 1) as nat, found);
        }
    }
}

/// A chunk gives one transaction of its own where it could be parsed, besides those that PCCC
/// made of the message in it, and an asset for every device that it identifies; where it could
/// not be parsed it gives one anomaly and nothing else.
pub proof fn a_transaction_or_an_anomaly(
    c: ChunkView,
    fields: Option<EthernetIpFields>,
    pccc: Seq<EventView>,
)
    ensures
        ({
            let e = chunk_events(c, fields, pccc);
            match fields {
                Some(f) => {
                    let inner = if packet_pccc(f) is Some {
                        pccc
                    } else {
                        Seq::empty()
                    };
                    &&& events::tx_count(e) == 1 + events::tx_count(inner)
                    &&& events::asset_count(e) == claims_of(f.command, f.cip_data@).len()
                        + events::asset_count(inner)
                    &&& events::anomaly_count(e) == events::anomaly_count(inner)
                },
                None => e.len() == 1 && e[0].family is ParseAnomaly,
            }
        }),
{
    match fields {
        Some(f) => {
            let none = Seq::<EventView>::empty();
            let e = chunk_events(c, fields, pccc);
            let t = none.push(packet_seen(c, f));
            let ids = claims_of(f.command, f.cip_data@);
            let d = t + devices(c, ids);
            let p = if packet_pccc(f) is Some {
                d + pccc
            } else {
                d
            };
            events::counts_push_if(none, true, packet_seen(c, f));
            devices_are_assets(c, ids);
            events::counts_add(t, devices(c, ids));
            events::counts_add(d, pccc);
            events::counts_push_if(p, carries_cip(f), e.last());
        },
        None => {},
    }
}

proof fn devices_are_assets(c: ChunkView, ids: Seq<ClaimView>)
    ensures
        events::tx_count(devices(c, ids)) == 0,
        events::asset_count(devices(c, ids)) == ids.len(),
        events::anomaly_count(devices(c, ids)) == 0,
    decreases ids.len(),
{
    if ids.len() > 0 {
        let rest = devices(c, ids.drop_last());
        devices_are_assets(c, ids.drop_last());
        events::counts_push_if(rest, true, device_seen(c, ids.last()));
        assert(devices(c, ids) =~= rest.push(device_seen(c, ids.last())));
    }
}

/// A logical segment of a path: the kind, 0x20 for a class, 0x24 for an instance and 0x30 for an
/// attribute, with a value of one byte, or of two or four behind a byte of padding.
pub open spec fn logical_segment(kind: u8, size: u8, value: u32) -> Seq<u8> {
    if size == 1 {
        seq![kind, (value % 0x100) as u8]
    } else if size == 2 {
        seq![(kind + 1) as u8, 0u8] + bytes::le16_bytes((value % 0x1_0000) as u16)
    } else {
        seq![(kind + 2) as u8, 0u8] + bytes::le32_bytes(value)
    }
}

/// The value has one, two or four bytes, and fits in them.
pub open spec fn sized(size: u8, value: u32) -> bool {
    ||| size == 1 && value < 0x100
    ||| size == 2 && value < 0x1_0000
    ||| size == 4
}

proof fn logical_bits()
    ensures
        (0x20u8 & 0xE0) >> 5 == 1,
        ((0x20u8 & 0x1F) & 0x1C) >> 2 == 0,
        (0x20u8 & 0x1F) & 0x03 == 0,
        (0x21u8 & 0xE0) >> 5 == 1,
        ((0x21u8 & 0x1F) & 0x1C) >> 2 == 0,
        (0x21u8 & 0x1F) & 0x03 == 1,
        (0x22u8 & 0xE0) >> 5 == 1,
        ((0x22u8 & 0x1F) & 0x1C) >> 2 == 0,
        (0x22u8 & 0x1F) & 0x03 == 2,
        (0x24u8 & 0xE0) >> 5 == 1,
        ((0x24u8 & 0x1F) & 0x1C) >> 2 == 1,
        (0x24u8 & 0x1F) & 0x03 == 0,
        (0x25u8 & 0xE0) >> 5 == 1,
        ((0x25u8 & 0x1F) & 0x1C) >> 2 == 1,
        (0x25u8 & 0x1F) & 0x03 == 1,
        (0x26u8 & 0xE0) >> 5 == 1,
        ((0x26u8 & 0x1F) & 0x1C) >> 2 == 1,
        (0x26u8 & 0x1F) & 0x03 == 2,
        (0x30u8 & 0xE0) >> 5 == 1,
        ((0x30u8 & 0x1F) & 0x1C) >> 2 == 4,
        (0x30u8 & 0x1F) & 0x03 == 0,
        (0x31u8 & 0xE0) >> 5 == 1,
        ((0x31u8 & 0x1F) & 0x1C) >> 2 == 4,
        (0x31u8 & 0x1F) & 0x03 == 1,
        (0x32u8 & 0xE0) >> 5 == 1,
        ((0x32u8 & 0x1F) & 0x1C) >> 2 == 4,
        (0x32u8 & 0x1F) & 0x03 == 2,
{
    assert({
        &&& (0x20u8 & 0xE0) >> 5 == 1
        &&& ((0x20u8 & 0x1F) & 0x1C) >> 2 == 0
        &&& (0x20u8 & 0x1F) & 0x03 == 0
        &&& (0x21u8 & 0xE0) >> 5 == 1
        &&& ((0x21u8 & 0x1F) & 0x1C) >> 2 == 0
        &&& (0x21u8 & 0x1F) & 0x03 == 1
        &&& (0x22u8 & 0xE0) >> 5 == 1
        &&& ((0x22u8 & 0x1F) & 0x1C) >> 2 == 0
        &&& (0x22u8 & 0x1F) & 0x03 == 2
        &&& (0x24u8 & 0xE0) >> 5 == 1
        &&& ((0x24u8 & 0x1F) & 0x1C) >> 2 == 1
        &&& (0x24u8 & 0x1F) & 0x03 == 0
        &&& (0x25u8 & 0xE0) >> 5 == 1
        &&& ((0x25u8 & 0x1F) & 0x1C) >> 2 == 1
        &&& (0x25u8 & 0x1F) & 0x03 == 1
        &&& (0x26u8 & 0xE0) >> 5 == 1
        &&& ((0x26u8 & 0x1F) & 0x1C) >> 2 == 1
        &&& (0x26u8 & 0x1F) & 0x03 == 2
        &&& (0x30u8 & 0xE0) >> 5 == 1
        &&& ((0x30u8 & 0x1F) & 0x1C) >> 2 == 4
        &&& (0x30u8 & 0x1F) & 0x03 == 0
        &&& (0x31u8 & 0xE0) >> 5 == 1
        &&& ((0x31u8 & 0x1F) & 0x1C) >> 2 == 4
        &&& (0x31u8 & 0x1F) & 0x03 == 1
        &&& (0x32u8 & 0xE0) >> 5 == 1
        &&& ((0x32u8 & 0x1F) & 0x1C) >> 2 == 4
        &&& (0x32u8 & 0x1F) & 0x03 == 2
    }) by (bit_vector);
}

proof fn segment_is_read(
    path: Seq<u8>,
    i: int,
    kind: u8,
    size: u8,
    value: u32,
    rest: Seq<u8>,
    ids: PathIds,
)
    requires
        0 <= i <= path.len(),
        path.skip(i) == logical_segment(kind, size, value) + rest,
        kind == 0x20 || kind == 0x24 || kind == 0x30,
        sized(size, value),
    ensures
        ({
            let n = logical_segment(kind, size, value).len();
            &&& n == (if size == 1 {
                2nat
            } else if size == 2 {
                4
            } else {
                6
            })
            &&& i + n <= path.len()
            &&& path.skip(i + n) == rest
            &&& path_from(path, i, ids) == path_from(
                path,
                i + n,
                if kind == 0x20 {
                    (Some(value), ids.1, ids.2)
                } else if kind == 0x24 {
                    (ids.0, Some(value), ids.2)
                } else {
                    (ids.0, ids.1, Some(value))
                },
            )
        }),
{
    logical_bits();
    let s = logical_segment(kind, size, value);
    let none = Seq::<u8>::empty();
    bytes::little_endian_reads_back(none, (value % 0x1_0000) as u16, value, 0, none);
    bytes::next_part(path, i, s, rest);
    assert(path[i + 0] == s[0]);
    assert(path[i + 1] == s[1]);
    if size == 1 {
    } else {
        let head = seq![s[0], 0u8];
        let number = if size == 2 {
            bytes::le16_bytes((value % 0x1_0000) as u16)
        } else {
            bytes::le32_bytes(value)
        };
        assert(path.skip(i + 2) =~= number + rest) by {
            assert(path.skip(i) =~= head + (number + rest));
            bytes::next_part(path, i, head, number + rest);
        }
        bytes::next_le(path, i + 2, (value % 0x1_0000) as u16, value, 0, rest);
    }
}

/// A path names the class, the instance and the attribute of its segments, whichever sizes the
/// values are written in; what stands behind the path is no part of it.
pub proof fn path_names_its_object(
    class: u32,
    n: u8,
    instance: u32,
    m: u8,
    attribute: u32,
    k: u8,
    with_attribute: bool,
    words: u8,
    data: Seq<u8>,
)
    requires
        sized(n, class),
        sized(m, instance),
        sized(k, attribute),
        2 * words == logical_segment(0x20, n, class).len() + logical_segment(
            0x24,
            m,
            instance,
        ).len() + (if with_attribute {
            logical_segment(0x30, k, attribute).len()
        } else {
            0
        }),
    ensures
        path_ids(
            seq![words] + (logical_segment(0x20, n, class) + (logical_segment(0x24, m, instance) + (
            if with_attribute {
                logical_segment(0x30, k, attribute)
            } else {
                Seq::empty()
            }))) + data,
        ) == (
            Some(class),
            Some(instance),
            if with_attribute {
                Some(attribute)
            } else {
                None
            },
        ),
{
    let last = if with_attribute {
        logical_segment(0x30, k, attribute)
    } else {
        Seq::empty()
    };
    let path = logical_segment(0x20, n, class) + (logical_segment(0x24, m, instance) + last);
    let b = seq![words] + path + data;
    assert(b.subrange(1, 1 + 2 * words) =~= path);
    assert(path.skip(0) =~= path);
    let none = (None::<u32>, None::<u32>, None::<u32>);
    segment_is_read(
        path,
        0,
        0x20,
        n,
        class,
        logical_segment(0x24, m, instance) + last,
        none,
    );
    let i = logical_segment(0x20, n, class).len() as int;
    let one = (Some(class), None::<u32>, None::<u32>);
    segment_is_read(path, i, 0x24, m, instance, last, one);
    let j = i + logical_segment(0x24, m, instance).len();
    if with_attribute {
        assert(path.skip(j) =~= last + Seq::empty());
        segment_is_read(
            path,
            j,
            0x30,
            k,
            attribute,
            Seq::empty(),
            (Some(class), Some(instance), None::<u32>),
        );
    }
}

/// Two items of a common packet: the interface, a timeout, the number of items, and each with its
/// type, its length and its bytes.
#[verifier::opaque]
pub open spec fn two_items(
    head: Seq<u8>,
    count: u16,
    first: u16,
    first_len: u16,
    a: Seq<u8>,
    second: u16,
    second_len: u16,
    m: Seq<u8>,
    rest: Seq<u8>,
) -> Seq<u8> {
    head + (bytes::le16_bytes(count) + (bytes::le16_bytes(first) + (bytes::le16_bytes(first_len)
        + (a + (bytes::le16_bytes(second) + (bytes::le16_bytes(second_len) + (m + rest)))))))
}

proof fn two_items_parts(
    head: Seq<u8>,
    count: u16,
    first: u16,
    first_len: u16,
    a: Seq<u8>,
    second: u16,
    second_len: u16,
    m: Seq<u8>,
    rest: Seq<u8>,
)
    requires
        head.len() == 6,
    ensures
        ({
            let b = two_items(head, count, first, first_len, a, second, second_len, m, rest);
            &&& b.subrange(0, 6) == head
            &&& bytes::le16(b, 6) == count
            &&& bytes::le16(b, 8) == first
            &&& bytes::le16(b, 10) == first_len
            &&& b.subrange(12, 12int + a.len()) == a
            &&& bytes::le16(b, 12int + a.len()) == second
            &&& bytes::le16(b, 14int + a.len()) == second_len
            &&& b.subrange(16int + a.len(), 16int + a.len() + m.len()) == m
            &&& b.skip(16int + a.len() + m.len()) == rest
            &&& b.len() == 16int + a.len() + m.len() + rest.len()
        }),
{
    reveal(two_items);
    let t8 = rest;
    let t7 = m + t8;
    let t6 = bytes::le16_bytes(second_len) + t7;
    let t5 = bytes::le16_bytes(second) + t6;
    let t4 = a + t5;
    let t3 = bytes::le16_bytes(first_len) + t4;
    let t2 = bytes::le16_bytes(first) + t3;
    let t1 = bytes::le16_bytes(count) + t2;
    let t0 = head + t1;
    let b = t0;
    assert(b.skip(0) =~= t0);
    bytes::next_part(b, 0, head, t1);
    bytes::next_le(b, 6, count, 0, 0, t2);
    bytes::next_le(b, 8, first, 0, 0, t3);
    bytes::next_le(b, 10, first_len, 0, 0, t4);
    bytes::next_part(b, 12, a, t5);
    bytes::next_le(b, 12int + a.len(), second, 0, 0, t6);
    bytes::next_le(b, 14int + a.len(), second_len, 0, 0, t7);
    bytes::next_part(b, 16int + a.len(), m, t8);
}

/// The message of a packet is in the item of type 0xB1 or 0xB2, whatever item stands before it.
pub proof fn message_is_found(
    head: Seq<u8>,
    first: u16,
    a: Seq<u8>,
    second: u16,
    m: Seq<u8>,
    count: u16,
    rest: Seq<u8>,
)
    requires
        head.len() == 6,
        first != 0x00B1,
        first != 0x00B2,
        second == 0x00B1 || second == 0x00B2,
        a.len() <= 0xFFFF,
        m.len() <= 0xFFFF,
        count >= 2,
    ensures
        message_of(
            two_items(head, count, first, a.len() as u16, a, second, m.len() as u16, m, rest),
        ) == Some(m),
{
    two_items_parts(head, count, first, a.len() as u16, a, second, m.len() as u16, m, rest);
    let b = two_items(head, count, first, a.len() as u16, a, second, m.len() as u16, m, rest);
    let off = 12 + a.len() as int;
    assert(message_item(b, 8, count as nat) == message_item(b, off, (count - 1) as nat));
    assert(message_item(b, off, (count - 1) as nat) == Some(
        b.subrange(off + 4, off + 4 + m.len()),
    ));
}

/// The bytes of an identity: vendor, device type, product code, revision, status, serial number, the
/// name behind its length, and the state.
#[verifier::opaque]
pub open spec fn identity_bytes(
    prefix: Seq<u8>,
    vendor: u16,
    device: u16,
    product: u16,
    major: u8,
    minor: u8,
    status: u16,
    serial: u32,
    name_len: u8,
    name: Seq<u8>,
    state: u8,
    rest: Seq<u8>,
) -> Seq<u8> {
    prefix + (bytes::le16_bytes(vendor) + (bytes::le16_bytes(device) + (bytes::le16_bytes(product)
        + (seq![major] + (seq![minor] + (bytes::le16_bytes(status) + (bytes::le32_bytes(serial)
        + (seq![name_len] + (name + (seq![state] + rest))))))))))
}

proof fn identity_bytes_parts(
    prefix: Seq<u8>,
    vendor: u16,
    device: u16,
    product: u16,
    major: u8,
    minor: u8,
    status: u16,
    serial: u32,
    name_len: u8,
    name: Seq<u8>,
    state: u8,
    rest: Seq<u8>,
)
    ensures
        ({
            let b = identity_bytes(prefix, vendor, device, product, major,
                minor, status, serial, name_len, name, state, rest);
            &&& b.subrange(0, 0int + prefix.len()) == prefix
            &&& bytes::le16(b, 0int + prefix.len()) == vendor
            &&& bytes::le16(b, 2int + prefix.len()) == device
            &&& bytes::le16(b, 4int + prefix.len()) == product
            &&& b[6int + prefix.len()] == major
            &&& b[7int + prefix.len()] == minor
            &&& bytes::le16(b, 8int + prefix.len()) == status
            &&& bytes::le32(b, 10int + prefix.len()) == serial
            &&& b[14int + prefix.len()] == name_len
            &&& b.subrange(15int + prefix.len(), 15int + prefix.len() + name.len()) == name
            &&& b[15int + prefix.len() + name.len()] == state
            &&& b.skip(16int + prefix.len() + name.len()) == rest
            &&& b.len() == 16int + prefix.len() + name.len() + rest.len()
        }),
{
    reveal(identity_bytes);
    let t11 = rest;
    let t10 = seq![state] + t11;
    let t9 = name + t10;
    let t8 = seq![name_len] + t9;
    let t7 = bytes::le32_bytes(serial) + t8;
    let t6 = bytes::le16_bytes(status) + t7;
    let t5 = seq![minor] + t6;
    let t4 = seq![major] + t5;
    let t3 = bytes::le16_bytes(product) + t4;
    let t2 = bytes::le16_bytes(device) + t3;
    let t1 = bytes::le16_bytes(vendor) + t2;
    let t0 = prefix + t1;
    let b = t0;
    assert(b.skip(0) =~= t0);
    bytes::next_part(b, 0, prefix, t1);
    bytes::next_le(b, 0int + prefix.len(), vendor, 0, 0, t2);
    bytes::next_le(b, 2int + prefix.len(), device, 0, 0, t3);
    bytes::next_le(b, 4int + prefix.len(), product, 0, 0, t4);
    bytes::next_part(b, 6int + prefix.len(), seq![major], t5);
    assert(seq![major][0] == major);
    bytes::next_part(b, 7int + prefix.len(), seq![minor], t6);
    assert(seq![minor][0] == minor);
    bytes::next_le(b, 8int + prefix.len(), status, 0, 0, t7);
    bytes::next_le(b, 10int + prefix.len(), 0, serial, 0, t8);
    bytes::next_part(b, 14int + prefix.len(), seq![name_len], t9);
    assert(seq![name_len][0] == name_len);
    bytes::next_part(b, 15int + prefix.len(), name, t10);
    bytes::next_part(b, 15int + prefix.len() + name.len(), seq![state], t11);
    assert(seq![state][0] == state);
}

/// An identity is read back: every number from its own place, and the name by its length.
pub proof fn identity_reads_back(
    prefix: Seq<u8>,
    vendor: u16,
    device: u16,
    product: u16,
    major: u8,
    minor: u8,
    status: u16,
    serial: u32,
    name: Seq<u8>,
    state: u8,
    rest: Seq<u8>,
    ip: Option<Seq<char>>,
)
    requires
        name.len() <= 0xFF,
    ensures
        ({
            let b = identity_bytes(prefix, vendor, device, product, major,
                minor, status, serial, name.len() as u8, name, state, rest);
            match identity_at(b, prefix.len() as int, ip) {
                Some(c) => {
                    &&& c.vendor_id == vendor
                    &&& c.device_type == device
                    &&& c.product_code == product
                    &&& c.revision == text::dec(major as nat) + "."@ + text::dec(minor as nat)
                    &&& c.status == status
                    &&& c.serial_number == serial
                    &&& c.product_name == text::lossy(name)
                    &&& c.state == Some(state)
                    &&& c.ip_address == ip
                },
                None => false,
            }
        }),
{
    identity_bytes_parts(prefix, vendor, device, product, major,
        minor, status, serial, name.len() as u8, name, state, rest);
}

/// In a ListIdentity item the address of the device stands in bytes 6 to 9, and its identity from
/// byte 18 on.
pub proof fn list_item_reads_back(
    prefix: Seq<u8>,
    vendor: u16,
    device: u16,
    product: u16,
    major: u8,
    minor: u8,
    status: u16,
    serial: u32,
    name: Seq<u8>,
    state: u8,
    rest: Seq<u8>,
)
    requires
        prefix.len() == 18,
        name.len() <= 0xFF,
    ensures
        ({
            let b = identity_bytes(prefix, vendor, device, product, major,
                minor, status, serial, name.len() as u8, name, state, rest);
            match list_item(b) {
                Some(c) => {
                    &&& c.vendor_id == vendor
                    &&& c.device_type == device
                    &&& c.product_code == product
                    &&& c.revision == text::dec(major as nat) + "."@ + text::dec(minor as nat)
                    &&& c.status == status
                    &&& c.serial_number == serial
                    &&& c.product_name == text::lossy(name)
                    &&& c.state == Some(state)
                    &&& c.ip_address == Some(
                        text::dec(prefix[6] as nat) + "."@ + text::dec(prefix[7] as nat) + "."@
                            + text::dec(prefix[8] as nat) + "."@ + text::dec(prefix[9] as nat),
                    )
                },
                None => false,
            }
        }),
{
    let b = identity_bytes(prefix, vendor, device, product, major,
        minor, status, serial, name.len() as u8, name, state, rest);
    identity_bytes_parts(prefix, vendor, device, product, major,
        minor, status, serial, name.len() as u8, name, state, rest);
    let ip = packet::dotted(b.subrange(6, 10));
    identity_reads_back(prefix, vendor, device, product, major, minor, status, serial, name, state,
        rest, Some(ip));
    let p = b.subrange(0, 18);
    assert(p[6] == b[6] && p[7] == b[7] && p[8] == b[8] && p[9] == b[9]);
}

/// A well-answered Get_Attributes_All gives the identity that stands behind its additional status.
pub proof fn identity_response_reads_back(
    head: Seq<u8>,
    first: u16,
    a: Seq<u8>,
    reserved: u8,
    extra: Seq<u8>,
    vendor: u16,
    device: u16,
    product: u16,
    major: u8,
    minor: u8,
    status: u16,
    serial: u32,
    name: Seq<u8>,
    state: u8,
    rest: Seq<u8>,
)
    requires
        head.len() == 6,
        first != 0x00B1,
        first != 0x00B2,
        a.len() <= 0xFFFF,
        extra.len() <= 0xFF,
        extra.len() % 2 == 0,
        name.len() <= 0xFF,
        rest.len() <= 0xFF,
    ensures
        ({
            let prefix = seq![0x81u8, reserved, 0u8, (extra.len() / 2) as u8] + extra;
            let m = identity_bytes(prefix, vendor, device, product, major,
                minor, status, serial, name.len() as u8, name, state, rest);
            let b = two_items(
                head,
                2,
                first,
                a.len() as u16,
                a,
                0x00B2,
                m.len() as u16,
                m,
                Seq::empty(),
            );
            match identity_response(b) {
                Some(c) => {
                    &&& c.vendor_id == vendor
                    &&& c.device_type == device
                    &&& c.product_code == product
                    &&& c.revision == text::dec(major as nat) + "."@ + text::dec(minor as nat)
                    &&& c.status == status
                    &&& c.serial_number == serial
                    &&& c.product_name == text::lossy(name)
                    &&& c.state == Some(state)
                    &&& c.ip_address is None
                },
                None => false,
            }
        }),
{
    let prefix = seq![0x81u8, reserved, 0u8, (extra.len() / 2) as u8] + extra;
    let m = identity_bytes(prefix, vendor, device, product, major,
        minor, status, serial, name.len() as u8, name, state, rest);
    identity_bytes_parts(prefix, vendor, device, product, major,
        minor, status, serial, name.len() as u8, name, state, rest);
    identity_reads_back(prefix, vendor, device, product, major, minor, status, serial, name, state,
        rest, None);
    message_is_found(head, first, a, 0x00B2, m, 2, Seq::empty());
    let p = m.subrange(0, prefix.len() as int);
    assert(p[0] == m[0] && p[1] == m[1] && p[2] == m[2] && p[3] == m[3]);
}

/// A response has its status in byte 2 and the number of words of additional status in byte 3;
/// the additional status is the first of them. A request has neither.
pub proof fn status_reads_back(
    service: u8,
    reserved: u8,
    status: u8,
    extended: u16,
    more: Seq<u8>,
    words: u8,
    data: Seq<u8>,
)
    requires
        words >= 1,
        more.len() == 2 * words - 2,
    ensures
        service < 0x80 ==> response_status(
            seq![service, reserved, status, words] + (bytes::le16_bytes(extended) + (more + data)),
        ) == (None::<u8>, None::<u16>),
        service >= 0x80 ==> response_status(
            seq![service, reserved, status, words] + (bytes::le16_bytes(extended) + (more + data)),
        ) == (Some(status), Some(extended)),
        service >= 0x80 ==> response_status(seq![service, reserved, status, 0u8] + data) == (
            Some(status),
            None::<u16>,
        ),
{
    let head = seq![service, reserved, status, words];
    let b = head + (bytes::le16_bytes(extended) + (more + data));
    assert(b.skip(0) =~= b);
    bytes::next_part(b, 0, head, bytes::le16_bytes(extended) + (more + data));
    bytes::next_le(b, 4, extended, 0, 0, more + data);
    assert(head[0] == service && head[2] == status && head[3] == words);
    assert((service & 0x80 == 0) == (service < 0x80)) by (bit_vector);
}

/// Execute PCCC carries its PDU behind the path of a request, and behind the additional status of
/// a response. No other service carries one.
pub proof fn pccc_pdu_is_behind_the_head(
    service: u8,
    words: u8,
    path: Seq<u8>,
    reserved: u8,
    status: u8,
    pdu: Seq<u8>,
)
    requires
        path.len() == 2 * words,
    ensures
        pccc_of(seq![0x4Bu8, words] + (path + pdu)) == Some((true, pdu)),
        pccc_of(seq![0xCBu8, reserved, status, words] + (path + pdu)) == Some((false, pdu)),
        service != 0x4B && service != 0xCB ==> pccc_of(
            seq![service, reserved, status, words] + (path + pdu),
        ) is None,
{
    let a = seq![0x4Bu8, words] + (path + pdu);
    assert(a.skip(2 + 2 * words) =~= pdu);
    let b = seq![0xCBu8, reserved, status, words] + (path + pdu);
    assert(b.skip(4 + 2 * words) =~= pdu);
    assert({
        &&& 0x4Bu8 & 0x7F == 0x4B
        &&& 0x4Bu8 & 0x80 == 0
        &&& 0xCBu8 & 0x7F == 0x4B
        &&& 0xCBu8 & 0x80 != 0
        &&& (service & 0x7F == 0x4B) == (service == 0x4B || service == 0xCB)
    }) by (bit_vector);
}

/// The transaction of a packet names the command, the session and the direction: a request goes to
/// port 44818.
pub proof fn transaction_is_of_the_packet(c: ChunkView, f: EthernetIpFields, pccc: Seq<EventView>)
    ensures
        ({
            let e = chunk_events(c, Some(f), pccc)[0];
            let tx = e.family->ProtocolTransaction_0;
            let t = tx.protocol_fields->Some_0->EthernetIp_0;
            &&& e.family is ProtocolTransaction
            &&& e.capture_id == c.capture_id
            &&& tx.status == (if c.context.dst_port == 44818 {
                "request"@
            } else {
                "response"@
            })
            &&& tx.request_summary == Some(
                tx.operation + " session="@ + text::dec(f.session_handle as nat),
            )
            &&& tx.attributes["session_handle"@] == text::dec(f.session_handle as nat)
            &&& tx.attributes["encapsulation_command"@] == "0x"@ + text::hex(f.command as nat, 4)
            &&& t.encap_command == f.command
            &&& t.encap_command_name == tx.operation
            &&& t.session_handle == (if f.session_handle != 0 {
                Some(f.session_handle)
            } else {
                None
            })
            &&& t.encap_status == Some(f.encap_status)
            &&& t.encap_options == Some(f.encap_options)
            &&& f.command == 0x0001 ==> tx.operation == "nop"@
            &&& f.command == 0x0004 ==> tx.operation == "list_services"@
            &&& f.command == 0x0063 ==> tx.operation == "list_identity"@
            &&& f.command == 0x0064 ==> tx.operation == "list_interfaces"@
            &&& f.command == 0x0065 ==> tx.operation == "register_session"@
            &&& f.command == 0x0066 ==> tx.operation == "unregister_session"@
            &&& f.command == 0x006F ==> tx.operation == "send_rr_data"@
            &&& f.command == 0x0070 ==> tx.operation == "send_unit_data"@
            &&& f.command != 0x0001 && f.command != 0x0004 && f.command != 0x0063
                && f.command != 0x0064 && f.command != 0x0065 && f.command != 0x0066
                && f.command != 0x006F && f.command != 0x0070 ==> tx.operation
                == "encapsulation_command"@
        }),
{
    let m = Map::<Seq<char>, Seq<char>>::empty();
    reveal_strlit("session_handle");
    reveal_strlit("encapsulation_command");
    reveal_strlit("cip_service");
    reveal_strlit("cip_vendor_id");
    reveal_strlit("cip_product_code");
    reveal_strlit("cip_serial_number");
    reveal_strlit("cip_revision");
    assert({
        &&& "session_handle"@.len() == 14
        &&& "encapsulation_command"@.len() == 21
        &&& "cip_service"@.len() == 11
        &&& "cip_vendor_id"@.len() == 13
        &&& "cip_product_code"@.len() == 16
        &&& "cip_serial_number"@.len() == 17
        &&& "cip_revision"@.len() == 12
    });
}

/// A packet with a request in it names the service and the object of the message: the service is
/// its first byte, without the bit that marks a response, and the path follows.
pub proof fn typed_fields_are_of_the_message(
    c: ChunkView,
    f: EthernetIpFields,
    pccc: Seq<EventView>,
    m: Seq<u8>,
)
    requires
        message_of(f.cip_data@) == Some(m),
        m.len() >= 2,
    ensures
        ({
            let t = chunk_events(
                c,
                Some(f),
                pccc,
            )[0].family->ProtocolTransaction_0.protocol_fields->Some_0->EthernetIp_0;
            &&& t.cip_service == Some((m[0] % 0x80) as u8)
            &&& c.context.dst_port == 44818 ==> (
                t.cip_class_id,
                t.cip_instance_id,
                t.cip_attribute_id,
            ) == path_ids(m.skip(1))
            &&& c.context.dst_port != 44818 ==> t.cip_class_id is None && t.cip_instance_id is None
                && t.cip_attribute_id is None
            &&& t.cip_general_status == response_status(m).0
            &&& t.cip_extended_status == response_status(m).1
            &&& m[0] % 0x80 == 0x01 ==> t.cip_service_name == Some("get_attributes_all"@)
            &&& m[0] % 0x80 == 0x02 ==> t.cip_service_name == Some("set_attributes_all"@)
            &&& m[0] % 0x80 == 0x03 ==> t.cip_service_name == Some("get_attribute_list"@)
            &&& m[0] % 0x80 == 0x04 ==> t.cip_service_name == Some("set_attribute_list"@)
            &&& m[0] % 0x80 == 0x05 ==> t.cip_service_name == Some("reset"@)
            &&& m[0] % 0x80 == 0x09 ==> t.cip_service_name == Some("delete"@)
            &&& m[0] % 0x80 == 0x0A ==> t.cip_service_name == Some("multiple_service_packet"@)
            &&& m[0] % 0x80 == 0x0E ==> t.cip_service_name == Some("get_attribute_single"@)
            &&& m[0] % 0x80 == 0x10 ==> t.cip_service_name == Some("set_attribute_single"@)
            &&& m[0] % 0x80 == 0x4B ==> t.cip_service_name == Some("execute_pccc"@)
            &&& m[0] % 0x80 == 0x4C ==> t.cip_service_name == Some("read_tag"@)
            &&& m[0] % 0x80 == 0x4D ==> t.cip_service_name == Some("write_tag"@)
            &&& m[0] % 0x80 == 0x4E ==> t.cip_service_name == Some("forward_close"@)
            &&& m[0] % 0x80 == 0x52 ==> t.cip_service_name == Some("unconnected_send"@)
            &&& m[0] % 0x80 == 0x54 ==> t.cip_service_name == Some("forward_open"@)
            &&& m[0] % 0x80 == 0x5B ==> t.cip_service_name == Some("large_forward_open"@)
            &&& m[0] % 0x80 != 0x01 && m[0] % 0x80 != 0x02 && m[0] % 0x80 != 0x03
                && m[0] % 0x80 != 0x04 && m[0] % 0x80 != 0x05 && m[0] % 0x80 != 0x09
                && m[0] % 0x80 != 0x0A && m[0] % 0x80 != 0x0E && m[0] % 0x80 != 0x10
                && m[0] % 0x80 != 0x4B && m[0] % 0x80 != 0x4C && m[0] % 0x80 != 0x4D
                && m[0] % 0x80 != 0x4E && m[0] % 0x80 != 0x52 && m[0] % 0x80 != 0x54
                && m[0] % 0x80 != 0x5B ==> t.cip_service_name is None
        }),
{
    let x = m[0];
    assert({
        &&& x & 0x7F == x % 0x80
        &&& (x & 0x7F) & 0x7F == x % 0x80
    }) by (bit_vector);
}

/// The service that a transaction names among its objects and attributes is that of its message.
pub proof fn service_is_named(
    c: ChunkView,
    f: EthernetIpFields,
    pccc: Seq<EventView>,
    m: Seq<u8>,
)
    requires
        message_of(f.cip_data@) == Some(m),
        m.len() >= 1,
    ensures
        ({
            let tx = chunk_events(c, Some(f), pccc)[0].family->ProtocolTransaction_0;
            &&& m[0] % 0x80 == 0x01 ==> tx.attributes["cip_service"@] == "get_attributes_all"@
                && tx.object_refs[0]
                == "cip_service:"@ + "get_attributes_all"@
            &&& m[0] % 0x80 == 0x4C ==> tx.attributes["cip_service"@] == "read_tag_service"@
                && tx.object_refs[0]
                == "cip_service:"@ + "read_tag_service"@
            &&& m[0] % 0x80 == 0x4D ==> tx.attributes["cip_service"@] == "write_tag_service"@
                && tx.object_refs[0]
                == "cip_service:"@ + "write_tag_service"@
            &&& m[0] % 0x80 == 0x0E ==> tx.attributes["cip_service"@] == "get_attribute_single"@
                && tx.object_refs[0]
                == "cip_service:"@ + "get_attribute_single"@
            &&& m[0] % 0x80 == 0x10 ==> tx.attributes["cip_service"@] == "set_attribute_single"@
                && tx.object_refs[0]
                == "cip_service:"@ + "set_attribute_single"@
            &&& m[0] % 0x80 == 0x54 ==> tx.attributes["cip_service"@] == "forward_open"@
                && tx.object_refs[0]
                == "cip_service:"@ + "forward_open"@
            &&& m[0] % 0x80 == 0x52 ==> tx.attributes["cip_service"@] == "unconnected_send"@
                && tx.object_refs[0]
                == "cip_service:"@ + "unconnected_send"@
            &&& m[0] % 0x80 != 0x01 && m[0] % 0x80 != 0x4C && m[0] % 0x80 != 0x4D
                && m[0] % 0x80 != 0x0E && m[0] % 0x80 != 0x10 && m[0] % 0x80 != 0x54
                && m[0] % 0x80 != 0x52 ==> !tx.attributes.contains_key("cip_service"@)
        }),
{
    let x = m[0];
    assert(x & 0x7F == x % 0x80) by (bit_vector);
    reveal_strlit("session_handle");
    reveal_strlit("encapsulation_command");
    reveal_strlit("cip_service");
    reveal_strlit("cip_vendor_id");
    reveal_strlit("cip_product_code");
    reveal_strlit("cip_serial_number");
    reveal_strlit("cip_revision");
    assert({
        &&& "session_handle"@.len() == 14
        &&& "encapsulation_command"@.len() == 21
        &&& "cip_service"@.len() == 11
        &&& "cip_vendor_id"@.len() == 13
        &&& "cip_product_code"@.len() == 16
        &&& "cip_serial_number"@.len() == 17
        &&& "cip_revision"@.len() == 12
    });
}

/// A device that identifies itself is an asset under its own address, or that of the packet's
/// source: with the vendor, the role, the name and the numbers that it claims.
pub proof fn device_is_what_it_claims(
    c: ChunkView,
    f: EthernetIpFields,
    pccc: Seq<EventView>,
    i: int,
)
    requires
        0 <= i < claims_of(f.command, f.cip_data@).len(),
    ensures
        ({
            let id = claims_of(f.command, f.cip_data@)[i];
            let e = chunk_events(c, Some(f), pccc)[1 + i];
            let a = e.family->AssetObservation_0;
            let key = match id.ip_address {
                Some(ip) => ip,
                None => c.context.src_ip.text(),
            };
            &&& e.family is AssetObservation
            &&& a.asset_key == key
            &&& a.vendor == (if id.vendor_id == 1 {
                Some("Rockwell Automation/Allen-Bradley"@)
            } else {
                None
            })
            &&& a.role == (if id.device_type == 0x0E {
                Some("plc"@)
            } else if id.device_type == 0x0C {
                Some("adapter"@)
            } else {
                None
            })
            &&& a.model == Some(id.product_name)
            &&& a.firmware == Some(id.revision)
            &&& a.protocols == seq!["ethernet_ip"@, "cip"@]
            &&& a.identifiers["ip"@] == key
            &&& a.identifiers["cip_vendor_id"@] == text::dec(id.vendor_id as nat)
            &&& a.identifiers["cip_device_type"@] == text::dec(id.device_type as nat)
            &&& a.identifiers["cip_product_code"@] == text::dec(id.product_code as nat)
            &&& a.identifiers["cip_serial_number"@] == text::dec(id.serial_number as nat)
            &&& a.identifiers["cip_revision"@] == id.revision
            &&& a.identifiers["cip_status"@] == text::dec(id.status as nat)
            &&& match id.state {
                Some(s) => a.identifiers["cip_state"@] == text::dec(s as nat),
                None => !a.identifiers.contains_key("cip_state"@),
            }
        }),
{
    let ids = claims_of(f.command, f.cip_data@);
    assert(devices(c, ids)[i] == device_seen(c, ids[i]));
    assert(seq!["ethernet_ip"@].push("cip"@) =~= seq!["ethernet_ip"@, "cip"@]);
    reveal_strlit("ip");
    reveal_strlit("cip_vendor_id");
    reveal_strlit("cip_device_type");
    reveal_strlit("cip_product_code");
    reveal_strlit("cip_serial_number");
    reveal_strlit("cip_revision");
    reveal_strlit("cip_status");
    reveal_strlit("cip_state");
    assert({
        &&& "ip"@.len() == 2
        &&& "cip_vendor_id"@.len() == 13
        &&& "cip_device_type"@.len() == 15
        &&& "cip_product_code"@.len() == 16
        &&& "cip_serial_number"@.len() == 17
        &&& "cip_revision"@.len() == 12
        &&& "cip_status"@.len() == 10
        &&& "cip_state"@.len() == 9
    });
}

/// The first device that a packet identifies is named in its transaction.
pub proof fn transaction_names_the_device(c: ChunkView, f: EthernetIpFields, pccc: Seq<EventView>)
    requires
        claims_of(f.command, f.cip_data@).len() > 0,
    ensures
        ({
            let id = claims_of(f.command, f.cip_data@)[0];
            let m = chunk_events(c, Some(f), pccc)[0].family->ProtocolTransaction_0.attributes;
            &&& m["cip_vendor_id"@] == text::dec(id.vendor_id as nat)
            &&& m["cip_product_code"@] == text::dec(id.product_code as nat)
            &&& m["cip_serial_number"@] == text::dec(id.serial_number as nat)
            &&& m["cip_revision"@] == id.revision
        }),
{
    reveal_strlit("cip_vendor_id");
    reveal_strlit("cip_product_code");
    reveal_strlit("cip_serial_number");
    reveal_strlit("cip_revision");
    assert({
        &&& "cip_vendor_id"@.len() == 13
        &&& "cip_product_code"@.len() == 16
        &&& "cip_serial_number"@.len() == 17
        &&& "cip_revision"@.len() == 12
    });
}

/// The payload is kept as an artifact exactly where SendRRData or SendUnitData carries one.
pub proof fn cip_payload_is_kept(c: ChunkView, f: EthernetIpFields)
    ensures
        ({
            let e = chunk_events(c, Some(f), Seq::empty());
            let carries = (f.command == 0x6F || f.command == 0x70) && f.cip_data@.len() > 0;
            &&& carries ==> e.last().family == events::FamilyView::ExtractedArtifact(
                events::ArtifactView {
                    artifact_type: "cip_payload"@,
                    artifact_key: text::dec(f.session_handle as nat) + ":"@ + text::dec(
                        c.frame_index as nat,
                    ),
                    mime_type: Some("application/octet-stream"@),
                    description: Some("EtherNet/IP CIP payload"@),
                    content: f.cip_data@,
                },
            )
            &&& !carries ==> forall|i: int|
                0 <= i < e.len() ==> !((#[trigger] e[i]).family is ExtractedArtifact)
        }),
{
}

} // verus!
