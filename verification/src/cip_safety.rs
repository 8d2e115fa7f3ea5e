//! CIP Safety, recognised in EtherNet/IP explicit messaging on TCP port 44818.
//!
//! A connection is a safety connection when the connection path of its Forward_Open or
//! Large_Forward_Open request holds a Network Safety Segment (type byte 0x50). All other
//! traffic on the port is ignored here. The insides of the safety segment are not looked at.

use vstd::prelude::*;

use crate::bytes;
use crate::bytes::{cut, get_le16, get_le32};
use crate::collections::{Attributes, KeySet};
use crate::events;
use crate::events::{
    asset_event, chunk_envelope, emit, emit_all, no_events, no_values, parse_anomaly_event,
    transaction_event, AssetObservation, AssetView, BronzeEvent, EnvelopeView, EventEnvelope,
    EventView, ProtocolTransaction, TransactionView,
};
use crate::packet::{ChunkView, DecoderInterest, StreamChunk, TransportProtocol};
use crate::text;
use crate::text::{cat, hex0x_text, no_texts, one_text, push_text};

verus! {

pub const SERVICE_FORWARD_OPEN: u8 = 0x54;

pub const SERVICE_LARGE_FORWARD_OPEN: u8 = 0x5B;

/// The type byte of a Network Safety Segment.
pub const SAFETY_SEGMENT_TYPE: u8 = 0x50;

pub const CMD_SEND_RR_DATA: u16 = 0x006F;

pub const CMD_SEND_UNIT_DATA: u16 = 0x0070;

/// The type of the packet item that holds an unconnected message.
pub const ITEM_UCMM: u16 = 0x00B2;

/// The type of the packet item that holds connected data.
pub const ITEM_CONNECTED_DATA: u16 = 0x00B1;

// ---------------------------------------------------------------------------
// The CIP message in an encapsulation packet
// ---------------------------------------------------------------------------

/// The first of `n` packet items from `off` on that carries a CIP message: where its
/// content starts and ends. Items that reach past the end stop the search.
pub open spec fn message_item(data: Seq<u8>, off: int, n: nat) -> Option<(int, int)>
    decreases n,
{
    if n == 0 || off + 4 > data.len() {
        None
    } else {
        let item_type = bytes::le16(data, off);
        let end = off + 4 + bytes::le16(data, off + 2);
        if end > data.len() {
            None
        } else if item_type == ITEM_UCMM || item_type == ITEM_CONNECTED_DATA {
            Some((off + 4, end))
        } else {
            message_item(data, end, (n - 1) as nat)
        }
    }
}

/// The data of an encapsulation packet that can carry a CIP message.
pub open spec fn encapsulated(p: Seq<u8>) -> Option<Seq<u8>> {
    if p.len() < 24 {
        None
    } else {
        let command = bytes::le16(p, 0);
        let len = bytes::le16(p, 2);
        if command != CMD_SEND_RR_DATA && command != CMD_SEND_UNIT_DATA || p.len() - 24 < len || len
            < 8 {
            None
        } else {
            Some(p.subrange(24, 24 + len))
        }
    }
}

/// The CIP message of an encapsulation packet, where it has one that is not empty.
pub open spec fn message_of(p: Seq<u8>) -> Option<Seq<u8>> {
    match encapsulated(p) {
        None => None,
        Some(data) => match message_item(data, 8, bytes::le16(data, 6) as nat) {
            Some((start, end)) => if start < end {
                Some(data.subrange(start, end))
            } else {
                None
            },
            None => None,
        },
    }
}

fn find_message_item(data: &[u8]) -> (r: Option<(usize, usize)>)
    requires
        data.len() >= 8,
    ensures
        match r {
            Some((s, e)) => s <= e <= data.len() && message_item(
                data@,
                8,
                bytes::le16(data@, 6) as nat,
            ) == Some((s as int, e as int)),
            None => message_item(data@, 8, bytes::le16(data@, 6) as nat) is None,
        },
{
    let item_count = get_le16(data, 6);
    let mut left: u16 = item_count;
    let mut offset: usize = 8;
    while left > 0
        invariant
            data.len() >= 8,
            offset <= data.len(),
            message_item(data@, 8, bytes::le16(data@, 6) as nat) == message_item(
                data@,
                offset as int,
                left as nat,
            ),
        decreases left,
    {
        if data.len() - offset < 4 {
            return None;
        }
        let item_type = get_le16(data, offset);
        let item_len = get_le16(data, offset + 2) as usize;
        if data.len() - offset - 4 < item_len {
            return None;
        }
        let start = offset + 4;
        if item_type == ITEM_UCMM || item_type == ITEM_CONNECTED_DATA {
            return Some((start, start + item_len));
        }
        offset = start + item_len;
        left = left - 1;
    }
    None
}

/// The CIP message of an encapsulation packet, where it has one that is not empty.
pub fn cip_message(payload: &[u8]) -> (r: Option<&[u8]>)
    ensures
        match r {
            Some(m) => message_of(payload@) == Some(m@) && m@.len() > 0,
            None => message_of(payload@) is None,
        },
{
    if payload.len() < 24 {
        return None;
    }
    let command = get_le16(payload, 0);
    let data_len = get_le16(payload, 2) as usize;
    if command != CMD_SEND_RR_DATA && command != CMD_SEND_UNIT_DATA {
        return None;
    }
    if payload.len() - 24 < data_len || data_len < 8 {
        return None;
    }
    let data = cut(payload, 24, 24 + data_len);
    match find_message_item(data) {
        Some((start, end)) => if start < end {
            Some(cut(data, start, end))
        } else {
            None
        },
        None => None,
    }
}

// ---------------------------------------------------------------------------
// Forward_Open
// ---------------------------------------------------------------------------

/// The fields of a Forward_Open request that are reported.
#[derive(Debug, Clone, Copy, PartialEq, Eq, Structural)]
pub struct OpenFields {
    pub service: u8,
    pub connection_serial: u16,
    pub vendor_id: u16,
    pub originator_serial: u32,
    pub ot_rpi: u32,
    pub to_rpi: u32,
    pub transport_type: u8,
}

/// What a CIP message is, seen as a Forward_Open request.
#[derive(Debug, Clone, Copy, PartialEq, Eq, Structural)]
pub enum OpenRequest {
    /// Another message.
    Other,
    /// A request that ends before its fixed fields do.
    ShortBody,
    /// A request that ends before its connection path does.
    ShortPath,
    /// A whole request, with the place of its connection path in the message.
    Whole { fields: OpenFields, path_start: usize, path_len: usize },
}

/// The length of the fixed fields of a request: the network parameters take four bytes
/// each in the large form, two in the standard one.
pub open spec fn fixed_len(service: u8) -> int {
    if service == SERVICE_LARGE_FORWARD_OPEN {
        40
    } else {
        36
    }
}

/// What a CIP message that is not empty is, seen as a Forward_Open request. A response has
/// the top bit of the service byte set, so it is another message.
pub open spec fn open_request(m: Seq<u8>) -> OpenRequest {
    let service = m[0];
    if service != SERVICE_FORWARD_OPEN && service != SERVICE_LARGE_FORWARD_OPEN || m.len() < 2 {
        OpenRequest::Other
    } else {
        let body = 2 + 2 * m[1];
        let fixed = fixed_len(service);
        if m.len() < body + fixed {
            OpenRequest::ShortBody
        } else {
            let path_len = 2 * m[body + fixed - 1];
            if m.len() < body + fixed + path_len {
                OpenRequest::ShortPath
            } else {
                OpenRequest::Whole {
                    fields: OpenFields {
                        service,
                        connection_serial: bytes::le16(m, body + 10),
                        vendor_id: bytes::le16(m, body + 12),
                        originator_serial: bytes::le32(m, body + 14),
                        ot_rpi: bytes::le32(m, body + 22),
                        to_rpi: bytes::le32(
                            m,
                            if service == SERVICE_LARGE_FORWARD_OPEN {
                                body + 30
                            } else {
                                body + 28
                            },
                        ),
                        transport_type: m[body + fixed - 2],
                    },
                    path_start: (body + fixed) as usize,
                    path_len: path_len as usize,
                }
            }
        }
    }
}

/// What a CIP message that is not empty is, seen as a Forward_Open request.
pub fn parse_forward_open(msg: &[u8]) -> (r: OpenRequest)
    requires
        msg.len() > 0,
    ensures
        r == open_request(msg@),
        match r {
            OpenRequest::Whole { path_start, path_len, .. } => path_start + path_len <= msg.len(),
            _ => true,
        },
{
    let service = msg[0];
    let is_large = match service {
        SERVICE_FORWARD_OPEN => false,
        SERVICE_LARGE_FORWARD_OPEN => true,
        _ => {
            return OpenRequest::Other;
        },
    };
    if msg.len() < 2 {
        return OpenRequest::Other;
    }
    let body: usize = 2 + msg[1] as usize * 2;
    let fixed: usize = if is_large {
        40
    } else {
        36
    };
    let start: usize = body + fixed;
    if msg.len() < start {
        return OpenRequest::ShortBody;
    }
    let path_len: usize = msg[start - 1] as usize * 2;
    if msg.len() - start < path_len {
        return OpenRequest::ShortPath;
    }
    OpenRequest::Whole {
        fields: OpenFields {
            service,
            connection_serial: get_le16(msg, body + 10),
            vendor_id: get_le16(msg, body + 12),
            originator_serial: get_le32(msg, body + 14),
            ot_rpi: get_le32(msg, body + 22),
            to_rpi: get_le32(
                msg,
                if is_large {
                    body + 30
                } else {
                    body + 28
                },
            ),
            transport_type: msg[start - 2],
        },
        path_start: start,
        path_len,
    }
}

// ---------------------------------------------------------------------------
// Connection path
// ---------------------------------------------------------------------------

/// The next even number.
pub open spec fn padded(n: int) -> int {
    if n % 2 != 0 {
        n + 1
    } else {
        n
    }
}

/// The length of the path segment at `off`, by the class in the top three bits of its type
/// byte; none where the path ends before the length is known or the class is reserved.
pub open spec fn segment_len(path: Seq<u8>, off: int) -> Option<int> {
    let seg_type = path[off];
    let class = (seg_type >> 5) & 0x07;
    let sized = off + 1 < path.len();
    let size = path[off + 1] as int;
    if class == 0 || class == 3 {
        // Port and symbolic segments: a byte count, padded to an even length.
        if sized {
            Some(padded(2 + size))
        } else {
            None
        }
    } else if class == 1 {
        // Logical segments: the width of the value is in the low two bits. A pad byte stands
        // before a value of 16 or 32 bits.
        let format = seg_type & 0x03;
        if format == 0 {
            Some(2)
        } else if format == 1 {
            Some(4)
        } else if format == 2 {
            Some(6)
        } else {
            None
        }
    } else if class == 2 || class == 4 || class == 5 {
        // Network and data segments: a word count.
        if sized {
            Some(2 + 2 * size)
        } else {
            None
        }
    } else {
        None
    }
}

/// Whether a walk along the path from `off` on comes to a safety segment.
pub open spec fn safety_from(path: Seq<u8>, off: int) -> bool
    decreases path.len() - off,
{
    if off < 0 || off >= path.len() {
        false
    } else if path[off] == SAFETY_SEGMENT_TYPE {
        true
    } else {
        match segment_len(path, off) {
            Some(n) => 0 < n < path.len() - off && safety_from(path, off + n),
            None => false,
        }
    }
}

fn segment_advance(path: &[u8], off: usize) -> (r: Option<usize>)
    requires
        off < path.len(),
    ensures
        match r {
            Some(n) => segment_len(path@, off as int) == Some(n as int) && 2 <= n <= 520,
            None => segment_len(path@, off as int) is None,
        },
{
    let seg_type = path[off];
    let class = (seg_type >> 5) & 0x07;
    match class {
        0 | 3 => {
            if path.len() - off <= 1 {
                return None;
            }
            let total: usize = 2 + path[off + 1] as usize;
            Some(
                if total % 2 != 0 {
                    total + 1
                } else {
                    total
                },
            )
        },
        1 => match seg_type & 0x03 {
            0 => Some(2),
            1 => Some(4),
            2 => Some(6),
            _ => None,
        },
        2 | 4 | 5 => {
            if path.len() - off <= 1 {
                return None;
            }
            Some(2 + path[off + 1] as usize * 2)
        },
        _ => None,
    }
}

/// Whether a connection path holds a Network Safety Segment.
pub fn has_safety_segment(path: &[u8]) -> (r: bool)
    ensures
        r == safety_from(path@, 0),
{
    let mut off: usize = 0;
    while off < path.len()
        invariant
            off <= path.len(),
            safety_from(path@, 0) == safety_from(path@, off as int),
        decreases path.len() - off,
    {
        if path[off] == SAFETY_SEGMENT_TYPE {
            return true;
        }
        match segment_advance(path, off) {
            Some(n) => {
                if n >= path.len() - off {
                    return false;
                }
                off = off + n;
            },
            None => {
                return false;
            },
        }
    }
    false
}

// ---------------------------------------------------------------------------
// Events
// ---------------------------------------------------------------------------

/// The envelope of a chunk.
pub open spec fn env(c: ChunkView) -> EnvelopeView {
    events::chunk_env(c, TransportProtocol::Tcp, "cip_safety"@)
}

fn envelope(chunk: &StreamChunk<'_>) -> (r: EventEnvelope)
    ensures
        r@ == env(chunk@),
{
    chunk_envelope(chunk, TransportProtocol::Tcp, "cip_safety")
}

/// A low-severity anomaly in a CIP message.
pub open spec fn anomaly_of(c: ChunkView, reason: Seq<char>, msg: Seq<u8>) -> EventView {
    events::anomaly_view(c.capture_id, env(c), "cip_safety"@, "low"@, reason, msg)
}

/// The operation label of a safety connection request.
pub open spec fn operation_of(service: u8) -> Seq<char> {
    if service == SERVICE_LARGE_FORWARD_OPEN {
        "cip_safety_forward_open_large"@
    } else {
        "cip_safety_forward_open"@
    }
}

/// The transaction of a safety connection request.
pub open spec fn open_seen(c: ChunkView, f: OpenFields) -> EventView {
    events::tx_view(
        c.capture_id,
        env(c),
        TransactionView {
            object_refs: seq!["cip_service:forward_open"@].push("cip_safety"@),
            ..events::plain_tx(
                operation_of(f.service),
                "observed"@,
                Some(
                    operation_of(f.service) + " serial="@ + text::hex0x(
                        f.connection_serial as nat,
                        4,
                    ) + " vendor="@ + text::hex0x(f.vendor_id as nat, 4),
                ),
                Map::empty().insert("service_code"@, text::hex0x(f.service as nat, 2)).insert(
                    "connection_serial"@,
                    text::hex0x(f.connection_serial as nat, 4),
                ).insert("vendor_id"@, text::hex0x(f.vendor_id as nat, 4)).insert(
                    "originator_serial"@,
                    text::hex0x(f.originator_serial as nat, 8),
                ).insert("ot_rpi_us"@, text::dec(f.ot_rpi as nat)).insert(
                    "to_rpi_us"@,
                    text::dec(f.to_rpi as nat),
                ).insert("transport_type"@, text::hex0x(f.transport_type as nat, 2)).insert(
                    "safety_segment_present"@,
                    "true"@,
                ),
            )
        },
    )
}

/// The safety device that a connection is opened to.
pub open spec fn device_seen(c: ChunkView, f: OpenFields) -> EventView {
    let ip = c.context.dst_ip.text();
    events::asset_event_view(
        c.capture_id,
        env(c),
        AssetView {
            asset_key: ip,
            role: Some("cip_safety_device"@),
            vendor: None,
            model: None,
            firmware: None,
            hostnames: Seq::empty(),
            protocols: seq!["ethernet_ip"@].push("cip"@).push("cip_safety"@),
            identifiers: Map::empty().insert("ip"@, ip).insert(
                "cip_vendor_id"@,
                text::hex0x(f.vendor_id as nat, 4),
            ).insert("originator_serial"@, text::hex0x(f.originator_serial as nat, 8)),
        },
    )
}

/// What a chunk does, where `seen` holds the addresses of the devices already observed.
pub open spec fn step(seen: Set<Seq<char>>, c: ChunkView) -> (Set<Seq<char>>, Seq<EventView>) {
    let none = Seq::<EventView>::empty();
    match message_of(c.payload) {
        None => (seen, none),
        Some(m) => match open_request(m) {
            OpenRequest::Other => (seen, none),
            OpenRequest::ShortBody => (
                seen,
                none.push(
                    anomaly_of(c, "truncated Forward_Open: buffer too short for fixed fields"@, m),
                ),
            ),
            OpenRequest::ShortPath => (
                seen,
                none.push(
                    anomaly_of(
                        c,
                        "truncated Forward_Open: connection_path_size exceeds buffer"@,
                        m,
                    ),
                ),
            ),
            OpenRequest::Whole { fields, path_start, path_len } => {
                let ip = c.context.dst_ip.text();
                if safety_from(m.subrange(path_start as int, path_start + path_len), 0) {
                    (
                        seen.insert(ip),
                        events::push_if(
                            none.push(open_seen(c, fields)),
                            !seen.contains(ip),
                            device_seen(c, fields),
                        ),
                    )
                } else {
                    (seen, none)
                }
            },
        },
    }
}

/// The CIP Safety decoder.
#[derive(Debug)]
pub struct CipSafetyDecoder {
    /// Addresses of the safety devices already observed.
    pub seen_safety_devices: KeySet<String>,
}

impl View for CipSafetyDecoder {
    type V = Set<Seq<char>>;

    open spec fn view(&self) -> Set<Seq<char>> {
        self.seen_safety_devices@
    }
}

impl Default for CipSafetyDecoder {
    fn default() -> (r: Self)
        ensures
            r@ == Set::<Seq<char>>::empty(),
    {
        CipSafetyDecoder { seen_safety_devices: KeySet::new() }
    }
}

impl CipSafetyDecoder {
    /// The name of the decoder.
    pub fn name(&self) -> (r: &'static str)
        ensures
            r@ == "cip_safety"@,
    {
        "cip_safety"
    }

    /// The traffic that the decoder asks for.
    pub fn interest(&self) -> (r: &'static [DecoderInterest])
        ensures
            r@ == seq![DecoderInterest::TcpPort(44818)],
    {
        &[DecoderInterest::TcpPort(44818)]
    }

    /// Takes in a chunk of a TCP stream.
    pub fn on_stream_chunk(&mut self, chunk: &StreamChunk<'_>, out: &mut Vec<BronzeEvent>)
        ensures
            final(self)@ == step(old(self)@, chunk@).0,
            events::events(final(out)@) == events::events(old(out)@) + step(
                old(self)@,
                chunk@,
            ).1,
    {
        let mut ev = no_events();
        let msg = match cip_message(chunk.payload) {
            Some(m) => m,
            None => {
                emit_all(out, ev);
                return;
            },
        };
        match parse_forward_open(msg) {
            OpenRequest::Other => {},
            OpenRequest::ShortBody => {
                emit(
                    &mut ev,
                    parse_anomaly_event(
                        chunk.capture_id,
                        envelope(chunk),
                        "cip_safety",
                        "low",
                        "truncated Forward_Open: buffer too short for fixed fields",
                        msg,
                    ),
                );
            },
            OpenRequest::ShortPath => {
                emit(
                    &mut ev,
                    parse_anomaly_event(
                        chunk.capture_id,
                        envelope(chunk),
                        "cip_safety",
                        "low",
                        "truncated Forward_Open: connection_path_size exceeds buffer",
                        msg,
                    ),
                );
            },
            OpenRequest::Whole { fields, path_start, path_len } => {
                if has_safety_segment(cut(msg, path_start, path_start + path_len)) {
                    self.report(chunk, &fields, &mut ev);
                }
            },
        }
        emit_all(out, ev);
    }

    fn report(&mut self, chunk: &StreamChunk<'_>, f: &OpenFields, ev: &mut Vec<BronzeEvent>)
        ensures
            final(self)@ == old(self)@.insert(chunk@.context.dst_ip.text()),
            events::events(final(ev)@) == events::push_if(
                events::events(old(ev)@).push(open_seen(chunk@, *f)),
                !old(self)@.contains(chunk@.context.dst_ip.text()),
                device_seen(chunk@, *f),
            ),
    {
        let operation = if f.service == SERVICE_LARGE_FORWARD_OPEN {
            "cip_safety_forward_open_large"
        } else {
            "cip_safety_forward_open"
        };
        let mut attributes = Attributes::new();
        attributes.put_hex("service_code", f.service, 2);
        attributes.put_hex("connection_serial", f.connection_serial, 4);
        attributes.put_hex("vendor_id", f.vendor_id, 4);
        attributes.put_hex("originator_serial", f.originator_serial, 8);
        attributes.put_dec("ot_rpi_us", f.ot_rpi);
        attributes.put_dec("to_rpi_us", f.to_rpi);
        attributes.put_hex("transport_type", f.transport_type, 2);
        attributes.put("safety_segment_present", "true");
        let summary = cat(
            cat(operation, " serial=").as_str(),
            hex0x_text(f.connection_serial, 4).as_str(),
        );
        let summary = cat(
            cat(summary.as_str(), " vendor=").as_str(),
            hex0x_text(f.vendor_id, 4).as_str(),
        );
        let mut refs = one_text("cip_service:forward_open".to_owned());
        push_text(&mut refs, "cip_safety".to_owned());
        emit(
            ev,
            transaction_event(
                chunk.capture_id,
                envelope(chunk),
                ProtocolTransaction {
                    operation: operation.to_owned(),
                    status: "observed".to_owned(),
                    request_summary: Some(summary),
                    response_summary: None,
                    object_refs: refs,
                    values: no_values(),
                    attributes,
                    modbus: None,
                    protocol_fields: None,
                },
            ),
        );
        let dst_key = chunk.context.dst_ip.text();
        if self.seen_safety_devices.insert(dst_key.as_str().to_owned()) {
            let mut identifiers = Attributes::new();
            identifiers.put("ip", dst_key.as_str());
            identifiers.put_hex("cip_vendor_id", f.vendor_id, 4);
            identifiers.put_hex("originator_serial", f.originator_serial, 8);
            let mut protocols = one_text("ethernet_ip".to_owned());
            push_text(&mut protocols, "cip".to_owned());
            push_text(&mut protocols, "cip_safety".to_owned());
            emit(
                ev,
                asset_event(
                    chunk.capture_id,
                    envelope(chunk),
                    AssetObservation {
                        asset_key: dst_key,
                        role: Some("cip_safety_device".to_owned()),
                        vendor: None,
                        model: None,
                        firmware: None,
                        hostnames: no_texts(),
                        protocols,
                        identifiers,
                    },
                ),
            );
        }
    }
}

// ---------------------------------------------------------------------------
// Laws
// ---------------------------------------------------------------------------

/// A device is observed at most once for each destination address: a chunk gives an asset
/// only when its destination was not observed before, and is then remembered for good.
pub proof fn device_is_observed_once(seen: Set<Seq<char>>, c: ChunkView)
    ensures
        seen.subset_of(step(seen, c).0),
        seen.contains(c.context.dst_ip.text()) ==> events::asset_count(step(seen, c).1) == 0,
        events::asset_count(step(seen, c).1) <= 1,
        events::asset_count(step(seen, c).1) == 1 ==> step(seen, c).0.contains(
            c.context.dst_ip.text(),
        ),
{
    reveal_with_fuel(events::asset_count, 3);
    let e = step(seen, c).1;
    if e.len() == 2 {
        assert(e.drop_last().drop_last() =~= Seq::<EventView>::empty());
    } else if e.len() == 1 {
        assert(e.drop_last() =~= Seq::<EventView>::empty());
    }
}

/// A connection path that starts with a safety segment is a safety path; an empty path and
/// a path in which the type byte does not occur are not.
pub proof fn safety_is_by_segment_type(path: Seq<u8>)
    ensures
        path.len() > 0 && path[0] == SAFETY_SEGMENT_TYPE ==> safety_from(path, 0),
        path.len() == 0 ==> !safety_from(path, 0),
        (forall|i: int| 0 <= i < path.len() ==> path[i] != SAFETY_SEGMENT_TYPE) ==> !safety_from(
            path,
            0,
        ),
{
    if forall|i: int| 0 <= i < path.len() ==> path[i] != SAFETY_SEGMENT_TYPE {
        no_type_byte_no_safety(path, 0);
    }
}

proof fn no_type_byte_no_safety(path: Seq<u8>, off: int)
    requires
        forall|i: int| 0 <= i < path.len() ==> path[i] != SAFETY_SEGMENT_TYPE,
    ensures
        !safety_from(path, off),
    decreases path.len() - off,
{
    if 0 <= off < path.len() {
        match segment_len(path, off) {
            Some(n) => {
                if 0 < n < path.len() - off {
                    no_type_byte_no_safety(path, off + n);
                }
            },
            None => {},
        }
    }
}

/// A chunk gives a transaction exactly for a whole request to open a connection along a safety
/// path, and an anomaly exactly for a request that was cut short.
pub proof fn safety_paths_give_transactions(seen: Set<Seq<char>>, c: ChunkView)
    ensures
        events::tx_count(step(seen, c).1) == (if message_of(c.payload) matches Some(m) && open_request(
            m,
        ) matches OpenRequest::Whole { fields, path_start, path_len } && safety_from(
            m.subrange(path_start as int, path_start + path_len),
            0,
        ) {
            1nat
        } else {
            0nat
        }),
        events::anomaly_count(step(seen, c).1) == (if message_of(c.payload) matches Some(m) && (
        open_request(m) is ShortBody || open_request(m) is ShortPath) {
            1nat
        } else {
            0nat
        }),
{
    let none = Seq::<EventView>::empty();
    let e = step(seen, c).1;
    events::counts_push_if(none, true, e[0]);
    events::counts_push_if(none.push(e[0]), true, e[1]);
    assert(e.len() == 1 ==> e =~= none.push(e[0]));
    assert(e.len() == 2 ==> e =~= none.push(e[0]).push(e[1]));
}

proof fn walk_shifts(before: Seq<u8>, path: Seq<u8>, off: int)
    requires
        off >= 0,
    ensures
        safety_from(before + path, before.len() + off) == safety_from(path, off),
    decreases path.len() - off,
{
    let n = before.len() as int;
    let all = before + path;
    if off < path.len() {
        assert(all[n + off] == path[off]);
        assert(off + 1 < path.len() ==> all[n + off + 1] == path[off + 1]);
        assert(segment_len(all, n + off) == segment_len(path, off));
        if let Some(k) = segment_len(path, off) {
            if 0 < k < path.len() - off {
                walk_shifts(before, path, off + k);
            }
        }
    }
}

/// A whole segment of another kind is stepped over: behind it, a safety segment is found exactly
/// where the rest of the path holds one.
pub proof fn other_segments_are_stepped_over(segment: Seq<u8>, rest: Seq<u8>)
    requires
        segment.len() > 0,
        segment[0] != SAFETY_SEGMENT_TYPE,
        segment_len(segment, 0) == Some(segment.len() as int),
    ensures
        safety_from(segment + rest, 0) == safety_from(rest, 0),
{
    let all = segment + rest;
    assert(all[0] == segment[0]);
    assert(segment.len() > 1 ==> all[1] == segment[1]);
    assert(segment_len(all, 0) == segment_len(segment, 0));
    walk_shifts(segment, rest, 0);
}

/// A Forward_Open: service, path size and path of the request, ten bytes of timing and connection
/// ids, serial number, vendor and serial number of the originator, and then multiplier, intervals,
/// parameters, transport and the size of the connection path.
#[verifier::opaque]
pub open spec fn open_bytes(
    head: Seq<u8>,
    ids: Seq<u8>,
    serial: u16,
    vendor: u16,
    originator: u32,
    multiplier: Seq<u8>,
    ot_rpi: u32,
    ot_params: u16,
    to_rpi: u32,
    to_params: u16,
    transport: u8,
    words: u8,
    path: Seq<u8>,
) -> Seq<u8> {
    head + (ids + (bytes::le16_bytes(serial) + (bytes::le16_bytes(vendor)
        + (bytes::le32_bytes(originator) + (multiplier + (bytes::le32_bytes(ot_rpi)
        + (bytes::le16_bytes(ot_params) + (bytes::le32_bytes(to_rpi)
        + (bytes::le16_bytes(to_params) + (seq![transport] + (seq![words] + path)))))))))))
}

proof fn open_bytes_parts(
    head: Seq<u8>,
    ids: Seq<u8>,
    serial: u16,
    vendor: u16,
    originator: u32,
    multiplier: Seq<u8>,
    ot_rpi: u32,
    ot_params: u16,
    to_rpi: u32,
    to_params: u16,
    transport: u8,
    words: u8,
    path: Seq<u8>,
)
    requires
        ids.len() == 10,
        multiplier.len() == 4,
    ensures
        ({
            let b = open_bytes(head, ids, serial, vendor, originator, multiplier, ot_rpi, ot_params,
                to_rpi, to_params, transport, words, path);
            &&& b.subrange(0, 0int + head.len()) == head
            &&& b.subrange(0int + head.len(), 10int + head.len()) == ids
            &&& bytes::le16(b, 10int + head.len()) == serial
            &&& bytes::le16(b, 12int + head.len()) == vendor
            &&& bytes::le32(b, 14int + head.len()) == originator
            &&& b.subrange(18int + head.len(), 22int + head.len()) == multiplier
            &&& bytes::le32(b, 22int + head.len()) == ot_rpi
            &&& bytes::le16(b, 26int + head.len()) == ot_params
            &&& bytes::le32(b, 28int + head.len()) == to_rpi
            &&& bytes::le16(b, 32int + head.len()) == to_params
            &&& b[34int + head.len()] == transport
            &&& b[35int + head.len()] == words
            &&& b.skip(36int + head.len()) == path
            &&& b.len() == 36int + head.len() + path.len()
        }),
{
    reveal(open_bytes);
    let t12 = path;
    let t11 = seq![words] + t12;
    let t10 = seq![transport] + t11;
    let t9 = bytes::le16_bytes(to_params) + t10;
    let t8 = bytes::le32_bytes(to_rpi) + t9;
    let t7 = bytes::le16_bytes(ot_params) + t8;
    let t6 = bytes::le32_bytes(ot_rpi) + t7;
    let t5 = multiplier + t6;
    let t4 = bytes::le32_bytes(originator) + t5;
    let t3 = bytes::le16_bytes(vendor) + t4;
    let t2 = bytes::le16_bytes(serial) + t3;
    let t1 = ids + t2;
    let t0 = head + t1;
    let b = t0;
    assert(b.skip(0) =~= t0);
    bytes::next_part(b, 0, head, t1);
    bytes::next_part(b, 0int + head.len(), ids, t2);
    bytes::next_le(b, 10int + head.len(), serial, 0, 0, t3);
    bytes::next_le(b, 12int + head.len(), vendor, 0, 0, t4);
    bytes::next_le(b, 14int + head.len(), 0, originator, 0, t5);
    bytes::next_part(b, 18int + head.len(), multiplier, t6);
    bytes::next_le(b, 22int + head.len(), 0, ot_rpi, 0, t7);
    bytes::next_le(b, 26int + head.len(), ot_params, 0, 0, t8);
    bytes::next_le(b, 28int + head.len(), 0, to_rpi, 0, t9);
    bytes::next_le(b, 32int + head.len(), to_params, 0, 0, t10);
    bytes::next_part(b, 34int + head.len(), seq![transport], t11);
    assert(seq![transport][0] == transport);
    bytes::next_part(b, 35int + head.len(), seq![words], t12);
    assert(seq![words][0] == words);
}

/// A Large_Forward_Open: service, path size and path of the request, ten bytes of timing and connection
/// ids, serial number, vendor and serial number of the originator, and then multiplier, intervals,
/// parameters, transport and the size of the connection path.
#[verifier::opaque]
pub open spec fn large_open_bytes(
    head: Seq<u8>,
    ids: Seq<u8>,
    serial: u16,
    vendor: u16,
    originator: u32,
    multiplier: Seq<u8>,
    ot_rpi: u32,
    ot_params: u32,
    to_rpi: u32,
    to_params: u32,
    transport: u8,
    words: u8,
    path: Seq<u8>,
) -> Seq<u8> {
    head + (ids + (bytes::le16_bytes(serial) + (bytes::le16_bytes(vendor)
        + (bytes::le32_bytes(originator) + (multiplier + (bytes::le32_bytes(ot_rpi)
        + (bytes::le32_bytes(ot_params) + (bytes::le32_bytes(to_rpi)
        + (bytes::le32_bytes(to_params) + (seq![transport] + (seq![words] + path)))))))))))
}

proof fn large_open_bytes_parts(
    head: Seq<u8>,
    ids: Seq<u8>,
    serial: u16,
    vendor: u16,
    originator: u32,
    multiplier: Seq<u8>,
    ot_rpi: u32,
    ot_params: u32,
    to_rpi: u32,
    to_params: u32,
    transport: u8,
    words: u8,
    path: Seq<u8>,
)
    requires
        ids.len() == 10,
        multiplier.len() == 4,
    ensures
        ({
            let b = large_open_bytes(head, ids, serial, vendor, originator,
                multiplier, ot_rpi, ot_params, to_rpi, to_params, transport, words, path);
            &&& b.subrange(0, 0int + head.len()) == head
            &&& b.subrange(0int + head.len(), 10int + head.len()) == ids
            &&& bytes::le16(b, 10int + head.len()) == serial
            &&& bytes::le16(b, 12int + head.len()) == vendor
            &&& bytes::le32(b, 14int + head.len()) == originator
            &&& b.subrange(18int + head.len(), 22int + head.len()) == multiplier
            &&& bytes::le32(b, 22int + head.len()) == ot_rpi
            &&& bytes::le32(b, 26int + head.len()) == ot_params
            &&& bytes::le32(b, 30int + head.len()) == to_rpi
            &&& bytes::le32(b, 34int + head.len()) == to_params
            &&& b[38int + head.len()] == transport
            &&& b[39int + head.len()] == words
            &&& b.skip(40int + head.len()) == path
            &&& b.len() == 40int + head.len() + path.len()
        }),
{
    reveal(large_open_bytes);
    let t12 = path;
    let t11 = seq![words] + t12;
    let t10 = seq![transport] + t11;
    let t9 = bytes::le32_bytes(to_params) + t10;
    let t8 = bytes::le32_bytes(to_rpi) + t9;
    let t7 = bytes::le32_bytes(ot_params) + t8;
    let t6 = bytes::le32_bytes(ot_rpi) + t7;
    let t5 = multiplier + t6;
    let t4 = bytes::le32_bytes(originator) + t5;
    let t3 = bytes::le16_bytes(vendor) + t4;
    let t2 = bytes::le16_bytes(serial) + t3;
    let t1 = ids + t2;
    let t0 = head + t1;
    let b = t0;
    assert(b.skip(0) =~= t0);
    bytes::next_part(b, 0, head, t1);
    bytes::next_part(b, 0int + head.len(), ids, t2);
    bytes::next_le(b, 10int + head.len(), serial, 0, 0, t3);
    bytes::next_le(b, 12int + head.len(), vendor, 0, 0, t4);
    bytes::next_le(b, 14int + head.len(), 0, originator, 0, t5);
    bytes::next_part(b, 18int + head.len(), multiplier, t6);
    bytes::next_le(b, 22int + head.len(), 0, ot_rpi, 0, t7);
    bytes::next_le(b, 26int + head.len(), 0, ot_params, 0, t8);
    bytes::next_le(b, 30int + head.len(), 0, to_rpi, 0, t9);
    bytes::next_le(b, 34int + head.len(), 0, to_params, 0, t10);
    bytes::next_part(b, 38int + head.len(), seq![transport], t11);
    assert(seq![transport][0] == transport);
    bytes::next_part(b, 39int + head.len(), seq![words], t12);
    assert(seq![words][0] == words);
}

/// A Forward_Open is read back, each part from its own place, and its connection path stands
/// behind it.
pub proof fn open_bytes_reads_back(
    way: Seq<u8>,
    ids: Seq<u8>,
    serial: u16,
    vendor: u16,
    originator: u32,
    multiplier: Seq<u8>,
    ot_rpi: u32,
    ot_params: u16,
    to_rpi: u32,
    to_params: u16,
    transport: u8,
    path: Seq<u8>,
    rest: Seq<u8>,
)
    requires
        way.len() % 2 == 0,
        way.len() <= 0x1FE,
        path.len() % 2 == 0,
        path.len() <= 0x1FE,
        ids.len() == 10,
        multiplier.len() == 4,
    ensures
        ({
            let head = seq![0x54u8, (way.len() / 2) as u8] + way;
            let m = open_bytes(
                head,
                ids,
                serial,
                vendor,
                originator,
                multiplier,
                ot_rpi,
                ot_params,
                to_rpi,
                to_params,
                transport,
                (path.len() / 2) as u8,
                path + rest,
            );
            match open_request(m) {
                OpenRequest::Whole { fields, path_start, path_len } => {
                    &&& fields.service == 0x54
                    &&& fields.connection_serial == serial
                    &&& fields.vendor_id == vendor
                    &&& fields.originator_serial == originator
                    &&& fields.ot_rpi == ot_rpi
                    &&& fields.to_rpi == to_rpi
                    &&& fields.transport_type == transport
                    &&& m.subrange(path_start as int, path_start + path_len) == path
                },
                _ => false,
            }
        }),
{
    let head = seq![0x54u8, (way.len() / 2) as u8] + way;
    let words = (path.len() / 2) as u8;
    let m = open_bytes(
        head,
        ids,
        serial,
        vendor,
        originator,
        multiplier,
        ot_rpi,
        ot_params,
        to_rpi,
        to_params,
        transport,
        words,
        path + rest,
    );
    open_bytes_parts(
        head,
        ids,
        serial,
        vendor,
        originator,
        multiplier,
        ot_rpi,
        ot_params,
        to_rpi,
        to_params,
        transport,
        words,
        path + rest,
    );
    let h = m.subrange(0, head.len() as int);
    assert(h[0] == m[0] && h[1] == m[1]);
    bytes::next_part(m, 36int + head.len(), path, rest);
}

/// A Large_Forward_Open is read back, each part from its own place, and its connection path stands
/// behind it.
pub proof fn large_open_bytes_reads_back(
    way: Seq<u8>,
    ids: Seq<u8>,
    serial: u16,
    vendor: u16,
    originator: u32,
    multiplier: Seq<u8>,
    ot_rpi: u32,
    ot_params: u32,
    to_rpi: u32,
    to_params: u32,
    transport: u8,
    path: Seq<u8>,
    rest: Seq<u8>,
)
    requires
        way.len() % 2 == 0,
        way.len() <= 0x1FE,
        path.len() % 2 == 0,
        path.len() <= 0x1FE,
        ids.len() == 10,
        multiplier.len() == 4,
    ensures
        ({
            let head = seq![0x5Bu8, (way.len() / 2) as u8] + way;
            let m = large_open_bytes(
                head,
                ids,
                serial,
                vendor,
                originator,
                multiplier,
                ot_rpi,
                ot_params,
                to_rpi,
                to_params,
                transport,
                (path.len() / 2) as u8,
                path + rest,
            );
            match open_request(m) {
                OpenRequest::Whole { fields, path_start, path_len } => {
                    &&& fields.service == 0x5B
                    &&& fields.connection_serial == serial
                    &&& fields.vendor_id == vendor
                    &&& fields.originator_serial == originator
                    &&& fields.ot_rpi == ot_rpi
                    &&& fields.to_rpi == to_rpi
                    &&& fields.transport_type == transport
                    &&& m.subrange(path_start as int, path_start + path_len) == path
                },
                _ => false,
            }
        }),
{
    let head = seq![0x5Bu8, (way.len() / 2) as u8] + way;
    let words = (path.len() / 2) as u8;
    let m = large_open_bytes(
        head,
        ids,
        serial,
        vendor,
        originator,
        multiplier,
        ot_rpi,
        ot_params,
        to_rpi,
        to_params,
        transport,
        words,
        path + rest,
    );
    large_open_bytes_parts(
        head,
        ids,
        serial,
        vendor,
        originator,
        multiplier,
        ot_rpi,
        ot_params,
        to_rpi,
        to_params,
        transport,
        words,
        path + rest,
    );
    let h = m.subrange(0, head.len() as int);
    assert(h[0] == m[0] && h[1] == m[1]);
    bytes::next_part(m, 40int + head.len(), path, rest);
}

/// What was opened is told as it was read, attribute by attribute, and the device is the end that
/// it is addressed to.
pub proof fn open_is_told_as_read(c: ChunkView, f: OpenFields)
    ensures
        ({
            let tx = open_seen(c, f).family->ProtocolTransaction_0;
            let m = tx.attributes;
            let a = device_seen(c, f).family->AssetObservation_0;
            &&& tx.status == "observed"@
            &&& tx.operation == (if f.service == 0x5B {
                "cip_safety_forward_open_large"@
            } else {
                "cip_safety_forward_open"@
            })
            &&& m["service_code"@] == "0x"@ + text::hex(f.service as nat, 2)
            &&& m["connection_serial"@] == "0x"@ + text::hex(f.connection_serial as nat, 4)
            &&& m["vendor_id"@] == "0x"@ + text::hex(f.vendor_id as nat, 4)
            &&& m["originator_serial"@] == "0x"@ + text::hex(f.originator_serial as nat, 8)
            &&& m["ot_rpi_us"@] == text::dec(f.ot_rpi as nat)
            &&& m["to_rpi_us"@] == text::dec(f.to_rpi as nat)
            &&& m["transport_type"@] == "0x"@ + text::hex(f.transport_type as nat, 2)
            &&& m["safety_segment_present"@] == "true"@
            &&& a.asset_key == c.context.dst_ip.text()
            &&& a.role == Some("cip_safety_device"@)
            &&& a.identifiers["ip"@] == c.context.dst_ip.text()
            &&& a.identifiers["cip_vendor_id"@] == "0x"@ + text::hex(f.vendor_id as nat, 4)
            &&& a.identifiers["originator_serial"@] == "0x"@ + text::hex(
                f.originator_serial as nat,
                8,
            )
        }),
{
    reveal_strlit("service_code");
    reveal_strlit("connection_serial");
    reveal_strlit("vendor_id");
    reveal_strlit("originator_serial");
    reveal_strlit("ot_rpi_us");
    reveal_strlit("to_rpi_us");
    reveal_strlit("transport_type");
    reveal_strlit("safety_segment_present");
    reveal_strlit("ip");
    reveal_strlit("cip_vendor_id");
    assert({
        &&& "service_code"@.len() == 12
        &&& "connection_serial"@.len() == 17
        &&& "vendor_id"@.len() == 9
        &&& "originator_serial"@.len() == 17
        &&& "ot_rpi_us"@.len() == 9
        &&& "to_rpi_us"@.len() == 9
        &&& "transport_type"@.len() == 14
        &&& "safety_segment_present"@.len() == 22
        &&& "ip"@.len() == 2
        &&& "cip_vendor_id"@.len() == 13
    });
    assert("connection_serial"@[0] != "originator_serial"@[0]);
    assert("vendor_id"@[0] != "ot_rpi_us"@[0]);
    assert("vendor_id"@[0] != "to_rpi_us"@[0]);
    assert("ot_rpi_us"@[0] != "to_rpi_us"@[0]);
}

} // verus!
