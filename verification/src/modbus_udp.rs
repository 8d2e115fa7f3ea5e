//! Modbus over UDP, port 502: one frame in each datagram.
//!
//! ```text
//! transaction_id u16, protocol_id u16 (0), length u16, unit_id u8, function u8, data
//! (all big-endian)
//! ```
//!
//! A request waits for the response with its transaction id that comes back between the same
//! two addresses. At most 256 requests wait; the oldest gives way. Function 0x5A (UMAS) is left
//! to its own decoder.

use vstd::prelude::*;

use crate::bytes;
use crate::bytes::{cut, get_be16};
use crate::collections;
use crate::collections::{Attributes, Key, KeyedMap};
use crate::events;
use crate::events::{
    chunk_envelope, emit, emit_all, new_event, no_events, no_values, parse_anomaly_event,
    transaction_event, BronzeEvent, BronzeEventFamily, EnvelopeView, EventEnvelope, EventView,
    FamilyView, ModbusBronzeFields, ModbusFieldsView, ModbusRegKind, PointIdentifier, PointValue,
    PointValueView, ProcessReading, ProtocolTransaction, RawQuality, ReadingView, TransactionView,
};
use crate::packet::{
    AddressView, ChunkView, DecoderInterest, IpAddress, StreamChunk, Timestamp, TransportProtocol,
};
use crate::text;
use crate::text::{cat, dec_text, hex0x_text, no_texts, same_text};

verus! {

pub const FC_UMAS: u8 = 0x5A;

/// The bytes before the function code.
pub const MBAP_LEN: usize = 7;

/// How many requests wait at most.
pub const MAX_PENDING: usize = 256;

// ---------------------------------------------------------------------------
// Waiting requests
// ---------------------------------------------------------------------------

/// What a request is found by.
#[derive(Debug)]
pub struct PKey {
    pub src_ip: IpAddress,
    pub dst_ip: IpAddress,
    pub txn_id: u16,
}

/// A request's key as contracts speak of it.
pub struct PKeyView {
    pub src_ip: AddressView,
    pub dst_ip: AddressView,
    pub txn_id: u16,
}

impl View for PKey {
    type V = PKeyView;

    open spec fn view(&self) -> PKeyView {
        PKeyView { src_ip: self.src_ip@, dst_ip: self.dst_ip@, txn_id: self.txn_id }
    }
}

fn same_address(a: &IpAddress, b: &IpAddress) -> (r: bool)
    ensures
        r == (a@ == b@),
{
    match (a, b) {
        (IpAddress::V4(x), IpAddress::V4(y)) => {
            if x[0] == y[0] && x[1] == y[1] && x[2] == y[2] && x[3] == y[3] {
                assert(x@ =~= y@);
                true
            } else {
                false
            }
        },
        (IpAddress::V6(x), IpAddress::V6(y)) => same_text(x.as_str(), y.as_str()),
        _ => false,
    }
}

impl Key for PKey {
    fn same(&self, other: &Self) -> (r: bool) {
        same_address(&self.src_ip, &other.src_ip) && same_address(&self.dst_ip, &other.dst_ip)
            && self.txn_id == other.txn_id
    }
}

/// A request that waits for its response.
#[derive(Debug)]
pub struct PReq {
    pub txn_id: u16,
    pub capture_id: String,
    pub envelope: EventEnvelope,
    pub unit_id: u8,
    pub fc: u8,
    pub operation: String,
    pub start_addr: Option<u16>,
    pub qty: Option<u16>,
}

/// A waiting request as contracts speak of it.
pub struct PReqView {
    pub txn_id: u16,
    pub capture_id: Seq<char>,
    pub envelope: EnvelopeView,
    pub unit_id: u8,
    pub fc: u8,
    pub operation: Seq<char>,
    pub start_addr: Option<u16>,
    pub qty: Option<u16>,
}

impl View for PReq {
    type V = PReqView;

    open spec fn view(&self) -> PReqView {
        PReqView {
            txn_id: self.txn_id,
            capture_id: self.capture_id@,
            envelope: self.envelope@,
            unit_id: self.unit_id,
            fc: self.fc,
            operation: self.operation@,
            start_addr: self.start_addr,
            qty: self.qty,
        }
    }
}

/// The waiting requests, the one that has waited longest first.
pub type Waiting = Seq<(PKeyView, PReqView)>;

/// The waiting requests with one more. Where 256 wait already the oldest gives way.
pub open spec fn parked(w: Waiting, key: PKeyView, req: PReqView) -> Waiting {
    collections::put(
        if w.len() >= 256 {
            w.drop_first()
        } else {
            w
        },
        key,
        req,
    )
}

// ---------------------------------------------------------------------------
// Function codes
// ---------------------------------------------------------------------------

/// The name of a known function code.
pub open spec fn name_of(fc: u8) -> Option<Seq<char>> {
    if fc == 0x01 {
        Some("read_coils"@)
    } else if fc == 0x02 {
        Some("read_discrete_inputs"@)
    } else if fc == 0x03 {
        Some("read_holding_registers"@)
    } else if fc == 0x04 {
        Some("read_input_registers"@)
    } else if fc == 0x05 {
        Some("write_single_coil"@)
    } else if fc == 0x06 {
        Some("write_single_register"@)
    } else if fc == 0x0F {
        Some("write_multiple_coils"@)
    } else if fc == 0x10 {
        Some("write_multiple_registers"@)
    } else if fc == 0x16 {
        Some("mask_write_register"@)
    } else if fc == 0x17 {
        Some("read_write_multiple_registers"@)
    } else if fc == 0x2B {
        Some("encapsulated_interface_transport"@)
    } else {
        None
    }
}

/// The operation of a function code.
pub open spec fn operation_of(fc: u8) -> Seq<char> {
    match name_of(fc) {
        Some(n) => n,
        None => "modbus_unknown_fc_"@ + text::dec(fc as nat),
    }
}

/// The operation of a function code.
pub fn fc_name(fc: u8) -> (r: String)
    ensures
        r@ == operation_of(fc),
{
    match fc {
        0x01 => "read_coils".to_owned(),
        0x02 => "read_discrete_inputs".to_owned(),
        0x03 => "read_holding_registers".to_owned(),
        0x04 => "read_input_registers".to_owned(),
        0x05 => "write_single_coil".to_owned(),
        0x06 => "write_single_register".to_owned(),
        0x0F => "write_multiple_coils".to_owned(),
        0x10 => "write_multiple_registers".to_owned(),
        0x16 => "mask_write_register".to_owned(),
        0x17 => "read_write_multiple_registers".to_owned(),
        0x2B => "encapsulated_interface_transport".to_owned(),
        _ => cat("modbus_unknown_fc_", dec_text(fc).as_str()),
    }
}

/// Whether a function code is one of the known ones.
pub fn is_known_fc(fc: u8) -> (r: bool)
    ensures
        r == (name_of(fc) is Some),
{
    matches!(
        fc,
        0x01 | 0x02 | 0x03 | 0x04 | 0x05 | 0x06 | 0x0F | 0x10 | 0x16 | 0x17 | 0x2B
    )
}

/// Start address and quantity of a request, from its function code on.
pub open spec fn addr_qty(fc: u8, pdu: Seq<u8>) -> (Option<u16>, Option<u16>) {
    if (fc == 0x01 || fc == 0x02 || fc == 0x03 || fc == 0x04 || fc == 0x0F || fc == 0x10 || fc
        == 0x17) && pdu.len() >= 5 {
        (Some(bytes::be16(pdu, 1)), Some(bytes::be16(pdu, 3)))
    } else if (fc == 0x05 || fc == 0x06) && pdu.len() >= 5 {
        (Some(bytes::be16(pdu, 1)), None)
    } else if fc == 0x16 && pdu.len() >= 3 {
        (Some(bytes::be16(pdu, 1)), None)
    } else {
        (None, None)
    }
}

/// Start address and quantity of a request, from its function code on.
pub fn req_addr_qty(fc: u8, pdu: &[u8]) -> (r: (Option<u16>, Option<u16>))
    ensures
        r == addr_qty(fc, pdu@),
{
    match fc {
        0x01 | 0x02 | 0x03 | 0x04 | 0x0F | 0x10 | 0x17 => if pdu.len() >= 5 {
            (Some(get_be16(pdu, 1)), Some(get_be16(pdu, 3)))
        } else {
            (None, None)
        },
        0x05 | 0x06 => if pdu.len() >= 5 {
            (Some(get_be16(pdu, 1)), None)
        } else {
            (None, None)
        },
        0x16 => if pdu.len() >= 3 {
            (Some(get_be16(pdu, 1)), None)
        } else {
            (None, None)
        },
        _ => (None, None),
    }
}

/// The register values of a response, from its function code on: none where the byte count
/// is odd or promises more than there is.
pub open spec fn values_of(fc: u8, pdu: Seq<u8>) -> Seq<u16> {
    if (fc == 0x03 || fc == 0x04 || fc == 0x17) && pdu.len() >= 2 && pdu.len() >= 2 + pdu[1]
        && pdu[1] % 2 == 0 {
        Seq::new((pdu[1] / 2) as nat, |i: int| bytes::be16(pdu, 2 + 2 * i))
    } else {
        Seq::empty()
    }
}

/// The register values of a response, from its function code on.
pub fn resp_values(fc: u8, pdu: &[u8]) -> (r: Vec<u16>)
    ensures
        r@ == values_of(fc, pdu@),
{
    let mut values: Vec<u16> = Vec::new();
    if (fc == 0x03 || fc == 0x04 || fc == 0x17) && pdu.len() >= 2 {
        let byte_count = pdu[1] as usize;
        if pdu.len() - 2 >= byte_count && byte_count % 2 == 0 {
            let n: usize = byte_count / 2;
            let mut i: usize = 0;
            while i < n
                invariant
                    i <= n <= 127,
                    2 + 2 * n <= pdu.len(),
                    values@ == Seq::new(i as nat, |j: int| bytes::be16(pdu@, 2 + 2 * j)),
                decreases n - i,
            {
                values.push(get_be16(pdu, 2 + 2 * i));
                assert(values@ =~= Seq::new((i + 1) as nat, |j: int| bytes::be16(pdu@, 2 + 2 * j)));
                i = i + 1;
            }
        }
    }
    assert(values@ =~= values_of(fc, pdu@));
    values
}

// ---------------------------------------------------------------------------
// Events
// ---------------------------------------------------------------------------

/// The envelope of a chunk.
pub open spec fn env(c: ChunkView) -> EnvelopeView {
    events::chunk_env(c, TransportProtocol::Udp, "modbus_udp"@)
}

/// The envelope of a chunk.
pub fn udp_env(chunk: &StreamChunk<'_>) -> (r: EventEnvelope)
    ensures
        r@ == env(chunk@),
{
    chunk_envelope(chunk, TransportProtocol::Udp, "modbus_udp")
}

/// The envelope of a request with the traffic of its response counted in.
pub fn merge(req: &EventEnvelope, resp: &EventEnvelope) -> (r: EventEnvelope)
    ensures
        r@ == req@.merged(resp@.bytes_count),
{
    req.merge(resp.bytes_count)
}

/// An anomaly in a datagram.
pub open spec fn anomaly_of(c: ChunkView, severity: Seq<char>, reason: Seq<char>) -> EventView {
    events::anomaly_view(c.capture_id, env(c), "modbus_udp"@, severity, reason, c.payload)
}

/// An anomaly in a datagram.
pub fn anomaly(chunk: &StreamChunk<'_>, severity: &str, reason: &str) -> (r: BronzeEvent)
    ensures
        r@ == anomaly_of(chunk@, severity@, reason@),
{
    parse_anomaly_event(
        chunk.capture_id,
        udp_env(chunk),
        "modbus_udp",
        severity,
        reason,
        chunk.payload,
    )
}

/// A transaction.
pub open spec fn tx_of(
    capture_id: Seq<char>,
    envelope: EnvelopeView,
    operation: Seq<char>,
    status: Seq<char>,
    unit_id: u8,
    txn_id: u16,
    fc: u8,
    start_addr: Option<u16>,
    qty: Option<u16>,
    values: Seq<u16>,
    exception_code: Option<u8>,
    direction: Seq<char>,
) -> EventView {
    events::tx_view(
        capture_id,
        envelope,
        TransactionView {
            modbus: Some(
                ModbusFieldsView {
                    fc: fc & 0x7F,
                    start_addr,
                    qty,
                    values,
                    exception_code,
                    direction,
                },
            ),
            ..events::plain_tx(
                operation,
                status,
                None,
                Map::empty().insert("unit_id"@, text::dec(unit_id as nat)).insert(
                    "transaction_id"@,
                    text::dec(txn_id as nat),
                ).insert("function_code"@, text::hex0x(fc as nat, 2)).insert(
                    "transport"@,
                    "udp"@,
                ),
            )
        },
    )
}

/// A transaction.
pub fn tx_event(
    capture_id: &str,
    envelope: EventEnvelope,
    operation: String,
    status: String,
    unit_id: u8,
    txn_id: u16,
    fc: u8,
    start_addr: Option<u16>,
    qty: Option<u16>,
    values: Vec<u16>,
    exception_code: Option<u8>,
    direction: &str,
) -> (r: BronzeEvent)
    ensures
        r@ == tx_of(
            capture_id@,
            envelope@,
            operation@,
            status@,
            unit_id,
            txn_id,
            fc,
            start_addr,
            qty,
            values@,
            exception_code,
            direction@,
        ),
{
    let mut attrs = Attributes::new();
    attrs.put_dec("unit_id", unit_id);
    attrs.put_dec("transaction_id", txn_id);
    attrs.put_hex("function_code", fc, 2);
    attrs.put("transport", "udp");
    transaction_event(
        capture_id,
        envelope,
        ProtocolTransaction {
            operation,
            status,
            request_summary: None,
            response_summary: None,
            object_refs: no_texts(),
            values: no_values(),
            attributes: attrs,
            modbus: Some(
                ModbusBronzeFields {
                    fc: fc & 0x7F,
                    start_addr,
                    qty,
                    values,
                    exception_code,
                    direction: direction.to_owned(),
                },
            ),
            protocol_fields: None,
        },
    )
}

/// The kind of the registers that a function code reads.
pub open spec fn register_kind(fc: u8) -> Option<ModbusRegKind> {
    if fc == 0x03 || fc == 0x17 {
        Some(ModbusRegKind::HoldingRegister)
    } else if fc == 0x04 {
        Some(ModbusRegKind::InputRegister)
    } else {
        None
    }
}

/// The address of the register at place `i` from `base` on; the last address where there are
/// no more.
pub open spec fn register_addr(base: u16, i: u16) -> u16 {
    if base + i > 0xFFFF {
        0xFFFF
    } else {
        (base + i) as u16
    }
}

/// The reading of one register.
pub open spec fn reading_of(
    kind: ModbusRegKind,
    start_addr: Option<u16>,
    unit_id: u8,
    value: u16,
    i: u16,
    capture_id: Seq<char>,
    envelope: EnvelopeView,
    observed_ts: u64,
) -> EventView {
    EventView {
        capture_id,
        envelope,
        family: FamilyView::ProcessReading(
            ReadingView {
                source_protocol: "modbus_udp"@,
                point_id: PointIdentifier::ModbusRegister {
                    unit_id,
                    addr: register_addr(
                        match start_addr {
                            Some(a) => a,
                            None => 0,
                        },
                        i,
                    ),
                    register_type: kind,
                },
                value: PointValueView::UInt16(value),
                quality: RawQuality::Unstated,
                source_ts: None,
                observed_ts,
            },
        ),
    }
}

/// The readings of a response: one for each value that it reads from registers.
pub open spec fn readings(
    fc: u8,
    start_addr: Option<u16>,
    unit_id: u8,
    values: Seq<u16>,
    capture_id: Seq<char>,
    envelope: EnvelopeView,
    observed_ts: u64,
) -> Seq<EventView> {
    match register_kind(fc) {
        Some(kind) => Seq::new(
            values.len(),
            |i: int|
                reading_of(
                    kind,
                    start_addr,
                    unit_id,
                    values[i],
                    i as u16,
                    capture_id,
                    envelope,
                    observed_ts,
                ),
        ),
        None => Seq::empty(),
    }
}

/// Adds the readings of a response.
pub fn emit_readings(
    fc: u8,
    start_addr: Option<u16>,
    unit_id: u8,
    values: &[u16],
    capture_id: &str,
    envelope: EventEnvelope,
    observed_ts: u64,
    out: &mut Vec<BronzeEvent>,
)
    ensures
        events::events(final(out)@) == events::events(old(out)@) + readings(
            fc,
            start_addr,
            unit_id,
            values@,
            capture_id@,
            envelope@,
            observed_ts,
        ),
{
    let kind = match fc {
        0x03 | 0x17 => ModbusRegKind::HoldingRegister,
        0x04 => ModbusRegKind::InputRegister,
        _ => {
            assert(events::events(out@) =~= events::events(out@) + Seq::<EventView>::empty());
            return;
        },
    };
    let base: u16 = match start_addr {
        Some(a) => a,
        None => 0,
    };
    let mut ev = no_events();
    let ghost all = readings(
        fc,
        start_addr,
        unit_id,
        values@,
        capture_id@,
        envelope@,
        observed_ts,
    );
    let mut i: usize = 0;
    assert(all.take(0) =~= Seq::<EventView>::empty());
    while i < values.len()
        invariant
            i <= values.len(),
            register_kind(fc) == Some(kind),
            base == (match start_addr {
                Some(a) => a,
                None => 0u16,
            }),
            all == readings(
                fc,
                start_addr,
                unit_id,
                values@,
                capture_id@,
                envelope@,
                observed_ts,
            ),
            events::events(ev@) == all.take(i as int),
        decreases values.len() - i,
    {
        let offset: u16 = #[verifier::truncate]
        (i as u16);
        let addr: u16 = if base > 0xFFFF - offset {
            0xFFFF
        } else {
            base + offset
        };
        assert(all[i as int] == reading_of(
            kind,
            start_addr,
            unit_id,
            values@[i as int],
            i as u16,
            capture_id@,
            envelope@,
            observed_ts,
        ));
        assert(all.take(i + 1) =~= all.take(i as int).push(all[i as int]));
        emit(
            &mut ev,
            new_event(
                capture_id,
                envelope.copy(),
                BronzeEventFamily::ProcessReading(
                    ProcessReading {
                        source_protocol: "modbus_udp".to_owned(),
                        point_id: PointIdentifier::ModbusRegister {
                            unit_id,
                            addr,
                            register_type: kind,
                        },
                        value: PointValue::UInt16(values[i]),
                        quality: RawQuality::Unstated,
                        source_ts: None,
                        observed_ts,
                    },
                ),
            ),
        );
        i = i + 1;
    }
    assert(all.take(i as int) =~= all);
    emit_all(out, ev);
}

// ---------------------------------------------------------------------------
// Datagrams
// ---------------------------------------------------------------------------

/// The key of a request in a datagram.
pub open spec fn request_key(c: ChunkView, txn_id: u16) -> PKeyView {
    PKeyView { src_ip: c.context.src_ip, dst_ip: c.context.dst_ip, txn_id }
}

/// The key of the request that a datagram answers.
pub open spec fn answered_key(c: ChunkView, txn_id: u16) -> PKeyView {
    PKeyView { src_ip: c.context.dst_ip, dst_ip: c.context.src_ip, txn_id }
}

/// Whether a datagram goes to a server.
pub open spec fn to_server(c: ChunkView) -> bool {
    c.context.dst_port == 502 && c.context.src_port != 502
}

/// What an exception does to the waiting requests, and the event for it.
pub open spec fn exception_step(w: Waiting, c: ChunkView) -> (Waiting, Seq<EventView>) {
    let p = c.payload;
    let txn_id = bytes::be16(p, 0);
    let code: u8 = if p.len() >= 9 {
        p[8]
    } else {
        0
    };
    let status = "exception_"@ + text::hex0x(code as nat, 2);
    let key = answered_key(c, txn_id);
    match collections::find(w, key) {
        Some(req) => (
            collections::without(w, key),
            Seq::<EventView>::empty().push(
                tx_of(
                    req.capture_id,
                    req.envelope.merged(c.captured_len),
                    req.operation,
                    status,
                    p[6],
                    txn_id,
                    p[7] & 0x7F,
                    req.start_addr,
                    req.qty,
                    Seq::empty(),
                    Some(code),
                    "paired"@,
                ),
            ),
        ),
        None => (
            w,
            Seq::<EventView>::empty().push(
                tx_of(
                    c.capture_id,
                    env(c),
                    operation_of(p[7] & 0x7F),
                    status,
                    p[6],
                    txn_id,
                    p[7] & 0x7F,
                    None,
                    None,
                    Seq::empty(),
                    Some(code),
                    "response"@,
                ),
            ),
        ),
    }
}

/// The request in a datagram.
pub open spec fn request_of(c: ChunkView) -> PReqView {
    let p = c.payload;
    PReqView {
        txn_id: bytes::be16(p, 0),
        capture_id: c.capture_id,
        envelope: env(c),
        unit_id: p[6],
        fc: p[7],
        operation: operation_of(p[7]),
        start_addr: addr_qty(p[7], p.subrange(7, p.len() as int)).0,
        qty: addr_qty(p[7], p.subrange(7, p.len() as int)).1,
    }
}

/// What a response does to the waiting requests, and the events for it: its readings and its
/// transaction.
pub open spec fn response_step(w: Waiting, c: ChunkView) -> (Waiting, Seq<EventView>) {
    let p = c.payload;
    let txn_id = bytes::be16(p, 0);
    let fc = p[7];
    let values = values_of(fc, p.subrange(7, p.len() as int));
    let key = answered_key(c, txn_id);
    match collections::find(w, key) {
        Some(req) => {
            let merged = req.envelope.merged(c.captured_len);
            (
                collections::without(w, key),
                readings(
                    fc,
                    req.start_addr,
                    req.unit_id,
                    values,
                    c.capture_id,
                    merged,
                    c.timestamp.micros(),
                ).push(
                    tx_of(
                        req.capture_id,
                        merged,
                        req.operation,
                        "ok"@,
                        p[6],
                        txn_id,
                        fc,
                        req.start_addr,
                        req.qty,
                        values,
                        None,
                        "paired"@,
                    ),
                ),
            )
        },
        None => (
            w,
            readings(
                fc,
                None,
                p[6],
                values,
                c.capture_id,
                env(c),
                c.timestamp.micros(),
            ).push(
                tx_of(
                    c.capture_id,
                    env(c),
                    operation_of(fc),
                    "response_only"@,
                    p[6],
                    txn_id,
                    fc,
                    None,
                    None,
                    values,
                    None,
                    "response"@,
                ),
            ),
        ),
    }
}

/// What a frame does to the waiting requests, and the events for it besides those on its
/// header.
pub open spec fn frame_step(w: Waiting, c: ChunkView) -> (Waiting, Seq<EventView>) {
    let fc = c.payload[7];
    if fc == 0x5A || fc == 0xDA {
        (w, Seq::empty())
    } else if fc & 0x80 != 0 {
        exception_step(w, c)
    } else {
        let unknown = events::push_if(
            Seq::empty(),
            name_of(fc) is None,
            anomaly_of(
                c,
                "low"@,
                "modbus/udp unknown function code "@ + text::hex0x(fc as nat, 2),
            ),
        );
        if to_server(c) {
            (
                parked(w, request_key(c, bytes::be16(c.payload, 0)), request_of(c)),
                unknown,
            )
        } else {
            (response_step(w, c).0, unknown + response_step(w, c).1)
        }
    }
}

/// What a datagram does to the waiting requests, and the events for it. A length that
/// disagrees with the datagram is an anomaly, but the frame is taken in all the same.
pub open spec fn step(w: Waiting, c: ChunkView) -> (Waiting, Seq<EventView>) {
    let p = c.payload;
    if p.len() < 8 {
        (
            w,
            Seq::<EventView>::empty().push(
                anomaly_of(
                    c,
                    "medium"@,
                    "modbus/udp datagram shorter than minimum MBAP+FC"@,
                ),
            ),
        )
    } else if bytes::be16(p, 2) != 0 {
        (
            w,
            Seq::<EventView>::empty().push(
                anomaly_of(
                    c,
                    "medium"@,
                    "modbus/udp non-zero protocol_id="@ + text::hex0x(
                        bytes::be16(p, 2) as nat,
                        4,
                    ),
                ),
            ),
        )
    } else {
        let length = events::push_if(
            Seq::empty(),
            6 + bytes::be16(p, 4) != p.len(),
            anomaly_of(
                c,
                "medium"@,
                "modbus/udp MBAP length="@ + text::dec(bytes::be16(p, 4) as nat)
                    + " disagrees with datagram length="@ + text::dec((p.len() - 6) as nat),
            ),
        );
        (frame_step(w, c).0, length + frame_step(w, c).1)
    }
}

/// A request that nothing answered.
pub open spec fn unanswered(req: PReqView) -> EventView {
    tx_of(
        req.capture_id,
        req.envelope,
        req.operation,
        "request_only"@,
        req.unit_id,
        req.txn_id,
        req.fc,
        req.start_addr,
        req.qty,
        Seq::empty(),
        None,
        "request"@,
    )
}

/// The requests that nothing answered, the one that has waited longest first.
pub open spec fn flushed(w: Waiting) -> Seq<EventView> {
    Seq::new(w.len(), |i: int| unanswered(w[i].1))
}

/// The Modbus/UDP decoder.
pub struct ModbusUdpDecoder {
    pub pending: KeyedMap<PKey, PReq>,
}

impl View for ModbusUdpDecoder {
    type V = Waiting;

    open spec fn view(&self) -> Waiting {
        self.pending@
    }
}

impl Default for ModbusUdpDecoder {
    fn default() -> (r: Self)
        ensures
            r@ == Waiting::empty(),
    {
        ModbusUdpDecoder { pending: KeyedMap::new() }
    }
}

impl ModbusUdpDecoder {
    /// Lets a request wait.
    pub fn park(&mut self, key: PKey, req: PReq)
        ensures
            final(self)@ == parked(old(self)@, key@, req@),
    {
        if self.pending.len() >= MAX_PENDING {
            self.pending.remove_first();
        }
        self.pending.insert(key, req);
    }

    /// Takes the request with a key out of the waiting ones.
    pub fn pop(&mut self, key: &PKey) -> (r: Option<PReq>)
        ensures
            final(self)@ == collections::without(old(self)@, key@),
            collections::opt_v(r) == collections::find(old(self)@, key@),
    {
        self.pending.remove(key)
    }

    /// The name of the decoder.
    pub fn name(&self) -> (r: &'static str)
        ensures
            r@ == "modbus_udp"@,
    {
        "modbus_udp"
    }

    /// The traffic that the decoder asks for.
    pub fn interest(&self) -> (r: &'static [DecoderInterest])
        ensures
            r@ == seq![DecoderInterest::UdpPort(502)],
    {
        &[DecoderInterest::UdpPort(502)]
    }

    /// Takes in a datagram.
    pub fn on_datagram(&mut self, chunk: &StreamChunk<'_>, out: &mut Vec<BronzeEvent>)
        ensures
            final(self)@ == step(old(self)@, chunk@).0,
            events::events(final(out)@) == events::events(old(out)@) + step(
                old(self)@,
                chunk@,
            ).1,
    {
        let mut ev = no_events();
        let p = chunk.payload;
        if p.len() < MBAP_LEN + 1 {
            emit(
                &mut ev,
                anomaly(
                    chunk,
                    "medium",
                    "modbus/udp datagram shorter than minimum MBAP+FC",
                ),
            );
        } else {
            let proto_id = get_be16(p, 2);
            if proto_id != 0 {
                let reason = cat(
                    "modbus/udp non-zero protocol_id=",
                    hex0x_text(proto_id, 4).as_str(),
                );
                emit(&mut ev, anomaly(chunk, "medium", reason.as_str()));
            } else {
                let mbap_len = get_be16(p, 4);
                if p.len() - 6 != mbap_len as usize {
                    let reason = cat("modbus/udp MBAP length=", dec_text(mbap_len).as_str());
                    let reason = cat(reason.as_str(), " disagrees with datagram length=");
                    let reason = cat(reason.as_str(), dec_text(p.len() - 6).as_str());
                    emit(&mut ev, anomaly(chunk, "medium", reason.as_str()));
                }
                let mut more = no_events();
                self.on_frame(chunk, &mut more);
                emit_all(&mut ev, more);
            }
        }
        emit_all(out, ev);
    }

    fn on_frame(&mut self, chunk: &StreamChunk<'_>, out: &mut Vec<BronzeEvent>)
        requires
            chunk.payload@.len() >= 8,
        ensures
            final(self)@ == frame_step(old(self)@, chunk@).0,
            events::events(final(out)@) == events::events(old(out)@) + frame_step(
                old(self)@,
                chunk@,
            ).1,
    {
        let mut ev = no_events();
        let p = chunk.payload;
        let fc = p[7];
        if fc == FC_UMAS || fc == 0xDA {
            emit_all(out, ev);
            return;
        }
        if fc & 0x80 != 0 {
            self.on_exception(chunk, out);
            return;
        }
        if !is_known_fc(fc) {
            let reason = cat(
                "modbus/udp unknown function code ",
                hex0x_text(fc, 2).as_str(),
            );
            emit(&mut ev, anomaly(chunk, "low", reason.as_str()));
        }
        if chunk.context.dst_port == 502 && chunk.context.src_port != 502 {
            let (start_addr, qty) = req_addr_qty(fc, cut(p, MBAP_LEN, p.len()));
            let txn_id = get_be16(p, 0);
            self.park(
                PKey {
                    src_ip: chunk.context.src_ip.copy(),
                    dst_ip: chunk.context.dst_ip.copy(),
                    txn_id,
                },
                PReq {
                    txn_id,
                    capture_id: chunk.capture_id.to_owned(),
                    envelope: udp_env(chunk),
                    unit_id: p[6],
                    fc,
                    operation: fc_name(fc),
                    start_addr,
                    qty,
                },
            );
        } else {
            let mut more = no_events();
            self.on_response(chunk, &mut more);
            emit_all(&mut ev, more);
        }
        emit_all(out, ev);
    }

    fn on_exception(&mut self, chunk: &StreamChunk<'_>, out: &mut Vec<BronzeEvent>)
        requires
            chunk.payload@.len() >= 8,
        ensures
            final(self)@ == exception_step(old(self)@, chunk@).0,
            events::events(final(out)@) == events::events(old(out)@) + exception_step(
                old(self)@,
                chunk@,
            ).1,
    {
        let mut ev = no_events();
        let p = chunk.payload;
        let txn_id = get_be16(p, 0);
        let base_fc = p[7] & 0x7F;
        let code: u8 = if p.len() >= 9 {
            p[8]
        } else {
            0
        };
        let status = cat("exception_", hex0x_text(code, 2).as_str());
        let key = PKey {
            src_ip: chunk.context.dst_ip.copy(),
            dst_ip: chunk.context.src_ip.copy(),
            txn_id,
        };
        let values: Vec<u16> = Vec::new();
        assert(values@ =~= Seq::<u16>::empty());
        proof {
            collections::without_facts(self@, key@);
        }
        match self.pop(&key) {
            Some(req) => {
                emit(
                    &mut ev,
                    tx_event(
                        req.capture_id.as_str(),
                        merge(&req.envelope, &udp_env(chunk)),
                        req.operation,
                        status,
                        p[6],
                        txn_id,
                        base_fc,
                        req.start_addr,
                        req.qty,
                        values,
                        Some(code),
                        "paired",
                    ),
                );
            },
            None => {
                emit(
                    &mut ev,
                    tx_event(
                        chunk.capture_id,
                        udp_env(chunk),
                        fc_name(base_fc),
                        status,
                        p[6],
                        txn_id,
                        base_fc,
                        None,
                        None,
                        values,
                        Some(code),
                        "response",
                    ),
                );
            },
        }
        emit_all(out, ev);
    }

    fn on_response(&mut self, chunk: &StreamChunk<'_>, out: &mut Vec<BronzeEvent>)
        requires
            chunk.payload@.len() >= 8,
        ensures
            final(self)@ == response_step(old(self)@, chunk@).0,
            events::events(final(out)@) == events::events(old(out)@) + response_step(
                old(self)@,
                chunk@,
            ).1,
    {
        let mut ev = no_events();
        let p = chunk.payload;
        let txn_id = get_be16(p, 0);
        let fc = p[7];
        let values = resp_values(fc, cut(p, MBAP_LEN, p.len()));
        let observed_ts = chunk.timestamp.timestamp_micros();
        let key = PKey {
            src_ip: chunk.context.dst_ip.copy(),
            dst_ip: chunk.context.src_ip.copy(),
            txn_id,
        };
        proof {
            collections::without_facts(self@, key@);
        }
        match self.pop(&key) {
            Some(req) => {
                let merged = merge(&req.envelope, &udp_env(chunk));
                emit_readings(
                    fc,
                    req.start_addr,
                    req.unit_id,
                    values.as_slice(),
                    chunk.capture_id,
                    merged.copy(),
                    observed_ts,
                    &mut ev,
                );
                emit(
                    &mut ev,
                    tx_event(
                        req.capture_id.as_str(),
                        merged,
                        req.operation,
                        "ok".to_owned(),
                        p[6],
                        txn_id,
                        fc,
                        req.start_addr,
                        req.qty,
                        values,
                        None,
                        "paired",
                    ),
                );
            },
            None => {
                emit_readings(
                    fc,
                    None,
                    p[6],
                    values.as_slice(),
                    chunk.capture_id,
                    udp_env(chunk),
                    observed_ts,
                    &mut ev,
                );
                emit(
                    &mut ev,
                    tx_event(
                        chunk.capture_id,
                        udp_env(chunk),
                        fc_name(fc),
                        "response_only".to_owned(),
                        p[6],
                        txn_id,
                        fc,
                        None,
                        None,
                        values,
                        None,
                        "response",
                    ),
                );
            },
        }
        emit_all(out, ev);
    }

    /// Gives up all waiting requests.
    pub fn on_idle_flush(&mut self, _timestamp: Timestamp, out: &mut Vec<BronzeEvent>)
        ensures
            final(self)@ == Waiting::empty(),
            events::events(final(out)@) == events::events(old(out)@) + flushed(old(self)@),
    {
        let ghost all = self@;
        let total = self.pending.len();
        let mut given = no_events();
        let mut i: usize = 0;
        assert(all.skip(0) =~= all);
        assert(events::events(given@) =~= flushed(all.take(0)));
        while i < total
            invariant
                i <= total,
                total == all.len(),
                self@ == all.skip(i as int),
                events::events(given@) == flushed(all.take(i as int)),
            decreases total - i,
        {
            proof {
                assert(all.skip(i as int).drop_first() =~= all.skip(i + 1));
                assert(flushed(all.take(i + 1)) =~= flushed(all.take(i as int)).push(
                    unanswered(all[i as int].1),
                ));
            }
            match self.pending.pop_first() {
                Some((_key, req)) => {
                    assert(req@ == all[i as int].1);
                    let values: Vec<u16> = Vec::new();
                    assert(values@ =~= Seq::<u16>::empty());
                    emit(
                        &mut given,
                        tx_event(
                            req.capture_id.as_str(),
                            req.envelope,
                            req.operation,
                            "request_only".to_owned(),
                            req.unit_id,
                            req.txn_id,
                            req.fc,
                            req.start_addr,
                            req.qty,
                            values,
                            None,
                            "request",
                        ),
                    );
                },
                None => {},
            }
            i = i + 1;
        }
        assert(all.skip(i as int) =~= Waiting::empty());
        assert(all.take(i as int) =~= all);
        emit_all(out, given);
    }
}

// ---------------------------------------------------------------------------
// Laws
// ---------------------------------------------------------------------------

/// At most 256 requests wait, and no two of them under one key, whatever datagrams come.
pub proof fn waiting_is_bounded(w: Waiting, c: ChunkView)
    requires
        w.len() <= 256,
        collections::distinct_keys(w),
    ensures
        step(w, c).0.len() <= 256,
        collections::distinct_keys(step(w, c).0),
{
    if c.payload.len() >= 8 {
        let txn_id = bytes::be16(c.payload, 0);
        collections::without_facts(w, answered_key(c, txn_id));
        let v = if w.len() >= 256 {
            w.drop_first()
        } else {
            w
        };
        assert(collections::distinct_keys(v));
        collections::put_facts(v, request_key(c, txn_id), request_of(c));
    }
}

/// Where 256 requests wait, one more under a new key takes the place of the oldest, and of no
/// other.
pub proof fn oldest_gives_way(w: Waiting, key: PKeyView, req: PReqView)
    requires
        w.len() == 256,
        collections::find(w, key) is None,
    ensures
        parked(w, key, req) == w.drop_first().push((key, req)),
{
    let v = w.drop_first();
    collections::find_is_present(w, key);
    collections::find_is_present(v, key);
    if collections::find(v, key) is Some {
        let j = choose|j: int| 0 <= j < v.len() && (#[trigger] v[j]).0 == key;
        assert(w[j + 1].0 == key);
    }
    collections::without_facts(v, key);
}

/// A request and the response to it, which comes back between the same two addresses with its
/// transaction id, are one transaction, at the address that the request asked for. The request
/// does not wait any longer.
pub proof fn request_and_response_are_paired(w: Waiting, a: ChunkView, b: ChunkView)
    requires
        a.payload.len() >= 8,
        b.payload.len() >= 8,
        bytes::be16(a.payload, 2) == 0,
        bytes::be16(b.payload, 2) == 0,
        bytes::be16(a.payload, 0) == bytes::be16(b.payload, 0),
        a.payload[7] & 0x80 == 0,
        a.payload[7] != 0x5A,
        b.payload[7] & 0x80 == 0,
        b.payload[7] != 0x5A,
        to_server(a),
        !to_server(b),
        a.context.src_ip == b.context.dst_ip,
        a.context.dst_ip == b.context.src_ip,
    ensures
        ({
            let s = step(step(w, a).0, b);
            let req = request_of(a);
            &&& s.1.last() == tx_of(
                req.capture_id,
                req.envelope.merged(b.captured_len),
                req.operation,
                "ok"@,
                b.payload[6],
                req.txn_id,
                b.payload[7],
                req.start_addr,
                req.qty,
                values_of(b.payload[7], b.payload.subrange(7, b.payload.len() as int)),
                None,
                "paired"@,
            )
            &&& collections::find(s.0, request_key(a, req.txn_id)) is None
        }),
{
    let txn_id = bytes::be16(a.payload, 0);
    let key = request_key(a, txn_id);
    let v = if w.len() >= 256 {
        w.drop_first()
    } else {
        w
    };
    collections::put_facts(v, key, request_of(a));
    let x = step(w, a).0;
    let fa = a.payload[7];
    let fb = b.payload[7];
    assert(fa & 0x80 == 0 ==> fa != 0xDA) by (bit_vector);
    assert(fb & 0x80 == 0 ==> fb != 0xDA) by (bit_vector);
    assert(x == parked(w, key, request_of(a)));
    assert(key == answered_key(b, txn_id));
    collections::without_facts(x, key);
    collections::find_is_present(collections::without(x, key), key);
}

/// A function code is known exactly when its operation is not named by its number.
pub proof fn known_codes_are_named(fc: u8)
    ensures
        name_of(fc) is Some <==> !text::occurs_at(operation_of(fc), "modbus_unknown_fc_"@, 0),
{
    reveal_strlit("modbus_unknown_fc_");
    reveal_strlit("read_coils");
    reveal_strlit("read_discrete_inputs");
    reveal_strlit("read_holding_registers");
    reveal_strlit("read_input_registers");
    reveal_strlit("write_single_coil");
    reveal_strlit("write_single_register");
    reveal_strlit("write_multiple_coils");
    reveal_strlit("write_multiple_registers");
    reveal_strlit("mask_write_register");
    reveal_strlit("read_write_multiple_registers");
    reveal_strlit("encapsulated_interface_transport");
    let u = "modbus_unknown_fc_"@;
    let op = operation_of(fc);
    if name_of(fc) is Some {
        if text::occurs_at(op, u, 0) {
            assert(op.subrange(0, u.len() as int)[0] == u[0]);
            assert(op.subrange(0, u.len() as int)[1] == u[1]);
        }
    } else {
        assert(op.subrange(0, u.len() as int) =~= u);
    }
}

/// The vendor's own function codes give no transaction and leave the waiting requests as they
/// are.
pub proof fn vendor_codes_are_passed_over(w: Waiting, c: ChunkView)
    requires
        c.payload.len() >= 8,
        c.payload[7] == 0x5A || c.payload[7] == 0xDA,
    ensures
        step(w, c).0 == w,
        events::tx_count(step(w, c).1) == 0,
{
    let e = step(w, c).1;
    reveal_with_fuel(events::tx_count, 3);
    assert(e.len() <= 1);
    assert(e.len() == 1 ==> e.drop_last().len() == 0);
}

/// A datagram: transaction id, protocol id, length, unit, function code and its data.
#[verifier::opaque]
pub open spec fn udp_frame(
    txn: u16,
    protocol: u16,
    length: u16,
    unit: u8,
    fc: u8,
    data: Seq<u8>,
) -> Seq<u8> {
    bytes::be16_bytes(txn) + (bytes::be16_bytes(protocol) + (bytes::be16_bytes(length)
        + (seq![unit] + (seq![fc] + data))))
}

proof fn udp_frame_parts(
    txn: u16,
    protocol: u16,
    length: u16,
    unit: u8,
    fc: u8,
    data: Seq<u8>,
)
    ensures
        ({
            let b = udp_frame(txn, protocol, length, unit, fc, data);
            &&& bytes::be16(b, 0) == txn
            &&& bytes::be16(b, 2) == protocol
            &&& bytes::be16(b, 4) == length
            &&& b[6] == unit
            &&& b[7] == fc
            &&& b.skip(8) == data
            &&& b.len() == 8 + data.len()
        }),
{
    reveal(udp_frame);
    let t5 = data;
    let t4 = seq![fc] + t5;
    let t3 = seq![unit] + t4;
    let t2 = bytes::be16_bytes(length) + t3;
    let t1 = bytes::be16_bytes(protocol) + t2;
    let t0 = bytes::be16_bytes(txn) + t1;
    let b = t0;
    assert(b.skip(0) =~= t0);
    bytes::next_be(b, 0, txn, 0, 0, t1);
    bytes::next_be(b, 2, protocol, 0, 0, t2);
    bytes::next_be(b, 4, length, 0, 0, t3);
    bytes::next_part(b, 6, seq![unit], t4);
    assert(seq![unit][0] == unit);
    bytes::next_part(b, 7, seq![fc], t5);
    assert(seq![fc][0] == fc);
}

proof fn top_bit(fc: u8)
    ensures
        (fc & 0x80 == 0) == (fc < 0x80),
        fc & 0x7F == fc % 0x80,
{
    assert({
        &&& (fc & 0x80 == 0) == (fc < 0x80)
        &&& fc & 0x7F == fc % 0x80
    }) by (bit_vector);
}

/// A request to port 502 waits between its two addresses under its transaction id, with its unit,
/// its function and the address and quantity that it asks for.
pub proof fn request_is_read_back(
    w: Waiting,
    c: ChunkView,
    txn: u16,
    length: u16,
    unit: u8,
    fc: u8,
    start: u16,
    qty: u16,
    more: Seq<u8>,
)
    requires
        c.payload == udp_frame(
            txn,
            0,
            length,
            unit,
            fc,
            bytes::be16_bytes(start) + (bytes::be16_bytes(qty) + more),
        ),
        c.context.dst_port == 502,
        c.context.src_port != 502,
        fc < 0x80,
        fc != 0x5A,
    ensures
        ({
            let s = step(w, c).0;
            let req = s.last().1;
            &&& s.last().0 == (PKeyView {
                src_ip: c.context.src_ip,
                dst_ip: c.context.dst_ip,
                txn_id: txn,
            })
            &&& req.txn_id == txn
            &&& req.unit_id == unit
            &&& req.fc == fc
            &&& req.capture_id == c.capture_id
            &&& req.envelope == env(c)
            &&& fc == 1 || fc == 2 || fc == 3 || fc == 4 || fc == 15 || fc == 16 || fc == 23 ==> (
                req.start_addr,
                req.qty,
            ) == (Some(start), Some(qty))
            &&& fc == 5 || fc == 6 || fc == 22 ==> (req.start_addr, req.qty) == (
                Some(start),
                None::<u16>,
            )
            &&& fc == 0x01 ==> req.operation == "read_coils"@
            &&& fc == 0x02 ==> req.operation == "read_discrete_inputs"@
            &&& fc == 0x03 ==> req.operation == "read_holding_registers"@
            &&& fc == 0x04 ==> req.operation == "read_input_registers"@
            &&& fc == 0x05 ==> req.operation == "write_single_coil"@
            &&& fc == 0x06 ==> req.operation == "write_single_register"@
            &&& fc == 0x0F ==> req.operation == "write_multiple_coils"@
            &&& fc == 0x10 ==> req.operation == "write_multiple_registers"@
            &&& fc == 0x16 ==> req.operation == "mask_write_register"@
            &&& fc == 0x17 ==> req.operation == "read_write_multiple_registers"@
            &&& fc == 0x2B ==> req.operation == "encapsulated_interface_transport"@
            &&& fc != 0x01 && fc != 0x02 && fc != 0x03 && fc != 0x04 && fc != 0x05 && fc != 0x06
                && fc != 0x0F && fc != 0x10 && fc != 0x16 && fc != 0x17 && fc != 0x2B
                ==> req.operation == "modbus_unknown_fc_"@ + text::dec(fc as nat)
        }),
{
    let data = bytes::be16_bytes(start) + (bytes::be16_bytes(qty) + more);
    let p = c.payload;
    udp_frame_parts(txn, 0, length, unit, fc, data);
    bytes::next_be(p, 8, start, 0, 0, bytes::be16_bytes(qty) + more);
    bytes::next_be(p, 10, qty, 0, 0, more);
    let pdu = p.subrange(7, p.len() as int);
    assert(bytes::be16(pdu, 1) == bytes::be16(p, 8));
    assert(bytes::be16(pdu, 3) == bytes::be16(p, 10));
    top_bit(fc);
}

/// A response with registers gives them back as readings, one each and in their order, from the
/// address that was asked for, or from zero where nothing was asked; the transaction comes last
/// and holds the same values.
pub proof fn registers_read_back(
    w: Waiting,
    c: ChunkView,
    txn: u16,
    length: u16,
    unit: u8,
    fc: u8,
    count: u8,
    registers: Seq<u8>,
)
    requires
        c.payload == udp_frame(txn, 0, length, unit, fc, seq![count] + registers),
        registers.len() == count,
        count % 2 == 0,
        fc == 3 || fc == 4 || fc == 23,
        c.context.dst_port != 502,
        6 + length == c.payload.len(),
    ensures
        ({
            let e = step(w, c).1;
            let found = collections::find(
                w,
                PKeyView { src_ip: c.context.dst_ip, dst_ip: c.context.src_ip, txn_id: txn },
            );
            let from: u16 = match found {
                Some(req) => match req.start_addr {
                    Some(a) => a,
                    None => 0,
                },
                None => 0,
            };
            let tx = e.last().family->ProtocolTransaction_0;
            &&& e.len() == count / 2 + 1
            &&& tx.status == (if found is Some {
                "ok"@
            } else {
                "response_only"@
            })
            &&& tx.modbus->Some_0.fc == fc
            &&& tx.modbus->Some_0.direction == (if found is Some {
                "paired"@
            } else {
                "response"@
            })
            &&& tx.modbus->Some_0.values.len() == count / 2
            &&& tx.attributes["unit_id"@] == text::dec(unit as nat)
            &&& tx.attributes["transaction_id"@] == text::dec(txn as nat)
            &&& tx.attributes["function_code"@] == "0x"@ + text::hex(fc as nat, 2)
            &&& tx.attributes["transport"@] == "udp"@
            &&& forall|i: int|
                0 <= i < count / 2 ==> (#[trigger] e[i]).family == FamilyView::ProcessReading(
                    ReadingView {
                        source_protocol: "modbus_udp"@,
                        point_id: PointIdentifier::ModbusRegister {
                            unit_id: match found {
                                Some(req) => req.unit_id,
                                None => unit,
                            },
                            addr: if from + i > 0xFFFF {
                                0xFFFF
                            } else {
                                (from + i) as u16
                            },
                            register_type: if fc == 4 {
                                ModbusRegKind::InputRegister
                            } else {
                                ModbusRegKind::HoldingRegister
                            },
                        },
                        value: PointValueView::UInt16(
                            (0x100 * registers[2 * i] + registers[2 * i + 1]) as u16,
                        ),
                        quality: RawQuality::Unstated,
                        source_ts: None,
                        observed_ts: c.timestamp.micros(),
                    },
                )
        }),
{
    let p = c.payload;
    let data = seq![count] + registers;
    udp_frame_parts(txn, 0, length, unit, fc, data);
    let pdu = p.subrange(7, p.len() as int);
    assert(p.skip(8) == data);
    assert(p[8] == p.skip(8)[0]);
    assert(pdu[1] == count);
    assert(pdu.len() == 2 + count);
    assert forall|i: int| 0 <= i < count / 2 implies #[trigger] bytes::be16(pdu, 2 + 2 * i) == (
    0x100 * registers[2 * i] + registers[2 * i + 1]) as u16 by {
        assert(p.skip(8)[1 + 2 * i] == p[9 + 2 * i]);
        assert(p.skip(8)[2 + 2 * i] == p[10 + 2 * i]);
    }
    top_bit(fc);
    reveal_strlit("unit_id");
    reveal_strlit("transaction_id");
    reveal_strlit("function_code");
    reveal_strlit("transport");
    assert({
        &&& "unit_id"@.len() == 7
        &&& "transaction_id"@.len() == 14
        &&& "function_code"@.len() == 13
        &&& "transport"@.len() == 9
    });
    let v = values_of(fc, pdu);
    assert(v.len() == count / 2);
    let e = step(w, c).1;
    let r = response_step(w, c).1;
    assert(e =~= r);
    assert forall|i: int| 0 <= i < count / 2 implies (#[trigger] e[i]).family is ProcessReading
        && v[i] == bytes::be16(pdu, 2 + 2 * i) by {
        assert(e[i] == r[i]);
    }
}

/// A function code from 0x80 on is an exception to the function without that bit; its code stands
/// behind it.
pub proof fn exceptions_read_back(
    w: Waiting,
    c: ChunkView,
    txn: u16,
    length: u16,
    unit: u8,
    fc: u8,
    code: u8,
    more: Seq<u8>,
)
    requires
        c.payload == udp_frame(txn, 0, length, unit, fc, seq![code] + more),
        fc >= 0x80,
        fc != 0xDA,
        6 + length == c.payload.len(),
    ensures
        ({
            let e = step(w, c).1;
            let tx = e[0].family->ProtocolTransaction_0;
            &&& e.len() == 1
            &&& tx.status == "exception_"@ + text::hex0x(code as nat, 2)
            &&& tx.modbus->Some_0.fc == fc % 0x80
            &&& tx.modbus->Some_0.exception_code == Some(code)
            &&& tx.modbus->Some_0.values.len() == 0
            &&& tx.attributes["unit_id"@] == text::dec(unit as nat)
            &&& tx.attributes["transaction_id"@] == text::dec(txn as nat)
            &&& tx.attributes["function_code"@] == "0x"@ + text::hex((fc % 0x80) as nat, 2)
            &&& match collections::find(
                w,
                PKeyView { src_ip: c.context.dst_ip, dst_ip: c.context.src_ip, txn_id: txn },
            ) {
                Some(req) => tx.operation == req.operation && tx.modbus->Some_0.start_addr
                    == req.start_addr && tx.modbus->Some_0.qty == req.qty
                    && tx.modbus->Some_0.direction == "paired"@,
                None => tx.modbus->Some_0.direction == "response"@
                    && tx.modbus->Some_0.start_addr is None,
            }
        }),
{
    let p = c.payload;
    udp_frame_parts(txn, 0, length, unit, fc, seq![code] + more);
    assert(p[8] == p.skip(8)[0]);
    top_bit(fc);
    top_bit((fc % 0x80) as u8);
    reveal_strlit("unit_id");
    reveal_strlit("transaction_id");
    reveal_strlit("function_code");
    reveal_strlit("transport");
    assert({
        &&& "unit_id"@.len() == 7
        &&& "transaction_id"@.len() == 14
        &&& "function_code"@.len() == 13
        &&& "transport"@.len() == 9
    });
}

} // verus!
