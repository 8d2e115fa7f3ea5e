//! Modbus on TCP port 502.
//!
//! Frames are taken apart elsewhere. A request waits for the response with its transaction id
//! and unit id in the same session; both become one transaction. A response that reads the
//! device identification names the device, and a write keeps the request's payload.

use vstd::prelude::*;

use crate::bytes::copy_bytes;
use crate::collections;
use crate::collections::{Attributes, KeyedMap};
use crate::events;
use crate::events::{
    artifact_event, asset_event, asset_observation, chunk_envelope, emit, emit_all, no_events,
    parse_anomaly_event, transaction_event, BronzeEvent, EnvelopeView, EventEnvelope, EventView,
    ModbusBronzeFields, ModbusFieldsView, ObjectValue, ObjectValueView, ProtocolTransaction,
    TransactionView,
};
use crate::packet::{ChunkView, DecoderInterest, StreamChunk, Timestamp, TransportProtocol};
use crate::text;
use crate::text::{cat, dec_text, join_texts, no_texts, opt_as_str, push_text};

verus! {

// ---------------------------------------------------------------------------
// Frames
// ---------------------------------------------------------------------------

/// The parts of a request or response.
#[derive(Debug, Clone)]
pub struct ModbusPdu {
    pub function_code: u8,
    pub start_addr: Option<u16>,
    pub qty: Option<u16>,
    pub values: Vec<u16>,
}

/// A PDU as contracts speak of it.
pub struct PduView {
    pub function_code: u8,
    pub start_addr: Option<u16>,
    pub qty: Option<u16>,
    pub values: Seq<u16>,
}

impl View for ModbusPdu {
    type V = PduView;

    open spec fn view(&self) -> PduView {
        PduView {
            function_code: self.function_code,
            start_addr: self.start_addr,
            qty: self.qty,
            values: self.values@,
        }
    }
}

/// A parsed frame.
#[derive(Debug, Clone)]
pub struct ModbusFields {
    pub transaction_id: u16,
    pub unit_id: u8,
    pub function_code: u8,
    pub is_exception: bool,
    pub exception_code: u8,
    /// Addresses and values.
    pub registers: Vec<(u16, u16)>,
    pub device_identification: Attributes,
    pub pdu: Option<ModbusPdu>,
}

/// A request that waits for its response.
#[derive(Debug, Clone)]
pub struct PendingModbus {
    pub capture_id: String,
    pub envelope: EventEnvelope,
    pub operation: String,
    pub request_summary: String,
    pub object_refs: Vec<String>,
    pub values: Vec<ObjectValue>,
    pub attributes: Attributes,
    pub raw_payload: Vec<u8>,
    pub last_seen: Timestamp,
    pub request_pdu: Option<ModbusPdu>,
}

/// A waiting request as contracts speak of it.
pub struct PendingView {
    pub capture_id: Seq<char>,
    pub envelope: EnvelopeView,
    pub operation: Seq<char>,
    pub request_summary: Seq<char>,
    pub object_refs: Seq<Seq<char>>,
    pub values: Seq<ObjectValueView>,
    pub attributes: Map<Seq<char>, Seq<char>>,
    pub raw_payload: Seq<u8>,
    pub last_seen: Timestamp,
    pub request_pdu: Option<PduView>,
}

impl View for PendingModbus {
    type V = PendingView;

    open spec fn view(&self) -> PendingView {
        PendingView {
            capture_id: self.capture_id@,
            envelope: self.envelope@,
            operation: self.operation@,
            request_summary: self.request_summary@,
            object_refs: text::texts(self.object_refs@),
            values: events::object_values(self.values@),
            attributes: self.attributes@,
            raw_payload: self.raw_payload@,
            last_seen: self.last_seen,
            request_pdu: collections::opt_v(self.request_pdu),
        }
    }
}

/// The waiting requests, in the order of their arrival.
pub type Waiting = Seq<(Seq<char>, PendingView)>;

// ---------------------------------------------------------------------------
// Typed fields
// ---------------------------------------------------------------------------

/// The view of an optional PDU.
pub open spec fn opt_pdu(p: Option<&ModbusPdu>) -> Option<PduView> {
    match p {
        Some(x) => Some(x@),
        None => None,
    }
}

/// The typed fields of a request and a response. Address and quantity are the request's; the
/// values are the response's where it has any, else the request's. There are none where
/// neither PDU is there.
pub open spec fn typed(
    req: Option<PduView>,
    resp: Option<PduView>,
    is_exception: bool,
    exception_code: u8,
) -> Option<ModbusFieldsView> {
    if req is None && resp is None {
        None
    } else {
        Some(
            ModbusFieldsView {
                fc: match req {
                    Some(p) => p.function_code,
                    None => resp->Some_0.function_code,
                },
                start_addr: match req {
                    Some(p) => p.start_addr,
                    None => None,
                },
                qty: match req {
                    Some(p) => p.qty,
                    None => None,
                },
                values: if resp is Some && resp->Some_0.values.len() > 0 {
                    resp->Some_0.values
                } else {
                    match req {
                        Some(p) => p.values,
                        None => Seq::empty(),
                    }
                },
                exception_code: if is_exception {
                    Some(exception_code)
                } else {
                    None
                },
                direction: if req is Some && resp is Some {
                    "paired"@
                } else if req is Some {
                    "request"@
                } else {
                    "response"@
                },
            },
        )
    }
}

/// The typed fields of a request and a response.
pub fn modbus_bronze_fields(
    request_pdu: Option<&ModbusPdu>,
    response_pdu: Option<&ModbusPdu>,
    is_exception: bool,
    exception_code: u8,
) -> (r: Option<ModbusBronzeFields>)
    ensures
        collections::opt_v(r) == typed(
            opt_pdu(request_pdu),
            opt_pdu(response_pdu),
            is_exception,
            exception_code,
        ),
{
    let fc: u8 = match request_pdu {
        Some(p) => p.function_code,
        None => match response_pdu {
            Some(p) => p.function_code,
            None => {
                return None;
            },
        },
    };
    let mut start_addr: Option<u16> = None;
    let mut qty: Option<u16> = None;
    let mut values: Vec<u16> = Vec::new();
    if let Some(p) = request_pdu {
        start_addr = p.start_addr;
        qty = p.qty;
        values = vstd::slice::slice_to_vec(p.values.as_slice());
    }
    if let Some(p) = response_pdu {
        if p.values.len() > 0 {
            values = vstd::slice::slice_to_vec(p.values.as_slice());
        }
    }
    let direction = if request_pdu.is_some() && response_pdu.is_some() {
        "paired"
    } else if request_pdu.is_some() {
        "request"
    } else {
        "response"
    };
    Some(
        ModbusBronzeFields {
            fc,
            start_addr,
            qty,
            values,
            exception_code: if is_exception {
                Some(exception_code)
            } else {
                None
            },
            direction: direction.to_owned(),
        },
    )
}

// ---------------------------------------------------------------------------
// Labels
// ---------------------------------------------------------------------------

/// The name of a function code.
pub open spec fn function_of(code: u8) -> Seq<char> {
    if code == 1 {
        "read_coils"@
    } else if code == 3 {
        "read_holding_registers"@
    } else if code == 5 {
        "write_single_coil"@
    } else if code == 6 {
        "write_single_register"@
    } else if code == 15 {
        "write_multiple_coils"@
    } else if code == 16 {
        "write_multiple_registers"@
    } else if code == 43 {
        "read_device_identification"@
    } else {
        "modbus_function"@
    }
}

/// The name of a function code.
pub fn modbus_function_name(code: u8) -> (r: &'static str)
    ensures
        r@ == function_of(code),
{
    match code {
        1 => "read_coils",
        3 => "read_holding_registers",
        5 => "write_single_coil",
        6 => "write_single_register",
        15 => "write_multiple_coils",
        16 => "write_multiple_registers",
        43 => "read_device_identification",
        _ => "modbus_function",
    }
}

/// Whether a function code writes.
pub open spec fn writes(code: u8) -> bool {
    code == 5 || code == 6 || code == 15 || code == 16
}

/// Whether a function code writes.
pub fn is_modbus_write(code: u8) -> (r: bool)
    ensures
        r == writes(code),
{
    matches!(code, 5 | 6 | 15 | 16)
}

/// Whether a frame carries a device identification.
pub open spec fn identifies(f: ModbusFields) -> bool {
    f.device_identification@ != Map::<Seq<char>, Seq<char>>::empty()
}

/// The reference to a register.
pub open spec fn register_ref(address: u16) -> Seq<char> {
    "register:"@ + text::dec(address as nat)
}

/// The object references of a frame: its registers, and the device identification.
pub open spec fn refs_of(f: ModbusFields) -> Seq<Seq<char>> {
    let refs = Seq::new(f.registers@.len(), |i: int| register_ref(f.registers@[i].0));
    if identifies(f) {
        refs.push("modbus_device_identification"@)
    } else {
        refs
    }
}

/// The object references of a frame.
pub fn modbus_object_refs(fields: &ModbusFields) -> (r: Vec<String>)
    ensures
        text::texts(r@) == refs_of(*fields),
{
    let mut refs = no_texts();
    let mut i: usize = 0;
    while i < fields.registers.len()
        invariant
            i <= fields.registers.len(),
            text::texts(refs@) == Seq::new(
                i as nat,
                |j: int| register_ref(fields.registers@[j].0),
            ),
        decreases fields.registers.len() - i,
    {
        let ghost before = text::texts(refs@);
        push_text(&mut refs, cat("register:", dec_text(fields.registers[i].0).as_str()));
        assert(text::texts(refs@) =~= Seq::new(
            (i + 1) as nat,
            |j: int| register_ref(fields.registers@[j].0),
        ));
        i = i + 1;
    }
    if !fields.device_identification.is_empty() {
        push_text(&mut refs, "modbus_device_identification".to_owned());
    }
    refs
}

/// The object values of a frame: those of its registers.
pub open spec fn values_of(f: ModbusFields) -> Seq<ObjectValueView> {
    Seq::new(
        f.registers@.len(),
        |i: int|
            ObjectValueView {
                object_ref: register_ref(f.registers@[i].0),
                value: Some(text::dec(f.registers@[i].1 as nat)),
            },
    )
}

/// The object values of a frame.
pub fn modbus_values(fields: &ModbusFields) -> (r: Vec<ObjectValue>)
    ensures
        events::object_values(r@) == values_of(*fields),
{
    let mut values: Vec<ObjectValue> = Vec::new();
    let mut i: usize = 0;
    while i < fields.registers.len()
        invariant
            i <= fields.registers.len(),
            values@.len() == i,
            forall|j: int|
                0 <= j < i ==> (#[trigger] values@[j])@ == (ObjectValueView {
                    object_ref: register_ref(fields.registers@[j].0),
                    value: Some(text::dec(fields.registers@[j].1 as nat)),
                }),
        decreases fields.registers.len() - i,
    {
        values.push(
            ObjectValue {
                object_ref: cat("register:", dec_text(fields.registers[i].0).as_str()),
                value: Some(dec_text(fields.registers[i].1)),
            },
        );
        i = i + 1;
    }
    assert(events::object_values(values@) =~= values_of(*fields));
    values
}

/// The attributes of a frame.
pub open spec fn attrs_of(f: ModbusFields) -> Map<Seq<char>, Seq<char>> {
    Map::empty().insert("unit_id"@, text::dec(f.unit_id as nat)).insert(
        "transaction_id"@,
        text::dec(f.transaction_id as nat),
    ).insert("function_code"@, text::dec(f.function_code as nat)).union_prefer_right(
        collections::prefixed(f.device_identification@, "device_id_"@),
    )
}

/// The attributes of a frame.
pub fn modbus_attributes(fields: &ModbusFields) -> (r: Attributes)
    ensures
        r@ == attrs_of(*fields),
{
    let mut m = Attributes::new();
    m.put_dec("unit_id", fields.unit_id);
    m.put_dec("transaction_id", fields.transaction_id);
    m.put_dec("function_code", fields.function_code);
    m.extend_prefixed("device_id_", &fields.device_identification);
    m
}

/// The model in a device identification: its model name, product name or product code.
pub open spec fn model_of(id: Map<Seq<char>, Seq<char>>) -> Option<Seq<char>> {
    if id.contains_key("model_name"@) {
        Some(id["model_name"@])
    } else if id.contains_key("product_name"@) {
        Some(id["product_name"@])
    } else {
        collections::lookup(id, "product_code"@)
    }
}

fn model_name(id: &Attributes) -> (r: Option<String>)
    ensures
        text::opt_view(r) == model_of(id@),
{
    if id.contains_key("model_name") {
        id.get_copy("model_name")
    } else if id.contains_key("product_name") {
        id.get_copy("product_name")
    } else {
        id.get_copy("product_code")
    }
}

/// A register and its value.
pub open spec fn register_text(r: (u16, u16)) -> Seq<char> {
    text::dec(r.0 as nat) + "="@ + text::dec(r.1 as nat)
}

/// The summary of a frame: its exception, the model that it identifies, or its function with
/// the registers.
pub open spec fn summary_of(f: ModbusFields) -> Seq<char> {
    if f.is_exception {
        function_of(f.function_code) + " exception "@ + text::dec(f.exception_code as nat)
    } else if f.function_code == 43 && identifies(f) {
        match model_of(f.device_identification@) {
            Some(m) => m,
            None => "device_identification"@,
        }
    } else if f.registers@.len() == 0 {
        function_of(f.function_code)
    } else {
        function_of(f.function_code) + " "@ + text::joined(
            Seq::new(f.registers@.len(), |i: int| register_text(f.registers@[i])),
            ", "@,
        )
    }
}

/// The summary of a frame.
pub fn modbus_summary(fields: &ModbusFields) -> (r: String)
    ensures
        r@ == summary_of(*fields),
{
    let name = modbus_function_name(fields.function_code);
    if fields.is_exception {
        return cat(cat(name, " exception ").as_str(), dec_text(fields.exception_code).as_str());
    }
    if fields.function_code == 43 && !fields.device_identification.is_empty() {
        return match model_name(&fields.device_identification) {
            Some(m) => m,
            None => "device_identification".to_owned(),
        };
    }
    if fields.registers.len() == 0 {
        return name.to_owned();
    }
    let mut parts = no_texts();
    let mut i: usize = 0;
    while i < fields.registers.len()
        invariant
            i <= fields.registers.len(),
            text::texts(parts@) == Seq::new(
                i as nat,
                |j: int| register_text(fields.registers@[j]),
            ),
        decreases fields.registers.len() - i,
    {
        let (address, value) = fields.registers[i];
        let part = cat(
            cat(dec_text(address).as_str(), "=").as_str(),
            dec_text(value).as_str(),
        );
        push_text(&mut parts, part);
        assert(text::texts(parts@) =~= Seq::new(
            (i + 1) as nat,
            |j: int| register_text(fields.registers@[j]),
        ));
        i = i + 1;
    }
    cat(cat(name, " ").as_str(), join_texts(&parts, ", ").as_str())
}

/// The device behind a device identification.
pub open spec fn device_seen(
    capture_id: Seq<char>,
    envelope: EnvelopeView,
    ip: Seq<char>,
    unit_id: u8,
    id: Map<Seq<char>, Seq<char>>,
) -> EventView {
    events::asset_event_view(
        capture_id,
        envelope,
        events::asset_view(
            ip,
            Some("server"@),
            collections::lookup(id, "vendor_name"@),
            model_of(id),
            collections::lookup(id, "revision"@),
            "modbus"@,
            Map::empty().insert("ip"@, ip).insert(
                "unit_id"@,
                text::dec(unit_id as nat),
            ).union_prefer_right(collections::prefixed(id, "modbus_"@)),
        ),
    )
}

/// The device behind a device identification.
pub fn modbus_identity_observation(
    capture_id: &str,
    envelope: EventEnvelope,
    asset_ip: String,
    unit_id: u8,
    device_identification: &Attributes,
) -> (r: BronzeEvent)
    ensures
        r@ == device_seen(capture_id@, envelope@, asset_ip@, unit_id, device_identification@),
{
    let mut identifiers = Attributes::new();
    identifiers.put("ip", asset_ip.as_str());
    identifiers.put_dec("unit_id", unit_id);
    identifiers.extend_prefixed("modbus_", device_identification);
    let vendor = device_identification.get_copy("vendor_name");
    asset_event(
        capture_id,
        envelope,
        asset_observation(
            asset_ip,
            Some("server"),
            opt_as_str(&vendor),
            model_name(device_identification),
            device_identification.get_copy("revision"),
            "modbus",
            identifiers,
        ),
    )
}

// ---------------------------------------------------------------------------
// Pairing
// ---------------------------------------------------------------------------

/// The envelope of a chunk.
pub open spec fn env(c: ChunkView) -> EnvelopeView {
    events::chunk_env(c, TransportProtocol::Tcp, "modbus"@)
}

fn envelope(chunk: &StreamChunk<'_>) -> (r: EventEnvelope)
    ensures
        r@ == env(chunk@),
{
    chunk_envelope(chunk, TransportProtocol::Tcp, "modbus")
}

/// Whether a chunk goes to a server.
pub open spec fn to_server(c: ChunkView) -> bool {
    c.context.dst_port == 502 && c.context.src_port != 502
}

/// The key under which a request waits.
pub open spec fn key_of(session_key: Seq<char>, transaction_id: u16, unit_id: u8) -> Seq<char> {
    session_key + ":"@ + text::dec(transaction_id as nat) + ":"@ + text::dec(unit_id as nat)
}

fn pending_key(session_key: &str, transaction_id: u16, unit_id: u8) -> (r: String)
    ensures
        r@ == key_of(session_key@, transaction_id, unit_id),
{
    let s = cat(cat(session_key, ":").as_str(), dec_text(transaction_id).as_str());
    cat(cat(s.as_str(), ":").as_str(), dec_text(unit_id).as_str())
}

/// A request as it waits.
pub open spec fn waiting_request(c: ChunkView, f: ModbusFields) -> PendingView {
    PendingView {
        capture_id: c.capture_id,
        envelope: env(c),
        operation: function_of(f.function_code),
        request_summary: summary_of(f),
        object_refs: refs_of(f),
        values: values_of(f),
        attributes: attrs_of(f),
        raw_payload: c.payload,
        last_seen: c.timestamp,
        request_pdu: collections::opt_v(f.pdu),
    }
}

/// The transaction of a request and its response.
pub open spec fn answered(p: PendingView, c: ChunkView, f: ModbusFields) -> EventView {
    events::tx_view(
        p.capture_id,
        p.envelope.merged(c.captured_len),
        TransactionView {
            response_summary: Some(summary_of(f)),
            object_refs: p.object_refs,
            values: p.values + values_of(f),
            modbus: typed(
                p.request_pdu,
                collections::opt_v(f.pdu),
                f.is_exception,
                f.exception_code,
            ),
            ..events::plain_tx(
                p.operation,
                if f.is_exception {
                    "exception:"@ + text::dec(f.exception_code as nat)
                } else {
                    "ok"@
                },
                Some(p.request_summary),
                p.attributes.union_prefer_right(attrs_of(f)),
            )
        },
    )
}

/// The events of a response to a waiting request: the transaction, the device that it
/// identifies, and the request's payload where the function writes.
pub open spec fn answered_events(p: PendingView, c: ChunkView, f: ModbusFields) -> Seq<EventView> {
    let t = Seq::<EventView>::empty().push(answered(p, c, f));
    let d = events::push_if(
        t,
        identifies(f),
        device_seen(
            p.capture_id,
            p.envelope.merged(c.captured_len),
            c.context.src_ip.text(),
            f.unit_id,
            f.device_identification@,
        ),
    );
    events::push_if(
        d,
        writes(f.function_code),
        events::artifact_view(
            p.capture_id,
            p.envelope.merged(c.captured_len),
            "modbus_write_payload"@,
            key_of(c.session_key, f.transaction_id, f.unit_id),
            Some("application/octet-stream"@),
            Some("Modbus write request payload"@),
            p.raw_payload,
        ),
    )
}

/// The events of a response that no request waits for.
pub open spec fn lone_response_events(c: ChunkView, f: ModbusFields) -> Seq<EventView> {
    events::push_if(
        Seq::<EventView>::empty().push(
            events::tx_view(
                c.capture_id,
                env(c),
                TransactionView {
                    response_summary: Some(summary_of(f)),
                    object_refs: refs_of(f),
                    values: values_of(f),
                    modbus: typed(
                        None,
                        collections::opt_v(f.pdu),
                        f.is_exception,
                        f.exception_code,
                    ),
                    ..events::plain_tx(
                        function_of(f.function_code),
                        "response_without_request"@,
                        None,
                        attrs_of(f),
                    )
                },
            ),
        ),
        identifies(f),
        device_seen(
            c.capture_id,
            env(c),
            c.context.src_ip.text(),
            f.unit_id,
            f.device_identification@,
        ),
    )
}

/// What a chunk does to the waiting requests, and the events for it.
pub open spec fn step(w: Waiting, c: ChunkView, fields: Option<ModbusFields>) -> (Waiting, Seq<
    EventView,
>) {
    match fields {
        None => (
            w,
            Seq::<EventView>::empty().push(
                events::anomaly_view(
                    c.capture_id,
                    env(c),
                    "modbus"@,
                    "medium"@,
                    "failed to parse modbus payload"@,
                    c.payload,
                ),
            ),
        ),
        Some(f) => {
            let key = key_of(c.session_key, f.transaction_id, f.unit_id);
            if to_server(c) {
                (collections::put(w, key, waiting_request(c, f)), Seq::empty())
            } else {
                match collections::find(w, key) {
                    Some(p) => (collections::without(w, key), answered_events(p, c, f)),
                    None => (w, lone_response_events(c, f)),
                }
            }
        },
    }
}

/// A request that nothing answered.
pub open spec fn partial_request(p: PendingView) -> EventView {
    events::tx_view(
        p.capture_id,
        p.envelope,
        TransactionView {
            object_refs: p.object_refs,
            values: p.values,
            modbus: typed(p.request_pdu, None, false, 0),
            ..events::plain_tx(
                p.operation,
                "partial_request"@,
                Some(p.request_summary),
                p.attributes,
            )
        },
    )
}

/// The requests that are still waited for at `now`.
pub open spec fn waiting(w: Waiting, now: Timestamp) -> Waiting
    decreases w.len(),
{
    if w.len() == 0 {
        Seq::empty()
    } else if now.reached_spec(w.last().1.last_seen) {
        waiting(w.drop_last(), now)
    } else {
        waiting(w.drop_last(), now).push(w.last())
    }
}

/// The events for the requests that are no longer waited for at `now`, in order of arrival.
pub open spec fn given_up(w: Waiting, now: Timestamp) -> Seq<EventView>
    decreases w.len(),
{
    if w.len() == 0 {
        Seq::empty()
    } else if now.reached_spec(w.last().1.last_seen) {
        given_up(w.drop_last(), now).push(partial_request(w.last().1))
    } else {
        given_up(w.drop_last(), now)
    }
}

fn opt_ref(p: &Option<ModbusPdu>) -> (r: Option<&ModbusPdu>)
    ensures
        opt_pdu(r) == collections::opt_v(*p),
{
    match p {
        Some(x) => Some(x),
        None => None,
    }
}

/// The Modbus decoder.
pub struct ModbusDecoder {
    pub pending: KeyedMap<String, PendingModbus>,
}

impl View for ModbusDecoder {
    type V = Waiting;

    open spec fn view(&self) -> Waiting {
        self.pending@
    }
}

impl Default for ModbusDecoder {
    fn default() -> (r: Self)
        ensures
            r@ == Waiting::empty(),
    {
        ModbusDecoder { pending: KeyedMap::new() }
    }
}

impl ModbusDecoder {
    /// The name of the decoder.
    pub fn name(&self) -> (r: &'static str)
        ensures
            r@ == "modbus"@,
    {
        "modbus"
    }

    /// The traffic that the decoder asks for.
    pub fn interest(&self) -> (r: &'static [DecoderInterest])
        ensures
            r@ == seq![DecoderInterest::TcpPort(502)],
    {
        &[DecoderInterest::TcpPort(502)]
    }

    /// Takes in a chunk of a TCP stream and what was parsed from it.
    pub fn on_stream_chunk(
        &mut self,
        chunk: &StreamChunk<'_>,
        fields: Option<ModbusFields>,
        out: &mut Vec<BronzeEvent>,
    )
        ensures
            final(self)@ == step(old(self)@, chunk@, fields).0,
            events::events(final(out)@) == events::events(old(out)@) + step(
                old(self)@,
                chunk@,
                fields,
            ).1,
    {
        let mut ev = no_events();
        match fields {
            None => {
                emit(
                    &mut ev,
                    parse_anomaly_event(
                        chunk.capture_id,
                        envelope(chunk),
                        "modbus",
                        "medium",
                        "failed to parse modbus payload",
                        chunk.payload,
                    ),
                );
            },
            Some(f) => {
                let key = pending_key(chunk.session_key.as_str(), f.transaction_id, f.unit_id);
                if chunk.context.dst_port == 502 && chunk.context.src_port != 502 {
                    let pending = PendingModbus {
                        capture_id: chunk.capture_id.to_owned(),
                        envelope: envelope(chunk),
                        operation: modbus_function_name(f.function_code).to_owned(),
                        request_summary: modbus_summary(&f),
                        object_refs: modbus_object_refs(&f),
                        values: modbus_values(&f),
                        attributes: modbus_attributes(&f),
                        raw_payload: copy_bytes(chunk.payload),
                        last_seen: chunk.timestamp,
                        request_pdu: f.pdu,
                    };
                    self.pending.insert(key, pending);
                } else {
                    proof {
                        collections::without_facts(self.pending@, key@);
                    }
                    match self.pending.remove(&key) {
                        Some(pending) => {
                            self.emit_answered(chunk, &f, pending, &mut ev);
                        },
                        None => {
                            self.emit_lone_response(chunk, &f, &mut ev);
                        },
                    }
                }
            },
        }
        emit_all(out, ev);
    }

    fn emit_answered(
        &self,
        chunk: &StreamChunk<'_>,
        f: &ModbusFields,
        pending: PendingModbus,
        out: &mut Vec<BronzeEvent>,
    )
        ensures
            events::events(final(out)@) == events::events(old(out)@) + answered_events(
                pending@,
                chunk@,
                *f,
            ),
    {
        let mut ev = no_events();
        let merged = pending.envelope.merge(chunk.captured_len);
        let mut values = pending.values;
        let mut more = modbus_values(f);
        let ghost given = values@;
        let ghost added = more@;
        values.append(&mut more);
        assert(events::object_values(values@) =~= events::object_values(given)
            + events::object_values(added));
        let mut attributes = pending.attributes;
        attributes.extend(&modbus_attributes(f));
        let status = if f.is_exception {
            cat("exception:", dec_text(f.exception_code).as_str())
        } else {
            "ok".to_owned()
        };
        emit(
            &mut ev,
            transaction_event(
                pending.capture_id.as_str(),
                merged.copy(),
                ProtocolTransaction {
                    operation: pending.operation,
                    status,
                    request_summary: Some(pending.request_summary),
                    response_summary: Some(modbus_summary(f)),
                    object_refs: pending.object_refs,
                    values,
                    attributes,
                    modbus: modbus_bronze_fields(
                        opt_ref(&pending.request_pdu),
                        opt_ref(&f.pdu),
                        f.is_exception,
                        f.exception_code,
                    ),
                    protocol_fields: None,
                },
            ),
        );
        if !f.device_identification.is_empty() {
            emit(
                &mut ev,
                modbus_identity_observation(
                    pending.capture_id.as_str(),
                    merged.copy(),
                    chunk.context.src_ip.text(),
                    f.unit_id,
                    &f.device_identification,
                ),
            );
        }
        if is_modbus_write(f.function_code) {
            let key = pending_key(chunk.session_key.as_str(), f.transaction_id, f.unit_id);
            emit(
                &mut ev,
                artifact_event(
                    pending.capture_id.as_str(),
                    merged,
                    "modbus_write_payload",
                    key.as_str(),
                    Some("application/octet-stream"),
                    Some("Modbus write request payload"),
                    pending.raw_payload.as_slice(),
                ),
            );
        }
        emit_all(out, ev);
    }

    fn emit_lone_response(
        &self,
        chunk: &StreamChunk<'_>,
        f: &ModbusFields,
        out: &mut Vec<BronzeEvent>,
    )
        ensures
            events::events(final(out)@) == events::events(old(out)@) + lone_response_events(
                chunk@,
                *f,
            ),
    {
        let mut ev = no_events();
        emit(
            &mut ev,
            transaction_event(
                chunk.capture_id,
                envelope(chunk),
                ProtocolTransaction {
                    operation: modbus_function_name(f.function_code).to_owned(),
                    status: "response_without_request".to_owned(),
                    request_summary: None,
                    response_summary: Some(modbus_summary(f)),
                    object_refs: modbus_object_refs(f),
                    values: modbus_values(f),
                    attributes: modbus_attributes(f),
                    modbus: modbus_bronze_fields(
                        None,
                        opt_ref(&f.pdu),
                        f.is_exception,
                        f.exception_code,
                    ),
                    protocol_fields: None,
                },
            ),
        );
        if !f.device_identification.is_empty() {
            emit(
                &mut ev,
                modbus_identity_observation(
                    chunk.capture_id,
                    envelope(chunk),
                    chunk.context.src_ip.text(),
                    f.unit_id,
                    &f.device_identification,
                ),
            );
        }
        emit_all(out, ev);
    }

    /// Gives up the requests that were seen less than a second after `timestamp` or before.
    pub fn on_idle_flush(&mut self, timestamp: Timestamp, out: &mut Vec<BronzeEvent>)
        ensures
            final(self)@ == waiting(old(self)@, timestamp),
            events::events(final(out)@) == events::events(old(out)@) + given_up(
                old(self)@,
                timestamp,
            ),
    {
        let ghost all = self@;
        let total = self.pending.len();
        let mut kept: KeyedMap<String, PendingModbus> = KeyedMap::new();
        let mut given = no_events();
        let mut i: usize = 0;
        assert(all.skip(0) =~= all);
        while i < total
            invariant
                i <= total,
                total == all.len(),
                self@ == all.skip(i as int),
                kept@ == waiting(all.take(i as int), timestamp),
                events::events(given@) == given_up(all.take(i as int), timestamp),
            decreases total - i,
        {
            proof {
                assert(all.skip(i as int)[0] == all[i as int]);
                assert(all.skip(i as int).drop_first() =~= all.skip(i + 1));
                assert(all.take(i + 1).drop_last() =~= all.take(i as int));
                assert(all.take(i + 1).last() == all[i as int]);
            }
            match self.pending.pop_first() {
                Some((key, pending)) => {
                    if timestamp.reached(&pending.last_seen) {
                        let modbus = modbus_bronze_fields(
                            opt_ref(&pending.request_pdu),
                            None,
                            false,
                            0,
                        );
                        emit(
                            &mut given,
                            transaction_event(
                                pending.capture_id.as_str(),
                                pending.envelope,
                                ProtocolTransaction {
                                    operation: pending.operation,
                                    status: "partial_request".to_owned(),
                                    request_summary: Some(pending.request_summary),
                                    response_summary: None,
                                    object_refs: pending.object_refs,
                                    values: pending.values,
                                    attributes: pending.attributes,
                                    modbus,
                                    protocol_fields: None,
                                },
                            ),
                        );
                    } else {
                        kept.append(key, pending);
                    }
                },
                None => {},
            }
            i = i + 1;
        }
        assert(all.take(i as int) =~= all);
        self.pending = kept;
        emit_all(out, given);
    }
}

// ---------------------------------------------------------------------------
// Laws
// ---------------------------------------------------------------------------

/// Requests wait under one key exactly when session, transaction id and unit id agree.
pub proof fn pairing_stays_in_session(
    a: Seq<char>,
    t: u16,
    u: u8,
    b: Seq<char>,
    v: u16,
    x: u8,
)
    ensures
        key_of(a, t, u) == key_of(b, v, x) <==> a == b && t == v && u == x,
{
    text::numbered_is_injective(
        a + ":"@ + text::dec(t as nat),
        u as nat,
        b + ":"@ + text::dec(v as nat),
        x as nat,
    );
    text::numbered_is_injective(a, t as nat, b, v as nat);
}

/// A request gives no event until its response; then both are one transaction with the
/// request's operation, references and address, and the request does not wait any longer.
pub proof fn request_and_response_are_one_transaction(
    w: Waiting,
    a: ChunkView,
    f: ModbusFields,
    b: ChunkView,
    g: ModbusFields,
)
    requires
        to_server(a),
        !to_server(b),
        a.session_key == b.session_key,
        f.transaction_id == g.transaction_id,
        f.unit_id == g.unit_id,
    ensures
        ({
            let s = step(w, a, Some(f));
            let t = step(s.0, b, Some(g));
            &&& s.1.len() == 0
            &&& t.1 == answered_events(waiting_request(a, f), b, g)
            &&& events::tx_count(t.1) == 1
            &&& collections::find(t.0, key_of(a.session_key, f.transaction_id, f.unit_id)) is None
        }),
{
    let key = key_of(a.session_key, f.transaction_id, f.unit_id);
    collections::put_facts(w, key, waiting_request(a, f));
    let v = step(w, a, Some(f)).0;
    collections::without_facts(v, key);
    collections::find_is_present(collections::without(v, key), key);
    let ev = step(v, b, Some(g)).1;
    reveal_with_fuel(events::tx_count, 4);
    assert(ev.len() >= 1 ==> ev.drop_last().len() == ev.len() - 1);
    assert(ev.len() >= 2 ==> ev.drop_last().last() == ev[ev.len() - 2]);
    assert(ev.len() >= 2 ==> ev.drop_last().drop_last().len() == ev.len() - 2);
    assert(ev.len() >= 3 ==> ev.drop_last().drop_last().last() == ev[0]);
}

/// At an idle flush every waiting request is either reported or kept, by its age, and never both.
pub proof fn flush_reports_or_keeps(w: Waiting, now: Timestamp)
    ensures
        waiting(w, now).len() + given_up(w, now).len() == w.len(),
        forall|i: int|
            0 <= i < w.len() ==> if now.reached_spec((#[trigger] w[i]).1.last_seen) {
                given_up(w, now).contains(partial_request(w[i].1))
            } else {
                waiting(w, now).contains(w[i])
            },
        forall|i: int|
            0 <= i < waiting(w, now).len() ==> !now.reached_spec(
                (#[trigger] waiting(w, now)[i]).1.last_seen,
            ),
    decreases w.len(),
{
    if w.len() > 0 {
        let p = w.drop_last();
        flush_reports_or_keeps(p, now);
        assert forall|i: int| 0 <= i < w.len() implies (if now.reached_spec(
            (#[trigger] w[i]).1.last_seen,
        ) {
            given_up(w, now).contains(partial_request(w[i].1))
        } else {
            waiting(w, now).contains(w[i])
        }) by {
            if i < p.len() {
                assert(p[i] == w[i]);
                if now.reached_spec(w[i].1.last_seen) {
                    let k = choose|k: int|
                        0 <= k < given_up(p, now).len() && given_up(p, now)[k] == partial_request(p[i].1);
                    assert(given_up(w, now)[k] == partial_request(w[i].1));
                } else {
                    let k = choose|k: int|
                        0 <= k < waiting(p, now).len() && waiting(p, now)[k] == p[i];
                    assert(waiting(w, now)[k] == w[i]);
                }
            } else if now.reached_spec(w[i].1.last_seen) {
                assert(given_up(w, now).last() == partial_request(w[i].1));
            } else {
                assert(waiting(w, now).last() == w[i]);
            }
        }
    }
}

/// A write that is answered leaves the payload of its request as an artifact: function codes 5,
/// 6, 15 and 16 do, and no other.
pub proof fn write_payload_is_kept(
    w: Waiting,
    a: ChunkView,
    f: ModbusFields,
    b: ChunkView,
    g: ModbusFields,
)
    requires
        a.context.dst_port == 502 && a.context.src_port != 502,
        !(b.context.dst_port == 502 && b.context.src_port != 502),
        a.session_key == b.session_key,
        f.transaction_id == g.transaction_id,
        f.unit_id == g.unit_id,
    ensures
        ({
            let e = step(step(w, a, Some(f)).0, b, Some(g)).1;
            let n = g.function_code;
            &&& n == 5 || n == 6 || n == 15 || n == 16 ==> e.last().family
                == events::FamilyView::ExtractedArtifact(
                events::ArtifactView {
                    artifact_type: "modbus_write_payload"@,
                    artifact_key: a.session_key + ":"@ + text::dec(f.transaction_id as nat) + ":"@
                        + text::dec(f.unit_id as nat),
                    mime_type: Some("application/octet-stream"@),
                    description: Some("Modbus write request payload"@),
                    content: a.payload,
                },
            )
            &&& forall|i: int|
                0 <= i < e.len() && (#[trigger] e[i]).family is ExtractedArtifact ==> i == e.len()
                    - 1 && (n == 5 || n == 6 || n == 15 || n == 16)
        }),
{
    request_and_response_are_one_transaction(w, a, f, b, g);
}

/// The transaction of a request and its response: the function of the request names the operation,
/// the response says how it ended, both summaries are given, and the values of the request come
/// before those of the response.
pub proof fn answered_transaction_is_of_both(
    w: Waiting,
    a: ChunkView,
    f: ModbusFields,
    b: ChunkView,
    g: ModbusFields,
)
    requires
        a.context.dst_port == 502 && a.context.src_port != 502,
        !(b.context.dst_port == 502 && b.context.src_port != 502),
        a.session_key == b.session_key,
        f.transaction_id == g.transaction_id,
        f.unit_id == g.unit_id,
    ensures
        ({
            let e = step(step(w, a, Some(f)).0, b, Some(g)).1[0];
            let tx = e.family->ProtocolTransaction_0;
            let n = f.registers@.len();
            &&& e.capture_id == a.capture_id
            &&& e.envelope == (EnvelopeView {
                bytes_count: a.captured_len.wrapping_add(b.captured_len),
                packet_count: 2,
                ..env(a)
            })
            &&& tx.status == (if g.is_exception {
                "exception:"@ + text::dec(g.exception_code as nat)
            } else {
                "ok"@
            })
            &&& tx.request_summary == Some(summary_of(f))
            &&& tx.response_summary == Some(summary_of(g))
            &&& tx.values.len() == n + g.registers@.len()
            &&& forall|i: int|
                0 <= i < n ==> (#[trigger] tx.values[i]) == (ObjectValueView {
                    object_ref: "register:"@ + text::dec(f.registers@[i].0 as nat),
                    value: Some(text::dec(f.registers@[i].1 as nat)),
                })
            &&& forall|i: int|
                n <= i < tx.values.len() ==> (#[trigger] tx.values[i]) == (ObjectValueView {
                    object_ref: "register:"@ + text::dec(g.registers@[i - n].0 as nat),
                    value: Some(text::dec(g.registers@[i - n].1 as nat)),
                })
            &&& forall|i: int|
                0 <= i < n ==> (#[trigger] tx.object_refs[i]) == "register:"@ + text::dec(
                    f.registers@[i].0 as nat,
                )
            &&& f.function_code == 1 ==> tx.operation == "read_coils"@
            &&& f.function_code == 3 ==> tx.operation == "read_holding_registers"@
            &&& f.function_code == 5 ==> tx.operation == "write_single_coil"@
            &&& f.function_code == 6 ==> tx.operation == "write_single_register"@
            &&& f.function_code == 15 ==> tx.operation == "write_multiple_coils"@
            &&& f.function_code == 16 ==> tx.operation == "write_multiple_registers"@
            &&& f.function_code == 43 ==> tx.operation == "read_device_identification"@
            &&& f.function_code != 1 && f.function_code != 3 && f.function_code != 5
                && f.function_code != 6 && f.function_code != 15 && f.function_code != 16
                && f.function_code != 43 ==> tx.operation == "modbus_function"@
        }),
{
    request_and_response_are_one_transaction(w, a, f, b, g);
}

proof fn numbers_have_no_prefix()
    ensures
        !collections::prefixed(Map::empty(), "device_id_"@).contains_key("unit_id"@),
        forall|m: Map<Seq<char>, Seq<char>>|
            !(#[trigger] collections::prefixed(m, "device_id_"@)).contains_key("unit_id"@)
                && !collections::prefixed(m, "device_id_"@).contains_key("transaction_id"@)
                && !collections::prefixed(m, "device_id_"@).contains_key("function_code"@),
{
    reveal_strlit("unit_id");
    reveal_strlit("transaction_id");
    reveal_strlit("function_code");
    reveal_strlit("device_id_");
    assert({
        &&& "unit_id"@.len() == 7
        &&& "transaction_id"@.len() == 14
        &&& "function_code"@.len() == 13
        &&& "device_id_"@.len() == 10
    });
    assert("transaction_id"@.take(10)[0] != "device_id_"@[0]);
    assert("function_code"@.take(10)[0] != "device_id_"@[0]);
}

/// The attributes of a transaction give the unit, the transaction id and the function code of the
/// response, or of the request that was given up, and what the device said of itself under a
/// prefix.
pub proof fn attributes_are_of_the_message(
    w: Waiting,
    a: ChunkView,
    f: ModbusFields,
    b: ChunkView,
    g: ModbusFields,
)
    requires
        a.context.dst_port == 502 && a.context.src_port != 502,
        !(b.context.dst_port == 502 && b.context.src_port != 502),
        a.session_key == b.session_key,
        f.transaction_id == g.transaction_id,
        f.unit_id == g.unit_id,
    ensures
        ({
            let m = step(
                step(w, a, Some(f)).0,
                b,
                Some(g),
            ).1[0].family->ProtocolTransaction_0.attributes;
            &&& m["unit_id"@] == text::dec(g.unit_id as nat)
            &&& m["transaction_id"@] == text::dec(g.transaction_id as nat)
            &&& m["function_code"@] == text::dec(g.function_code as nat)
            &&& forall|k: Seq<char>|
                #[trigger] g.device_identification@.contains_key(k) ==> m["device_id_"@ + k]
                    == g.device_identification@[k]
        }),
{
    request_and_response_are_one_transaction(w, a, f, b, g);
    let p = waiting_request(a, f);
    let m = p.attributes.union_prefer_right(attrs_of(g));
    numbers_have_no_prefix();
    reveal_strlit("unit_id");
    reveal_strlit("transaction_id");
    reveal_strlit("function_code");
    assert({
        &&& "unit_id"@.len() == 7
        &&& "transaction_id"@.len() == 14
        &&& "function_code"@.len() == 13
    });
    assert forall|k: Seq<char>| #[trigger] g.device_identification@.contains_key(k) implies m[
        "device_id_"@ + k
    ] == g.device_identification@[k] by {
        let q = "device_id_"@ + k;
        assert(q.take("device_id_"@.len() as int) =~= "device_id_"@);
        assert(q.skip("device_id_"@.len() as int) =~= k);
        assert(collections::prefixed(g.device_identification@, "device_id_"@).contains_key(q));
    }
}

/// The typed fields of an answered request have its function code, address and quantity, the
/// values of the response where it has any, and the exception of the response.
pub proof fn typed_fields_are_of_both(
    w: Waiting,
    a: ChunkView,
    f: ModbusFields,
    b: ChunkView,
    g: ModbusFields,
)
    requires
        a.context.dst_port == 502 && a.context.src_port != 502,
        !(b.context.dst_port == 502 && b.context.src_port != 502),
        a.session_key == b.session_key,
        f.transaction_id == g.transaction_id,
        f.unit_id == g.unit_id,
        f.pdu is Some,
        g.pdu is Some,
    ensures
        ({
            let tx = step(step(w, a, Some(f)).0, b, Some(g)).1[0].family->ProtocolTransaction_0;
            let q = f.pdu->Some_0@;
            let r = g.pdu->Some_0@;
            match tx.modbus {
                Some(m) => {
                    &&& m.fc == q.function_code
                    &&& m.start_addr == q.start_addr
                    &&& m.qty == q.qty
                    &&& m.values == (if r.values.len() > 0 {
                        r.values
                    } else {
                        q.values
                    })
                    &&& m.exception_code == (if g.is_exception {
                        Some(g.exception_code)
                    } else {
                        None
                    })
                    &&& m.direction == "paired"@
                },
                None => false,
            }
        }),
{
    request_and_response_are_one_transaction(w, a, f, b, g);
}

/// A response to nothing is a transaction of its own, which names its function and registers and
/// has no request.
pub proof fn lone_response_stands_alone(w: Waiting, c: ChunkView, f: ModbusFields)
    requires
        !(c.context.dst_port == 502 && c.context.src_port != 502),
        collections::find(
            w,
            c.session_key + ":"@ + text::dec(f.transaction_id as nat) + ":"@ + text::dec(
                f.unit_id as nat,
            ),
        ) is None,
    ensures
        ({
            let r = step(w, c, Some(f));
            let e = r.1[0];
            let tx = e.family->ProtocolTransaction_0;
            &&& r.0 == w
            &&& e.capture_id == c.capture_id
            &&& e.envelope == env(c)
            &&& tx.status == "response_without_request"@
            &&& tx.request_summary is None
            &&& tx.response_summary == Some(summary_of(f))
            &&& tx.values.len() == f.registers@.len()
            &&& tx.attributes["unit_id"@] == text::dec(f.unit_id as nat)
            &&& tx.attributes["transaction_id"@] == text::dec(f.transaction_id as nat)
            &&& tx.attributes["function_code"@] == text::dec(f.function_code as nat)
            &&& f.pdu is Some ==> tx.modbus is Some && tx.modbus->Some_0.direction == "response"@
                && tx.modbus->Some_0.fc == f.pdu->Some_0@.function_code
                && tx.modbus->Some_0.values == f.pdu->Some_0@.values
                && tx.modbus->Some_0.start_addr is None && tx.modbus->Some_0.qty is None
            &&& f.function_code == 1 ==> tx.operation == "read_coils"@
            &&& f.function_code == 3 ==> tx.operation == "read_holding_registers"@
            &&& f.function_code == 5 ==> tx.operation == "write_single_coil"@
            &&& f.function_code == 6 ==> tx.operation == "write_single_register"@
            &&& f.function_code == 15 ==> tx.operation == "write_multiple_coils"@
            &&& f.function_code == 16 ==> tx.operation == "write_multiple_registers"@
            &&& f.function_code == 43 ==> tx.operation == "read_device_identification"@
            &&& f.function_code != 1 && f.function_code != 3 && f.function_code != 5
                && f.function_code != 6 && f.function_code != 15 && f.function_code != 16
                && f.function_code != 43 ==> tx.operation == "modbus_function"@
        }),
{
    numbers_have_no_prefix();
    reveal_strlit("unit_id");
    reveal_strlit("transaction_id");
    reveal_strlit("function_code");
    assert({
        &&& "unit_id"@.len() == 7
        &&& "transaction_id"@.len() == 14
        &&& "function_code"@.len() == 13
    });
}

/// A request that gets no response is reported at an idle flush as it stood.
pub proof fn unanswered_request_is_partial(w: Waiting, a: ChunkView, f: ModbusFields)
    requires
        a.context.dst_port == 502 && a.context.src_port != 502,
    ensures
        ({
            let p = step(w, a, Some(f)).0.last().1;
            let e = partial_request(p);
            let tx = e.family->ProtocolTransaction_0;
            &&& e.capture_id == a.capture_id
            &&& e.envelope == env(a)
            &&& tx.status == "partial_request"@
            &&& tx.request_summary == Some(summary_of(f))
            &&& tx.response_summary is None
            &&& tx.attributes["unit_id"@] == text::dec(f.unit_id as nat)
            &&& tx.attributes["transaction_id"@] == text::dec(f.transaction_id as nat)
            &&& tx.attributes["function_code"@] == text::dec(f.function_code as nat)
            &&& tx.values.len() == f.registers@.len()
            &&& p.last_seen == a.timestamp
            &&& f.pdu is Some ==> tx.modbus is Some && tx.modbus->Some_0.direction == "request"@
                && tx.modbus->Some_0.fc == f.pdu->Some_0@.function_code
                && tx.modbus->Some_0.start_addr == f.pdu->Some_0@.start_addr
                && tx.modbus->Some_0.qty == f.pdu->Some_0@.qty && tx.modbus->Some_0.values
                == f.pdu->Some_0@.values && tx.modbus->Some_0.exception_code is None
            &&& f.function_code == 1 ==> tx.operation == "read_coils"@
            &&& f.function_code == 3 ==> tx.operation == "read_holding_registers"@
            &&& f.function_code == 5 ==> tx.operation == "write_single_coil"@
            &&& f.function_code == 6 ==> tx.operation == "write_single_register"@
            &&& f.function_code == 15 ==> tx.operation == "write_multiple_coils"@
            &&& f.function_code == 16 ==> tx.operation == "write_multiple_registers"@
            &&& f.function_code == 43 ==> tx.operation == "read_device_identification"@
            &&& f.function_code != 1 && f.function_code != 3 && f.function_code != 5
                && f.function_code != 6 && f.function_code != 15 && f.function_code != 16
                && f.function_code != 43 ==> tx.operation == "modbus_function"@
        }),
{
    numbers_have_no_prefix();
    reveal_strlit("unit_id");
    reveal_strlit("transaction_id");
    reveal_strlit("function_code");
    assert({
        &&& "unit_id"@.len() == 7
        &&& "transaction_id"@.len() == 14
        &&& "function_code"@.len() == 13
    });
}

/// A device that identifies itself is an asset under the address that the response comes from,
/// with the role of a server and the vendor, model and revision that it gives.
pub proof fn device_is_what_it_says(w: Waiting, c: ChunkView, f: ModbusFields)
    requires
        !(c.context.dst_port == 502 && c.context.src_port != 502),
        f.device_identification@ != Map::<Seq<char>, Seq<char>>::empty(),
    ensures
        ({
            let e = step(w, c, Some(f)).1[1];
            let a = e.family->AssetObservation_0;
            let id = f.device_identification@;
            let ip = c.context.src_ip.text();
            &&& e.family is AssetObservation
            &&& a.asset_key == ip
            &&& a.role == Some("server"@)
            &&& a.protocols == seq!["modbus"@]
            &&& id.contains_key("vendor_name"@) ==> a.vendor == Some(id["vendor_name"@])
            &&& !id.contains_key("vendor_name"@) ==> a.vendor is None
            &&& id.contains_key("revision"@) ==> a.firmware == Some(id["revision"@])
            &&& !id.contains_key("revision"@) ==> a.firmware is None
            &&& id.contains_key("model_name"@) ==> a.model == Some(id["model_name"@])
            &&& !id.contains_key("model_name"@) && id.contains_key("product_name"@) ==> a.model
                == Some(id["product_name"@])
            &&& !id.contains_key("model_name"@) && !id.contains_key("product_name"@)
                && id.contains_key("product_code"@) ==> a.model == Some(id["product_code"@])
            &&& a.identifiers["ip"@] == ip
            &&& a.identifiers["unit_id"@] == text::dec(f.unit_id as nat)
            &&& forall|k: Seq<char>| #[trigger]
                id.contains_key(k) ==> a.identifiers["modbus_"@ + k] == id[k]
        }),
{
    let id = f.device_identification@;
    reveal_strlit("ip");
    reveal_strlit("unit_id");
    reveal_strlit("modbus_");
    assert({
        &&& "ip"@.len() == 2
        &&& "unit_id"@.len() == 7
        &&& "modbus_"@.len() == 7
    });
    assert("unit_id"@[0] != "modbus_"@[0]);
    let s = collections::prefixed(id, "modbus_"@);
    assert("unit_id"@.take(7)[0] != "modbus_"@[0]);
    assert(!s.contains_key("unit_id"@));
    assert(!s.contains_key("ip"@));
    assert forall|k: Seq<char>| #[trigger] id.contains_key(k) implies s.contains_key("modbus_"@ + k)
        && s["modbus_"@ + k] == id[k] by {
        let q = "modbus_"@ + k;
        assert(q.take("modbus_"@.len() as int) =~= "modbus_"@);
        assert(q.skip("modbus_"@.len() as int) =~= k);
    }
}

/// What cannot be parsed is an anomaly of medium severity with the payload, and nothing waits
/// for it.
pub proof fn unreadable_payload_is_an_anomaly(w: Waiting, c: ChunkView)
    ensures
        step(w, c, None) == (
            w,
            seq![
                events::anomaly_view(
                    c.capture_id,
                    env(c),
                    "modbus"@,
                    "medium"@,
                    "failed to parse modbus payload"@,
                    c.payload,
                ),
            ],
        ),
{
    assert(step(w, c, None).1 =~= seq![
        events::anomaly_view(
            c.capture_id,
            env(c),
            "modbus"@,
            "medium"@,
            "failed to parse modbus payload"@,
            c.payload,
        ),
    ]);
}

/// The summary of a message names its function; behind it stand the exception, or the registers
/// with their values in order.
pub proof fn summary_names_the_registers(f: ModbusFields)
    requires
        f.device_identification@ == Map::<Seq<char>, Seq<char>>::empty(),
    ensures
        ({
            let name = function_of(f.function_code);
            &&& f.is_exception ==> summary_of(f) == name + " exception "@ + text::dec(
                f.exception_code as nat,
            )
            &&& !f.is_exception && f.registers@.len() == 0 ==> summary_of(f) == name
            &&& !f.is_exception && f.registers@.len() > 0 ==> summary_of(f) == name + " "@
                + text::joined(
                Seq::new(
                    f.registers@.len(),
                    |i: int|
                        text::dec(f.registers@[i].0 as nat) + "="@ + text::dec(
                            f.registers@[i].1 as nat,
                        ),
                ),
                ", "@,
            )
        }),
{
    if !f.is_exception && f.registers@.len() > 0 {
        assert(Seq::new(f.registers@.len(), |i: int| register_text(f.registers@[i])) =~= Seq::new(
            f.registers@.len(),
            |i: int|
                text::dec(f.registers@[i].0 as nat) + "="@ + text::dec(f.registers@[i].1 as nat),
        ));
    }
}

} // verus!
