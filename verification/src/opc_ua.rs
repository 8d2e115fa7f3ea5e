//! OPC UA binary on TCP ports 4840 and 12001.
//!
//! The first layer of a message is taken apart elsewhere; this decoder reads the rest of the
//! header from the payload:
//!
//! ```text
//! offset  3  chunk type
//! offset  8  secure channel id (MSG, OPN, CLO) or status code (ERR), u32 little-endian
//! offset 16  sequence number (MSG), u32 little-endian
//! offset 24  body (MSG)
//! ```
//!
//! The body of a MSG goes to a service decoder, whose readings follow the transaction.

use vstd::prelude::*;

use crate::bytes;
use crate::bytes::{cut, get_le32};
use crate::collections;
use crate::collections::Attributes;
use crate::events;
use crate::events::{
    chunk_envelope, emit, emit_all, no_events, no_values, parse_anomaly_event, transaction_event,
    BronzeEvent, Dissection, EnvelopeView, EventEnvelope, EventView, ProtocolFields,
    ProtocolFieldsView, ProtocolTransaction, TransactionView,
};
use crate::naming;
use crate::naming::normalize_operation_name;
use crate::packet::{ChunkView, DecoderInterest, StreamChunk, TransportProtocol};
use crate::text;
use crate::text::{before_text, cat, dec_text, one_text, same_text, starts_with_text};

verus! {

/// The first layer of a message.
#[derive(Debug, Clone)]
pub struct OpcUaFields {
    /// Three letters: `HEL`, `ACK`, `OPN`, `CLO`, `MSG`, `ERR`, `RHE`.
    pub message_type: String,
    /// Zero where the message has none.
    pub request_id: u32,
    pub service_type: String,
}

/// The typed fields of a message.
#[derive(Debug, Clone)]
pub struct OpcUaBronzeFields {
    pub message_type: String,
    pub chunk_type: String,
    pub secure_channel_id: Option<u32>,
    pub request_id: Option<u32>,
    pub sequence_number: Option<u32>,
    pub service_node_id: Option<u32>,
    pub service_name: Option<String>,
    pub status_code: Option<u32>,
    pub is_request: bool,
    pub is_response: bool,
    pub direction: String,
}

/// OPC UA fields as contracts speak of them.
pub struct OpcUaFieldsView {
    pub message_type: Seq<char>,
    pub chunk_type: Seq<char>,
    pub secure_channel_id: Option<u32>,
    pub request_id: Option<u32>,
    pub sequence_number: Option<u32>,
    pub service_node_id: Option<u32>,
    pub service_name: Option<Seq<char>>,
    pub status_code: Option<u32>,
    pub is_request: bool,
    pub is_response: bool,
    pub direction: Seq<char>,
}

impl View for OpcUaBronzeFields {
    type V = OpcUaFieldsView;

    open spec fn view(&self) -> OpcUaFieldsView {
        OpcUaFieldsView {
            message_type: self.message_type@,
            chunk_type: self.chunk_type@,
            secure_channel_id: self.secure_channel_id,
            request_id: self.request_id,
            sequence_number: self.sequence_number,
            service_node_id: self.service_node_id,
            service_name: text::opt_view(self.service_name),
            status_code: self.status_code,
            is_request: self.is_request,
            is_response: self.is_response,
            direction: self.direction@,
        }
    }
}

// ---------------------------------------------------------------------------
// Labels
// ---------------------------------------------------------------------------

/// The operation of a service type.
pub fn opc_ua_operation_name(service_type: &str) -> (r: String)
    ensures
        r@ == naming::normalized(service_type@, "opc_ua_message"@),
{
    normalize_operation_name(service_type, "opc_ua_message")
}

/// A service type without what stands in brackets behind it.
pub fn service_type_to_name(service_type: &str) -> (r: String)
    ensures
        r@ == text::before(service_type@, " ("@),
{
    before_text(service_type, " (")
}

/// The service of a MSG: its type does not tell, only its body does.
pub fn service_name_from_msg_service_type(_service_type: &str) -> (r: Option<String>)
    ensures
        r is None,
{
    None
}

/// Whether a port is one of OPC UA.
pub open spec fn ua_port(port: u16) -> bool {
    port == 4840 || port == 12001
}

/// Whether a message opens, closes or sets up a session.
pub open spec fn is_session(t: Seq<char>) -> bool {
    t == "HEL"@ || t == "ACK"@ || t == "OPN"@ || t == "CLO"@ || t == "RHE"@
}

fn session_message(t: &str) -> (r: bool)
    ensures
        r == is_session(t@),
{
    same_text(t, "HEL") || same_text(t, "ACK") || same_text(t, "OPN") || same_text(t, "CLO")
        || same_text(t, "RHE")
}

/// The service name of a message.
pub open spec fn service_of(f: OpcUaFields) -> Option<Seq<char>> {
    if is_session(f.message_type@) || f.message_type@ == "ERR"@ {
        Some(text::before(f.service_type@, " ("@))
    } else {
        None
    }
}

/// The direction of a message.
pub open spec fn direction_of(c: ChunkView, t: Seq<char>) -> Seq<char> {
    if is_session(t) {
        "session"@
    } else if t == "ERR"@ {
        "error"@
    } else if ua_port(c.context.dst_port) {
        "request"@
    } else {
        "response"@
    }
}

/// The status of a message.
pub open spec fn status_of(c: ChunkView, service_type: Seq<char>) -> Seq<char> {
    if text::occurs_at(service_type, "Error"@, 0) {
        "error"@
    } else if ua_port(c.context.dst_port) {
        "request"@
    } else {
        "response"@
    }
}

/// The number at `i`, where it lies within the bytes and the message has one there.
pub open spec fn number_at(p: Seq<u8>, i: int, there: bool) -> Option<u32> {
    if there && p.len() >= i + 4 {
        Some(bytes::le32(p, i))
    } else {
        None
    }
}

fn read_number(p: &[u8], i: usize, there: bool) -> (r: Option<u32>)
    requires
        i <= 16,
    ensures
        r == number_at(p@, i as int, there),
{
    if there && p.len() >= i + 4 {
        Some(get_le32(p, i))
    } else {
        None
    }
}

/// The secure channel of a message.
pub open spec fn channel_of(p: Seq<u8>, t: Seq<char>) -> Option<u32> {
    number_at(p, 8, t == "MSG"@ || t == "OPN"@ || t == "CLO"@)
}

/// A request id other than zero.
pub open spec fn request_of(request_id: u32) -> Option<u32> {
    if request_id != 0 {
        Some(request_id)
    } else {
        None
    }
}

/// The typed fields of a message.
pub open spec fn typed(c: ChunkView, f: OpcUaFields) -> OpcUaFieldsView {
    let t = f.message_type@;
    let p = c.payload;
    OpcUaFieldsView {
        message_type: t,
        chunk_type: if p.len() > 3 {
            seq![p[3] as char]
        } else {
            "F"@
        },
        secure_channel_id: channel_of(p, t),
        request_id: request_of(f.request_id),
        sequence_number: number_at(p, 16, t == "MSG"@),
        service_node_id: None,
        service_name: service_of(f),
        status_code: number_at(p, 8, t == "ERR"@),
        is_request: ua_port(c.context.dst_port),
        is_response: !ua_port(c.context.dst_port) && ua_port(c.context.src_port),
        direction: direction_of(c, t),
    }
}

// ---------------------------------------------------------------------------
// Events
// ---------------------------------------------------------------------------

/// The envelope of a chunk.
pub open spec fn env(c: ChunkView) -> EnvelopeView {
    events::chunk_env(c, TransportProtocol::Tcp, "opc_ua"@)
}

fn envelope(chunk: &StreamChunk<'_>) -> (r: EventEnvelope)
    ensures
        r@ == env(chunk@),
{
    chunk_envelope(chunk, TransportProtocol::Tcp, "opc_ua")
}

/// The transaction of a message.
pub open spec fn message_seen(c: ChunkView, f: OpcUaFields) -> EventView {
    let m = Map::empty().insert("message_type"@, f.message_type@).insert(
        "service_type"@,
        f.service_type@,
    );
    events::tx_view(
        c.capture_id,
        env(c),
        TransactionView {
            object_refs: if f.request_id == 0 {
                seq!["opcua_message:"@ + f.message_type@]
            } else {
                seq!["opcua_request:"@ + text::dec(f.request_id as nat)]
            },
            protocol_fields: Some(ProtocolFieldsView::OpcUa(typed(c, f))),
            ..events::plain_tx(
                naming::normalized(f.service_type@, "opc_ua_message"@),
                status_of(c, f.service_type@),
                Some(f.message_type@ + " "@ + f.service_type@),
                collections::insert_opt(
                    m,
                    "request_id"@,
                    text::opt_dec(request_of(f.request_id)),
                ),
            )
        },
    )
}

/// What the service decoder is handed of a MSG: its body, secure channel and request, and the
/// time of the packet in microseconds.
#[derive(Debug, Clone)]
pub struct MsgBody<'a> {
    pub body: &'a [u8],
    pub secure_channel_id: u32,
    pub request_id: u32,
    pub now_us: u64,
}

/// A body for the service decoder as contracts speak of it.
pub struct MsgBodyView {
    pub body: Seq<u8>,
    pub secure_channel_id: u32,
    pub request_id: u32,
    pub now_us: u64,
}

impl<'a> View for MsgBody<'a> {
    type V = MsgBodyView;

    open spec fn view(&self) -> MsgBodyView {
        MsgBodyView {
            body: self.body@,
            secure_channel_id: self.secure_channel_id,
            request_id: self.request_id,
            now_us: self.now_us,
        }
    }
}

/// What the service decoder is handed: the body of a MSG with a whole header.
pub open spec fn body_of(c: ChunkView, f: OpcUaFields) -> Option<MsgBodyView> {
    if f.message_type@ == "MSG"@ && c.payload.len() >= 24 {
        Some(
            MsgBodyView {
                body: c.payload.subrange(24, c.payload.len() as int),
                secure_channel_id: bytes::le32(c.payload, 8),
                request_id: f.request_id,
                now_us: c.context.timestamp / 1_000,
            },
        )
    } else {
        None
    }
}

/// What the service decoder is to be handed before a chunk is taken in.
pub fn msg_body<'a>(chunk: &StreamChunk<'a>, fields: &OpcUaFields) -> (r: Option<MsgBody<'a>>)
    ensures
        collections::opt_v(r) == body_of(chunk@, *fields),
{
    if same_text(fields.message_type.as_str(), "MSG") && chunk.payload.len() >= 24 {
        Some(
            MsgBody {
                body: cut(chunk.payload, 24, chunk.payload.len()),
                secure_channel_id: get_le32(chunk.payload, 8),
                request_id: fields.request_id,
                now_us: chunk.context.timestamp / 1_000,
            },
        )
    } else {
        None
    }
}

/// The events of a chunk: the transaction of its message, and what the service decoder made
/// of its body where it has one; an anomaly where it could not be parsed.
pub open spec fn chunk_events(
    c: ChunkView,
    parsed: Dissection<OpcUaFields>,
    service: Seq<EventView>,
) -> Seq<EventView> {
    match parsed {
        Dissection::Foreign => Seq::empty(),
        Dissection::Malformed => Seq::<EventView>::empty().push(
            events::anomaly_view(
                c.capture_id,
                env(c),
                "opc_ua"@,
                "medium"@,
                "failed to parse opc ua payload"@,
                c.payload,
            ),
        ),
        Dissection::Parsed(f) => {
            let t = Seq::<EventView>::empty().push(message_seen(c, f));
            if body_of(c, f) is Some {
                t + service
            } else {
                t
            }
        },
    }
}

/// The OPC UA decoder.
#[derive(Debug, Clone)]
pub struct OpcUaDecoderWrapper {
    /// How many ids were handed out, modulo two to the power of 64.
    pub event_id_counter: u64,
}

impl Default for OpcUaDecoderWrapper {
    fn default() -> (r: Self)
        ensures
            r.event_id_counter == 0,
    {
        OpcUaDecoderWrapper { event_id_counter: 0 }
    }
}

impl OpcUaDecoderWrapper {
    /// The name of the decoder.
    pub fn name(&self) -> (r: &'static str)
        ensures
            r@ == "opc_ua"@,
    {
        "opc_ua"
    }

    /// The traffic that the decoder asks for.
    pub fn interest(&self) -> (r: &'static [DecoderInterest])
        ensures
            r@ == seq![DecoderInterest::TcpPort(4840), DecoderInterest::TcpPort(12001)],
    {
        &[DecoderInterest::TcpPort(4840), DecoderInterest::TcpPort(12001)]
    }

    /// The id of the next event of the service decoder.
    pub fn next_event_id(&mut self) -> (r: String)
        ensures
            final(self).event_id_counter == old(self).event_id_counter.wrapping_add(1),
            r@ == "opcua-"@ + text::dec(final(self).event_id_counter as nat),
    {
        self.event_id_counter = self.event_id_counter.wrapping_add(1);
        cat("opcua-", dec_text(self.event_id_counter).as_str())
    }

    /// Takes in a chunk of a TCP stream, what was made of it, and the events that the service
    /// decoder gave for its `msg_body`. The latter count only where there is such a body.
    pub fn on_stream_chunk(
        &mut self,
        chunk: &StreamChunk<'_>,
        parsed: Dissection<OpcUaFields>,
        service_events: Vec<BronzeEvent>,
        out: &mut Vec<BronzeEvent>,
    )
        ensures
            final(self).event_id_counter == old(self).event_id_counter,
            events::events(final(out)@) == events::events(old(out)@) + chunk_events(
                chunk@,
                parsed,
                events::events(service_events@),
            ),
    {
        let mut ev = no_events();
        match parsed {
            Dissection::Foreign => {},
            Dissection::Malformed => {
                emit(
                    &mut ev,
                    parse_anomaly_event(
                        chunk.capture_id,
                        envelope(chunk),
                        "opc_ua",
                        "medium",
                        "failed to parse opc ua payload",
                        chunk.payload,
                    ),
                );
            },
            Dissection::Parsed(f) => {
                emit(&mut ev, self.message_event(chunk, &f));
                if msg_body(chunk, &f).is_some() {
                    emit_all(&mut ev, service_events);
                }
            },
        }
        emit_all(out, ev);
    }

    fn typed_fields(&self, chunk: &StreamChunk<'_>, f: &OpcUaFields) -> (r: OpcUaBronzeFields)
        ensures
            r@ == typed(chunk@, *f),
    {
        let p = chunk.payload;
        let t = f.message_type.as_str();
        let is_request = chunk.context.dst_port == 4840 || chunk.context.dst_port == 12001;
        let is_response = !is_request && (chunk.context.src_port == 4840 || chunk.context.src_port
            == 12001);
        let mut chunk_type = String::new();
        if p.len() > 3 {
            chunk_type.push(p[3] as char);
            assert(chunk_type@ =~= seq![p@[3] as char]);
        } else {
            chunk_type = "F".to_owned();
        }
        let is_msg = same_text(t, "MSG");
        let is_err = same_text(t, "ERR");
        let in_channel = is_msg || same_text(t, "OPN") || same_text(t, "CLO");
        let of_session = session_message(t);
        proof {
            reveal_strlit("MSG");
            reveal_strlit("HEL");
            reveal_strlit("ACK");
            reveal_strlit("OPN");
            reveal_strlit("CLO");
            reveal_strlit("RHE");
            reveal_strlit("ERR");
            assert("MSG"@[0] != "HEL"@[0]);
            assert("MSG"@[0] != "ACK"@[0]);
            assert("MSG"@[0] != "OPN"@[0]);
            assert("MSG"@[0] != "CLO"@[0]);
            assert("MSG"@[0] != "RHE"@[0]);
            assert("MSG"@[0] != "ERR"@[0]);
        }
        let service_name = if of_session || is_err {
            Some(service_type_to_name(f.service_type.as_str()))
        } else if is_msg {
            service_name_from_msg_service_type(f.service_type.as_str())
        } else {
            None
        };
        let direction = if of_session {
            "session"
        } else if is_err {
            "error"
        } else if is_request {
            "request"
        } else {
            "response"
        };
        OpcUaBronzeFields {
            message_type: t.to_owned(),
            chunk_type,
            secure_channel_id: read_number(p, 8, in_channel),
            request_id: if f.request_id != 0 {
                Some(f.request_id)
            } else {
                None
            },
            sequence_number: read_number(p, 16, is_msg),
            service_node_id: None,
            service_name,
            status_code: read_number(p, 8, is_err),
            is_request,
            is_response,
            direction: direction.to_owned(),
        }
    }

    fn message_event(&self, chunk: &StreamChunk<'_>, f: &OpcUaFields) -> (r: BronzeEvent)
        ensures
            r@ == message_seen(chunk@, *f),
    {
        let t = f.message_type.as_str();
        let service = f.service_type.as_str();
        let fields = self.typed_fields(chunk, f);
        let mut attributes = Attributes::new();
        attributes.put("message_type", t);
        attributes.put("service_type", service);
        attributes.put_some_dec("request_id", fields.request_id);
        let status = if starts_with_text(service, "Error") {
            "error"
        } else if fields.is_request {
            "request"
        } else {
            "response"
        };
        let object_refs = if f.request_id == 0 {
            one_text(cat("opcua_message:", t))
        } else {
            one_text(cat("opcua_request:", dec_text(f.request_id).as_str()))
        };
        transaction_event(
            chunk.capture_id,
            envelope(chunk),
            ProtocolTransaction {
                operation: opc_ua_operation_name(service),
                status: status.to_owned(),
                request_summary: Some(cat(cat(t, " ").as_str(), service)),
                response_summary: None,
                object_refs,
                values: no_values(),
                attributes,
                modbus: None,
                protocol_fields: Some(ProtocolFields::OpcUa(fields)),
            },
        )
    }
}

// ---------------------------------------------------------------------------
// Laws
// ---------------------------------------------------------------------------

/// A message is never both a request and a response; each is told by its ports.
pub proof fn request_and_response_exclude_each_other(c: ChunkView, f: OpcUaFields)
    ensures
        !(typed(c, f).is_request && typed(c, f).is_response),
        typed(c, f).is_request || typed(c, f).is_response <==> ua_port(c.context.dst_port)
            || ua_port(c.context.src_port),
{
}

/// What the service decoder is handed comes from a MSG with a secure channel and a sequence
/// number, and its body is the payload behind the 24 bytes of the header.
pub proof fn a_body_has_a_whole_header(c: ChunkView, f: OpcUaFields)
    requires
        body_of(c, f) is Some,
    ensures
        typed(c, f).secure_channel_id == Some(body_of(c, f)->Some_0.secure_channel_id),
        typed(c, f).sequence_number is Some,
        body_of(c, f)->Some_0.body.len() + 24 == c.payload.len(),
{
}

/// A chunk gives one transaction of its own where a message was parsed, besides those that the
/// service decoder made of its body, one anomaly where it only looked like one, and nothing where
/// it is of another protocol.
pub proof fn a_transaction_or_an_anomaly(
    c: ChunkView,
    parsed: Dissection<OpcUaFields>,
    service: Seq<EventView>,
)
    ensures
        ({
            let e = chunk_events(c, parsed, service);
            match parsed {
                Dissection::Foreign => e.len() == 0,
                Dissection::Malformed => e.len() == 1 && e[0].family is ParseAnomaly,
                Dissection::Parsed(f) => {
                    let inner = if body_of(c, f) is Some {
                        service
                    } else {
                        Seq::empty()
                    };
                    &&& events::tx_count(e) == 1 + events::tx_count(inner)
                    &&& events::anomaly_count(e) == events::anomaly_count(inner)
                },
            }
        }),
{
    if let Dissection::Parsed(f) = parsed {
        let none = Seq::<EventView>::empty();
        events::counts_push_if(none, true, message_seen(c, f));
        events::counts_add(none.push(message_seen(c, f)), service);
    }
}

/// A chunk of a message: the message type, the chunk type, its size, the secure channel, the token, the
/// sequence number and the request id, and the body.
#[verifier::opaque]
pub open spec fn ua_chunk(
    kind: Seq<u8>,
    chunk: u8,
    size: u32,
    channel: u32,
    token: u32,
    sequence: u32,
    request: u32,
    body: Seq<u8>,
) -> Seq<u8> {
    kind + (seq![chunk] + (bytes::le32_bytes(size) + (bytes::le32_bytes(channel)
        + (bytes::le32_bytes(token) + (bytes::le32_bytes(sequence)
        + (bytes::le32_bytes(request) + body))))))
}

proof fn ua_chunk_parts(
    kind: Seq<u8>,
    chunk: u8,
    size: u32,
    channel: u32,
    token: u32,
    sequence: u32,
    request: u32,
    body: Seq<u8>,
)
    requires
        kind.len() == 3,
    ensures
        ({
            let b = ua_chunk(kind, chunk, size, channel, token, sequence, request, body);
            &&& b.subrange(0, 3) == kind
            &&& b[3] == chunk
            &&& bytes::le32(b, 4) == size
            &&& bytes::le32(b, 8) == channel
            &&& bytes::le32(b, 12) == token
            &&& bytes::le32(b, 16) == sequence
            &&& bytes::le32(b, 20) == request
            &&& b.skip(24) == body
            &&& b.len() == 24 + body.len()
        }),
{
    reveal(ua_chunk);
    let t7 = body;
    let t6 = bytes::le32_bytes(request) + t7;
    let t5 = bytes::le32_bytes(sequence) + t6;
    let t4 = bytes::le32_bytes(token) + t5;
    let t3 = bytes::le32_bytes(channel) + t4;
    let t2 = bytes::le32_bytes(size) + t3;
    let t1 = seq![chunk] + t2;
    let t0 = kind + t1;
    let b = t0;
    assert(b.skip(0) =~= t0);
    bytes::next_part(b, 0, kind, t1);
    bytes::next_part(b, 3, seq![chunk], t2);
    assert(seq![chunk][0] == chunk);
    bytes::next_le(b, 4, 0, size, 0, t3);
    bytes::next_le(b, 8, 0, channel, 0, t4);
    bytes::next_le(b, 12, 0, token, 0, t5);
    bytes::next_le(b, 16, 0, sequence, 0, t6);
    bytes::next_le(b, 20, 0, request, 0, t7);
}

/// A chunk of a message is read back: the channel, the sequence number and the body each from its
/// own place. It goes to the service with the time of the packet in microseconds.
pub proof fn chunk_reads_back(
    c: ChunkView,
    f: OpcUaFields,
    service: Seq<EventView>,
    kind: Seq<u8>,
    chunk: u8,
    size: u32,
    channel: u32,
    token: u32,
    sequence: u32,
    request: u32,
    body: Seq<u8>,
)
    requires
        kind.len() == 3,
        c.payload == ua_chunk(kind, chunk, size, channel, token, sequence, request, body),
        f.message_type@ == "MSG"@,
    ensures
        ({
            let e = chunk_events(c, Dissection::Parsed(f), service);
            let tx = e[0].family->ProtocolTransaction_0;
            let t = tx.protocol_fields->Some_0->OpcUa_0;
            &&& t.message_type == "MSG"@
            &&& t.secure_channel_id == Some(channel)
            &&& t.sequence_number == Some(sequence)
            &&& t.status_code is None
            &&& t.service_name is None
            &&& t.request_id == (if f.request_id == 0 {
                None
            } else {
                Some(f.request_id)
            })
            &&& t.direction == (if c.context.dst_port == 4840 || c.context.dst_port == 12001 {
                "request"@
            } else {
                "response"@
            })
            &&& tx.attributes["message_type"@] == "MSG"@
            &&& tx.attributes["service_type"@] == f.service_type@
            &&& f.request_id != 0 ==> tx.attributes["request_id"@] == text::dec(
                f.request_id as nat,
            ) && tx.object_refs == seq!["opcua_request:"@ + text::dec(f.request_id as nat)]
            &&& f.request_id == 0 ==> !tx.attributes.contains_key("request_id"@)
            &&& e == seq![e[0]] + service
            &&& body_of(c, f) == Some(
                MsgBodyView {
                    body,
                    secure_channel_id: channel,
                    request_id: f.request_id,
                    now_us: c.context.timestamp / 1_000,
                },
            )
        }),
{
    ua_chunk_parts(kind, chunk, size, channel, token, sequence, request, body);
    assert(c.payload.subrange(24, c.payload.len() as int) =~= body);
    reveal_strlit("HEL");
    reveal_strlit("ACK");
    reveal_strlit("OPN");
    reveal_strlit("CLO");
    reveal_strlit("RHE");
    reveal_strlit("ERR");
    reveal_strlit("MSG");
    reveal_strlit("message_type");
    reveal_strlit("service_type");
    reveal_strlit("request_id");
    assert({
        &&& "HEL"@.len() == 3
        &&& "ACK"@.len() == 3
        &&& "OPN"@.len() == 3
        &&& "CLO"@.len() == 3
        &&& "RHE"@.len() == 3
        &&& "ERR"@.len() == 3
        &&& "MSG"@.len() == 3
        &&& "message_type"@.len() == 12
        &&& "service_type"@.len() == 12
        &&& "request_id"@.len() == 10
    });
    assert("HEL"@[0] != "ACK"@[0]);
    assert("HEL"@[0] != "OPN"@[0]);
    assert("HEL"@[0] != "CLO"@[0]);
    assert("HEL"@[0] != "RHE"@[0]);
    assert("HEL"@[0] != "ERR"@[0]);
    assert("HEL"@[0] != "MSG"@[0]);
    assert("ACK"@[0] != "OPN"@[0]);
    assert("ACK"@[0] != "CLO"@[0]);
    assert("ACK"@[0] != "RHE"@[0]);
    assert("ACK"@[0] != "ERR"@[0]);
    assert("ACK"@[0] != "MSG"@[0]);
    assert("OPN"@[0] != "CLO"@[0]);
    assert("OPN"@[0] != "RHE"@[0]);
    assert("OPN"@[0] != "ERR"@[0]);
    assert("OPN"@[0] != "MSG"@[0]);
    assert("CLO"@[0] != "RHE"@[0]);
    assert("CLO"@[0] != "ERR"@[0]);
    assert("CLO"@[0] != "MSG"@[0]);
    assert("RHE"@[0] != "ERR"@[0]);
    assert("RHE"@[0] != "MSG"@[0]);
    assert("ERR"@[0] != "MSG"@[0]);
    assert("message_type"@[0] != "service_type"@[0]);
    let e = chunk_events(c, Dissection::Parsed(f), service);
    assert(e =~= seq![e[0]] + service);
}

/// An error gives its status code, and opening and closing messages are of the session, with the
/// channel of those that have one.
pub proof fn other_messages_read_back(
    c: ChunkView,
    f: OpcUaFields,
    kind: Seq<u8>,
    chunk: u8,
    size: u32,
    channel: u32,
    token: u32,
    sequence: u32,
    request: u32,
    body: Seq<u8>,
)
    requires
        kind.len() == 3,
        c.payload == ua_chunk(kind, chunk, size, channel, token, sequence, request, body),
    ensures
        ({
            let t = message_seen(
                c,
                f,
            ).family->ProtocolTransaction_0.protocol_fields->Some_0->OpcUa_0;
            let k = f.message_type@;
            &&& k == "ERR"@ ==> t.status_code == Some(channel) && t.secure_channel_id is None
                && t.direction == "error"@
            &&& k == "OPN"@ || k == "CLO"@ ==> t.secure_channel_id == Some(channel)
                && t.status_code is None && t.direction == "session"@
            &&& k == "HEL"@ || k == "ACK"@ || k == "RHE"@ ==> t.secure_channel_id is None
                && t.status_code is None && t.direction == "session"@
            &&& k == "ERR"@ || k == "OPN"@ || k == "CLO"@ || k == "HEL"@ || k == "ACK"@ || k
                == "RHE"@ ==> t.sequence_number is None && body_of(c, f) is None
        }),
{
    ua_chunk_parts(kind, chunk, size, channel, token, sequence, request, body);
    reveal_strlit("HEL");
    reveal_strlit("ACK");
    reveal_strlit("OPN");
    reveal_strlit("CLO");
    reveal_strlit("RHE");
    reveal_strlit("ERR");
    reveal_strlit("MSG");
    assert({
        &&& "HEL"@.len() == 3
        &&& "ACK"@.len() == 3
        &&& "OPN"@.len() == 3
        &&& "CLO"@.len() == 3
        &&& "RHE"@.len() == 3
        &&& "ERR"@.len() == 3
        &&& "MSG"@.len() == 3
    });
    assert("HEL"@[0] != "ACK"@[0]);
    assert("HEL"@[0] != "OPN"@[0]);
    assert("HEL"@[0] != "CLO"@[0]);
    assert("HEL"@[0] != "RHE"@[0]);
    assert("HEL"@[0] != "ERR"@[0]);
    assert("HEL"@[0] != "MSG"@[0]);
    assert("ACK"@[0] != "OPN"@[0]);
    assert("ACK"@[0] != "CLO"@[0]);
    assert("ACK"@[0] != "RHE"@[0]);
    assert("ACK"@[0] != "ERR"@[0]);
    assert("ACK"@[0] != "MSG"@[0]);
    assert("OPN"@[0] != "CLO"@[0]);
    assert("OPN"@[0] != "RHE"@[0]);
    assert("OPN"@[0] != "ERR"@[0]);
    assert("OPN"@[0] != "MSG"@[0]);
    assert("CLO"@[0] != "RHE"@[0]);
    assert("CLO"@[0] != "ERR"@[0]);
    assert("CLO"@[0] != "MSG"@[0]);
    assert("RHE"@[0] != "ERR"@[0]);
    assert("RHE"@[0] != "MSG"@[0]);
    assert("ERR"@[0] != "MSG"@[0]);
}

} // verus!
