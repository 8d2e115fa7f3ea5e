//! GE SRTP (Service Request Transport Protocol) on TCP port 18245, spoken by PACSystems and
//! Series 90 controllers.
//!
//! A frame starts with a header of 56 bytes. What is read of it:
//!
//! ```text
//! offset  2  message type (2 request, 3 response)
//! offset  9  sequence number, u16 little-endian
//! offset 31  service request code
//! offset 42  major status
//! offset 43  minor status
//! ```
//!
//! A request waits for the response with its sequence number in the same session; both
//! become one transaction.

use vstd::prelude::*;

use crate::bytes;
use crate::bytes::{cut, get_le16};
use crate::collections;
use crate::collections::{Attributes, KeyedMap};
use crate::events;
use crate::events::{
    chunk_envelope, emit, emit_all, no_events, no_values, parse_anomaly_event, transaction_event,
    BronzeEvent, EnvelopeView, EventEnvelope, EventView, ProtocolFields, ProtocolFieldsView,
    ProtocolTransaction, TransactionView,
};
use crate::packet::{ChunkView, DecoderInterest, StreamChunk, Timestamp, TransportProtocol};
use crate::text;
use crate::text::{cat, dec_text, hex0x_text, one_text};

verus! {

/// The bytes of a header.
pub const SRTP_HEADER_LEN: usize = 56;

pub const MSG_TYPE_REQUEST: u8 = 0x02;

pub const MSG_TYPE_RESPONSE: u8 = 0x03;

/// What is read of a frame.
#[derive(Debug, Clone, Copy)]
pub struct SrtpFrame {
    pub msg_type: u8,
    pub seq_num: u16,
    pub service_code: u8,
    pub status_code: u8,
    pub minor_status: u8,
}

/// The typed fields of an SRTP exchange.
#[derive(Debug, Clone)]
pub struct GeSrtpBronzeFields {
    pub msg_type: u8,
    pub sequence_number: u16,
    pub service_code: u8,
    pub service_code_name: String,
    pub status_code: u8,
    pub minor_status: u8,
    pub direction: String,
}

/// SRTP fields as contracts speak of them.
pub struct GeSrtpFieldsView {
    pub msg_type: u8,
    pub sequence_number: u16,
    pub service_code: u8,
    pub service_code_name: Seq<char>,
    pub status_code: u8,
    pub minor_status: u8,
    pub direction: Seq<char>,
}

impl View for GeSrtpBronzeFields {
    type V = GeSrtpFieldsView;

    open spec fn view(&self) -> GeSrtpFieldsView {
        GeSrtpFieldsView {
            msg_type: self.msg_type,
            sequence_number: self.sequence_number,
            service_code: self.service_code,
            service_code_name: self.service_code_name@,
            status_code: self.status_code,
            minor_status: self.minor_status,
            direction: self.direction@,
        }
    }
}

/// A request that waits for its response.
#[derive(Debug, Clone)]
pub struct PendingRequest {
    pub capture_id: String,
    pub envelope: EventEnvelope,
    pub frame: SrtpFrame,
}

/// A waiting request as contracts speak of it.
pub struct PendingView {
    pub capture_id: Seq<char>,
    pub envelope: EnvelopeView,
    pub frame: SrtpFrame,
}

impl View for PendingRequest {
    type V = PendingView;

    open spec fn view(&self) -> PendingView {
        PendingView {
            capture_id: self.capture_id@,
            envelope: self.envelope@,
            frame: self.frame,
        }
    }
}

/// The waiting requests, in the order of their arrival.
pub type Waiting = Seq<(Seq<char>, PendingView)>;

// ---------------------------------------------------------------------------
// Frames
// ---------------------------------------------------------------------------

/// What a header says.
pub open spec fn frame_of(b: Seq<u8>) -> SrtpFrame {
    SrtpFrame {
        msg_type: b[2],
        seq_num: bytes::le16(b, 9),
        service_code: b[31],
        status_code: b[42],
        minor_status: b[43],
    }
}

/// What the header says, where there is a whole one.
pub fn parse_srtp_header(buf: &[u8]) -> (r: Option<SrtpFrame>)
    ensures
        r == (if buf@.len() < 56 {
            None::<SrtpFrame>
        } else {
            Some(frame_of(buf@))
        }),
{
    if buf.len() < SRTP_HEADER_LEN {
        return None;
    }
    Some(
        SrtpFrame {
            msg_type: buf[2],
            seq_num: get_le16(buf, 9),
            service_code: buf[31],
            status_code: buf[42],
            minor_status: buf[43],
        },
    )
}

/// Whether a service code is one of the known ones.
pub open spec fn known(code: u8) -> bool {
    code == 0x03 || code == 0x04 || code == 0x06 || code == 0x07 || code == 0x18 || code == 0x1B
        || code == 0x21 || code == 0x4E || code == 0xC0
}

/// Whether a service code is one of the known ones.
pub fn is_known_service_code(code: u8) -> (r: bool)
    ensures
        r == known(code),
{
    matches!(code, 0x03 | 0x04 | 0x06 | 0x07 | 0x18 | 0x1B | 0x21 | 0x4E | 0xC0)
}

/// The name of a service code.
pub open spec fn service_of(code: u8) -> Seq<char> {
    if code == 0x03 {
        "srtp_read_system_memory"@
    } else if code == 0x04 {
        "srtp_write_system_memory"@
    } else if code == 0x06 {
        "srtp_read_task_memory"@
    } else if code == 0x07 {
        "srtp_write_task_memory"@
    } else if code == 0x18 {
        "srtp_read_plc_status"@
    } else if code == 0x1B {
        "srtp_read_plc_time"@
    } else if code == 0x21 {
        "srtp_set_plc_time"@
    } else if code == 0x4E {
        "srtp_programmer_login"@
    } else if code == 0xC0 {
        "srtp_establish_session"@
    } else {
        "srtp_unknown_"@ + text::hex0x(code as nat, 2)
    }
}

/// The name of a service code.
pub fn service_code_name(code: u8) -> (r: String)
    ensures
        r@ == service_of(code),
{
    match code {
        0x03 => "srtp_read_system_memory".to_owned(),
        0x04 => "srtp_write_system_memory".to_owned(),
        0x06 => "srtp_read_task_memory".to_owned(),
        0x07 => "srtp_write_task_memory".to_owned(),
        0x18 => "srtp_read_plc_status".to_owned(),
        0x1B => "srtp_read_plc_time".to_owned(),
        0x21 => "srtp_set_plc_time".to_owned(),
        0x4E => "srtp_programmer_login".to_owned(),
        0xC0 => "srtp_establish_session".to_owned(),
        _ => cat("srtp_unknown_", hex0x_text(code, 2).as_str()),
    }
}

/// The attributes of a frame.
pub open spec fn attrs_of(f: SrtpFrame) -> Map<Seq<char>, Seq<char>> {
    Map::empty().insert("service_code"@, text::hex0x(f.service_code as nat, 2)).insert(
        "sequence_number"@,
        text::dec(f.seq_num as nat),
    ).insert("status_code"@, text::hex0x(f.status_code as nat, 2)).insert(
        "minor_status"@,
        text::hex0x(f.minor_status as nat, 2),
    )
}

/// The attributes of a frame.
pub fn srtp_attributes(frame: &SrtpFrame) -> (r: Attributes)
    ensures
        r@ == attrs_of(*frame),
{
    let mut m = Attributes::new();
    m.put_hex("service_code", frame.service_code, 2);
    m.put_dec("sequence_number", frame.seq_num);
    m.put_hex("status_code", frame.status_code, 2);
    m.put_hex("minor_status", frame.minor_status, 2);
    m
}

/// The typed fields of a request and its response.
pub open spec fn typed(req: SrtpFrame, resp: SrtpFrame, direction: Seq<char>) -> GeSrtpFieldsView {
    GeSrtpFieldsView {
        msg_type: req.msg_type,
        sequence_number: req.seq_num,
        service_code: req.service_code,
        service_code_name: service_of(req.service_code),
        status_code: resp.status_code,
        minor_status: resp.minor_status,
        direction,
    }
}

/// The typed fields of a request and its response.
pub fn srtp_bronze_fields(req: &SrtpFrame, resp: &SrtpFrame, direction: &str) -> (r:
    GeSrtpBronzeFields)
    ensures
        r@ == typed(*req, *resp, direction@),
{
    GeSrtpBronzeFields {
        msg_type: req.msg_type,
        sequence_number: req.seq_num,
        service_code: req.service_code,
        service_code_name: service_code_name(req.service_code),
        status_code: resp.status_code,
        minor_status: resp.minor_status,
        direction: direction.to_owned(),
    }
}

// ---------------------------------------------------------------------------
// Events
// ---------------------------------------------------------------------------

/// The envelope of a chunk.
pub open spec fn env(c: ChunkView) -> EnvelopeView {
    events::chunk_env(c, TransportProtocol::Tcp, "ge_srtp"@)
}

fn envelope(chunk: &StreamChunk<'_>) -> (r: EventEnvelope)
    ensures
        r@ == env(chunk@),
{
    chunk_envelope(chunk, TransportProtocol::Tcp, "ge_srtp")
}

/// A transaction from a request and a response, or from one frame in both places.
pub open spec fn srtp_tx(
    capture_id: Seq<char>,
    envelope: EnvelopeView,
    req: SrtpFrame,
    resp: SrtpFrame,
    status: Seq<char>,
    request_summary: Option<Seq<char>>,
    response_summary: Option<Seq<char>>,
) -> EventView {
    events::tx_view(
        capture_id,
        envelope,
        TransactionView {
            response_summary,
            object_refs: seq!["srtp_service:"@ + text::hex0x(req.service_code as nat, 2)],
            protocol_fields: Some(ProtocolFieldsView::GeSrtp(typed(req, resp, status))),
            ..events::plain_tx(
                service_of(req.service_code),
                status,
                request_summary,
                attrs_of(
                    SrtpFrame {
                        status_code: resp.status_code,
                        minor_status: resp.minor_status,
                        ..req
                    },
                ),
            )
        },
    )
}

/// The summary of a request.
pub open spec fn request_summary(f: SrtpFrame) -> Seq<char> {
    "seq="@ + text::dec(f.seq_num as nat) + " svc="@ + text::hex0x(f.service_code as nat, 2)
}

fn request_text(f: &SrtpFrame) -> (r: String)
    ensures
        r@ == request_summary(*f),
{
    let s = cat(cat("seq=", dec_text(f.seq_num).as_str()).as_str(), " svc=");
    cat(s.as_str(), hex0x_text(f.service_code, 2).as_str())
}

/// The summary of a response.
pub open spec fn response_summary(f: SrtpFrame) -> Seq<char> {
    "status="@ + text::hex0x(f.status_code as nat, 2) + " minor="@ + text::hex0x(
        f.minor_status as nat,
        2,
    )
}

fn response_text(f: &SrtpFrame) -> (r: String)
    ensures
        r@ == response_summary(*f),
{
    let s = cat(cat("status=", hex0x_text(f.status_code, 2).as_str()).as_str(), " minor=");
    cat(s.as_str(), hex0x_text(f.minor_status, 2).as_str())
}

/// The status of an answered request.
pub open spec fn status_of(f: SrtpFrame) -> Seq<char> {
    if f.status_code == 0 {
        "ok"@
    } else {
        "srtp_status_"@ + text::hex0x(f.status_code as nat, 2) + "_minor_"@ + text::hex0x(
            f.minor_status as nat,
            2,
        )
    }
}

fn status_text(f: &SrtpFrame) -> (r: String)
    ensures
        r@ == status_of(*f),
{
    if f.status_code == 0 {
        "ok".to_owned()
    } else {
        let s = cat("srtp_status_", hex0x_text(f.status_code, 2).as_str());
        cat(cat(s.as_str(), "_minor_").as_str(), hex0x_text(f.minor_status, 2).as_str())
    }
}

/// The key under which a request waits.
pub open spec fn key_of(session_key: Seq<char>, seq_num: u16) -> Seq<char> {
    session_key + ":"@ + text::dec(seq_num as nat)
}

/// A request with its response.
pub open spec fn answered(p: PendingView, f: SrtpFrame, bytes: u64) -> EventView {
    srtp_tx(
        p.capture_id,
        p.envelope.merged(bytes),
        p.frame,
        f,
        status_of(f),
        Some(request_summary(p.frame)),
        Some(response_summary(f)),
    )
}

/// A request that nothing answered.
pub open spec fn unanswered(p: PendingView) -> EventView {
    srtp_tx(
        p.capture_id,
        p.envelope,
        p.frame,
        p.frame,
        "request_only"@,
        Some(request_summary(p.frame)),
        None,
    )
}

/// The requests that nothing answered, in the order of their arrival.
pub open spec fn flushed(w: Waiting) -> Seq<EventView> {
    Seq::new(w.len(), |i: int| unanswered(w[i].1))
}

/// What a frame does to the waiting requests, and the events for it besides an anomaly.
pub open spec fn frame_step(w: Waiting, c: ChunkView, f: SrtpFrame) -> (Waiting, Seq<EventView>) {
    let key = key_of(c.session_key, f.seq_num);
    if f.msg_type == 0x02 {
        (
            collections::put(
                w,
                key,
                PendingView { capture_id: c.capture_id, envelope: env(c), frame: f },
            ),
            Seq::empty(),
        )
    } else if f.msg_type == 0x03 {
        match collections::find(w, key) {
            Some(p) => (
                collections::without(w, key),
                Seq::<EventView>::empty().push(answered(p, f, c.captured_len)),
            ),
            None => (
                w,
                Seq::<EventView>::empty().push(
                    srtp_tx(
                        c.capture_id,
                        env(c),
                        f,
                        f,
                        "response_only"@,
                        None,
                        Some(response_summary(f)),
                    ),
                ),
            ),
        }
    } else {
        (
            w,
            Seq::<EventView>::empty().push(
                srtp_tx(
                    c.capture_id,
                    env(c),
                    f,
                    f,
                    "request_only"@,
                    Some(
                        request_summary(f) + " type="@ + text::hex0x(f.msg_type as nat, 2),
                    ),
                    None,
                ),
            ),
        )
    }
}

/// What a chunk does to the waiting requests, and the events for it. A payload that is too
/// short for a header, but not empty, is an anomaly, and so is an unknown service code, which
/// is paired all the same.
pub open spec fn step(w: Waiting, c: ChunkView) -> (Waiting, Seq<EventView>) {
    if c.payload.len() == 0 {
        (w, Seq::empty())
    } else if c.payload.len() < 56 {
        (
            w,
            Seq::<EventView>::empty().push(
                events::anomaly_view(
                    c.capture_id,
                    env(c),
                    "ge_srtp"@,
                    "medium"@,
                    "frame shorter than SRTP header ("@ + text::dec(c.payload.len()) + " < 56)"@,
                    c.payload,
                ),
            ),
        )
    } else {
        let f = frame_of(c.payload);
        let next = frame_step(w, c, f);
        (
            next.0,
            events::push_if(
                Seq::empty(),
                !known(f.service_code),
                events::anomaly_view(
                    c.capture_id,
                    env(c),
                    "ge_srtp"@,
                    "low"@,
                    "unknown SRTP service code "@ + text::hex0x(f.service_code as nat, 2),
                    c.payload.subrange(0, 56),
                ),
            ) + next.1,
        )
    }
}

/// The SRTP decoder.
pub struct GeSrtpDecoder {
    pub pending: KeyedMap<String, PendingRequest>,
}

impl View for GeSrtpDecoder {
    type V = Waiting;

    open spec fn view(&self) -> Waiting {
        self.pending@
    }
}

impl Default for GeSrtpDecoder {
    fn default() -> (r: Self)
        ensures
            r@ == Waiting::empty(),
    {
        GeSrtpDecoder { pending: KeyedMap::new() }
    }
}

impl GeSrtpDecoder {
    /// The name of the decoder.
    pub fn name(&self) -> (r: &'static str)
        ensures
            r@ == "ge_srtp"@,
    {
        "ge_srtp"
    }

    /// The traffic that the decoder asks for.
    pub fn interest(&self) -> (r: &'static [DecoderInterest])
        ensures
            r@ == seq![DecoderInterest::TcpPort(18245)],
    {
        &[DecoderInterest::TcpPort(18245)]
    }

    /// Adds a transaction to the events.
    pub fn emit_transaction(
        capture_id: &str,
        envelope: EventEnvelope,
        req: &SrtpFrame,
        resp: &SrtpFrame,
        status: String,
        request_summary: Option<String>,
        response_summary: Option<String>,
        out: &mut Vec<BronzeEvent>,
    )
        ensures
            events::events(final(out)@) == events::events(old(out)@).push(
                srtp_tx(
                    capture_id@,
                    envelope@,
                    *req,
                    *resp,
                    status@,
                    text::opt_view(request_summary),
                    text::opt_view(response_summary),
                ),
            ),
    {
        let pf = srtp_bronze_fields(req, resp, status.as_str());
        let shown = SrtpFrame {
            msg_type: req.msg_type,
            seq_num: req.seq_num,
            service_code: req.service_code,
            status_code: resp.status_code,
            minor_status: resp.minor_status,
        };
        emit(
            out,
            transaction_event(
                capture_id,
                envelope,
                ProtocolTransaction {
                    operation: service_code_name(req.service_code),
                    status,
                    request_summary,
                    response_summary,
                    object_refs: one_text(
                        cat("srtp_service:", hex0x_text(req.service_code, 2).as_str()),
                    ),
                    values: no_values(),
                    attributes: srtp_attributes(&shown),
                    modbus: None,
                    protocol_fields: Some(ProtocolFields::GeSrtp(pf)),
                },
            ),
        );
    }

    /// Takes in a chunk of a TCP stream.
    pub fn on_stream_chunk(&mut self, chunk: &StreamChunk<'_>, out: &mut Vec<BronzeEvent>)
        ensures
            final(self)@ == step(old(self)@, chunk@).0,
            events::events(final(out)@) == events::events(old(out)@) + step(
                old(self)@,
                chunk@,
            ).1,
    {
        let payload = chunk.payload;
        let frame = match parse_srtp_header(payload) {
            Some(f) => f,
            None => {
                let mut ev = no_events();
                if payload.len() > 0 {
                    let reason = cat(
                        "frame shorter than SRTP header (",
                        dec_text(payload.len()).as_str(),
                    );
                    let reason = cat(reason.as_str(), " < 56)");
                    emit(
                        &mut ev,
                        parse_anomaly_event(
                            chunk.capture_id,
                            envelope(chunk),
                            "ge_srtp",
                            "medium",
                            reason.as_str(),
                            payload,
                        ),
                    );
                }
                emit_all(out, ev);
                return;
            },
        };
        let mut ev = no_events();
        if !is_known_service_code(frame.service_code) {
            let reason = cat(
                "unknown SRTP service code ",
                hex0x_text(frame.service_code, 2).as_str(),
            );
            emit(
                &mut ev,
                parse_anomaly_event(
                    chunk.capture_id,
                    envelope(chunk),
                    "ge_srtp",
                    "low",
                    reason.as_str(),
                    cut(payload, 0, SRTP_HEADER_LEN),
                ),
            );
        }
        let mut paired = no_events();
        self.pair(chunk, frame, &mut paired);
        emit_all(&mut ev, paired);
        emit_all(out, ev);
    }

    fn pair(&mut self, chunk: &StreamChunk<'_>, frame: SrtpFrame, out: &mut Vec<BronzeEvent>)
        ensures
            final(self)@ == frame_step(old(self)@, chunk@, frame).0,
            events::events(final(out)@) == events::events(old(out)@) + frame_step(
                old(self)@,
                chunk@,
                frame,
            ).1,
    {
        let mut ev = no_events();
        let key = cat(
            cat(chunk.session_key.as_str(), ":").as_str(),
            dec_text(frame.seq_num).as_str(),
        );
        match frame.msg_type {
            MSG_TYPE_REQUEST => {
                self.pending.insert(
                    key,
                    PendingRequest {
                        capture_id: chunk.capture_id.to_owned(),
                        envelope: envelope(chunk),
                        frame,
                    },
                );
            },
            MSG_TYPE_RESPONSE => {
                proof {
                    collections::without_facts(self.pending@, key@);
                }
                match self.pending.remove(&key) {
                    Some(req) => {
                        Self::emit_transaction(
                            req.capture_id.as_str(),
                            req.envelope.merge(chunk.captured_len),
                            &req.frame,
                            &frame,
                            status_text(&frame),
                            Some(request_text(&req.frame)),
                            Some(response_text(&frame)),
                            &mut ev,
                        );
                    },
                    None => {
                        Self::emit_transaction(
                            chunk.capture_id,
                            envelope(chunk),
                            &frame,
                            &frame,
                            "response_only".to_owned(),
                            None,
                            Some(response_text(&frame)),
                            &mut ev,
                        );
                    },
                }
            },
            _ => {
                let summary = cat(
                    cat(request_text(&frame).as_str(), " type=").as_str(),
                    hex0x_text(frame.msg_type, 2).as_str(),
                );
                Self::emit_transaction(
                    chunk.capture_id,
                    envelope(chunk),
                    &frame,
                    &frame,
                    "request_only".to_owned(),
                    Some(summary),
                    None,
                    &mut ev,
                );
            },
        }
        emit_all(out, ev);
    }

    /// Gives up all waiting requests.
    pub fn on_idle_flush(&mut self, _timestamp: Timestamp, out: &mut Vec<BronzeEvent>)
        ensures
            final(self)@ == Waiting::empty(),
            events::events(final(out)@) == events::events(old(out)@) + flushed(old(self)@),
    {
        let ghost all = self@;
        let total = self.pending.len();
        let mut given = no_events();
        let mut i: usize = 0;
        assert(all.skip(0) =~= all);
        assert(events::events(given@) =~= flushed(all.take(0)));
        while i < total
            invariant
                i <= total,
                total == all.len(),
                self@ == all.skip(i as int),
                events::events(given@) == flushed(all.take(i as int)),
            decreases total - i,
        {
            proof {
                assert(all.skip(i as int).drop_first() =~= all.skip(i + 1));
                assert(flushed(all.take(i + 1)) =~= flushed(all.take(i as int)).push(
                    unanswered(all[i as int].1),
                ));
            }
            match self.pending.pop_first() {
                Some((_key, req)) => {
                    assert(req@ == all[i as int].1);
                    Self::emit_transaction(
                        req.capture_id.as_str(),
                        req.envelope,
                        &req.frame,
                        &req.frame,
                        "request_only".to_owned(),
                        Some(request_text(&req.frame)),
                        None,
                        &mut given,
                    );
                },
                None => {},
            }
            i = i + 1;
        }
        assert(all.skip(i as int) =~= Waiting::empty());
        assert(all.take(i as int) =~= all);
        emit_all(out, given);
    }
}

// ---------------------------------------------------------------------------
// Laws
// ---------------------------------------------------------------------------

/// A service code has a name of its own exactly when it is known: the others are named by
/// their number.
pub proof fn known_codes_are_named(code: u8)
    ensures
        known(code) <==> service_of(code) != "srtp_unknown_"@ + text::hex0x(code as nat, 2),
{
    reveal_strlit("srtp_unknown_");
    reveal_strlit("srtp_read_system_memory");
    reveal_strlit("srtp_write_system_memory");
    reveal_strlit("srtp_read_task_memory");
    reveal_strlit("srtp_write_task_memory");
    reveal_strlit("srtp_read_plc_status");
    reveal_strlit("srtp_read_plc_time");
    reveal_strlit("srtp_set_plc_time");
    reveal_strlit("srtp_programmer_login");
    reveal_strlit("srtp_establish_session");
    let u = "srtp_unknown_"@ + text::hex0x(code as nat, 2);
    assert(u[5] == 'u');
    if known(code) {
        assert(service_of(code)[5] != 'u');
    }
}

/// Requests wait under one key exactly when session and sequence number agree: no response
/// is paired with a request of another session or number.
pub proof fn pairing_stays_in_session(a: Seq<char>, n: u16, b: Seq<char>, m: u16)
    ensures
        key_of(a, n) == key_of(b, m) <==> a == b && n == m,
{
    text::numbered_is_injective(a, n as nat, b, m as nat);
}

/// The response to a request, with its sequence number and in its session, and the request
/// become one transaction: with the request's envelope counted up by the response, the
/// request's service and the response's status. The request does not wait any longer.
pub proof fn request_and_response_are_one_transaction(w: Waiting, a: ChunkView, b: ChunkView)
    requires
        a.payload.len() >= 56,
        b.payload.len() >= 56,
        frame_of(a.payload).msg_type == 2,
        frame_of(b.payload).msg_type == 3,
        frame_of(a.payload).seq_num == frame_of(b.payload).seq_num,
        a.session_key == b.session_key,
    ensures
        ({
            let f = frame_of(a.payload);
            let g = frame_of(b.payload);
            let p = PendingView { capture_id: a.capture_id, envelope: env(a), frame: f };
            let s = step(step(w, a).0, b);
            &&& s.1.last() == answered(p, g, b.captured_len)
            &&& events::tx_count(step(w, a).1 + s.1) == 1
            &&& collections::find(s.0, key_of(a.session_key, f.seq_num)) is None
        }),
{
    let f = frame_of(a.payload);
    let key = key_of(a.session_key, f.seq_num);
    let p = PendingView { capture_id: a.capture_id, envelope: env(a), frame: f };
    collections::put_facts(w, key, p);
    let v = step(w, a).0;
    collections::without_facts(v, key);
    collections::find_is_present(collections::without(v, key), key);
    let s1 = step(w, a).1;
    let s2 = step(v, b).1;
    let all = s1 + s2;
    reveal_with_fuel(events::tx_count, 4);
    assert(all.last() == s2.last());
    assert(all.drop_last().len() == all.len() - 1);
    assert(all.drop_last().len() >= 1 ==> all.drop_last().last() == all[all.len() - 2]);
    assert(all.len() >= 2 ==> all.drop_last().drop_last().len() == all.len() - 2);
    assert(all.len() >= 3 ==> all.drop_last().drop_last().last() == all[all.len() - 3]);
    assert(all.len() >= 3 ==> all.drop_last().drop_last().drop_last().len() == 0);
    assert(all.len() >= 2 ==> all[all.len() - 2].family is ParseAnomaly);
    assert(all.len() >= 3 ==> all[all.len() - 3].family is ParseAnomaly);
}

/// A frame: the message type in byte 2, the sequence number in bytes 9 and 10, the service in byte
/// 31, and status and minor status in bytes 42 and 43 of a header of 56.
#[verifier::opaque]
pub open spec fn srtp_frame(
    a: Seq<u8>,
    msg_type: u8,
    b1: Seq<u8>,
    seq_num: u16,
    c1: Seq<u8>,
    service: u8,
    d: Seq<u8>,
    status: u8,
    minor: u8,
    e: Seq<u8>,
    data: Seq<u8>,
) -> Seq<u8> {
    a + (seq![msg_type] + (b1 + (bytes::le16_bytes(seq_num) + (c1 + (seq![service] + (d
        + (seq![status] + (seq![minor] + (e + data)))))))))
}

proof fn srtp_frame_parts(
    a: Seq<u8>,
    msg_type: u8,
    b1: Seq<u8>,
    seq_num: u16,
    c1: Seq<u8>,
    service: u8,
    d: Seq<u8>,
    status: u8,
    minor: u8,
    e: Seq<u8>,
    data: Seq<u8>,
)
    requires
        a.len() == 2,
        b1.len() == 6,
        c1.len() == 20,
        d.len() == 10,
        e.len() == 12,
    ensures
        ({
            let b = srtp_frame(a, msg_type, b1, seq_num, c1, service, d, status, minor, e, data);
            &&& b.subrange(0, 2) == a
            &&& b[2] == msg_type
            &&& b.subrange(3, 9) == b1
            &&& bytes::le16(b, 9) == seq_num
            &&& b.subrange(11, 31) == c1
            &&& b[31] == service
            &&& b.subrange(32, 42) == d
            &&& b[42] == status
            &&& b[43] == minor
            &&& b.subrange(44, 56) == e
            &&& b.skip(56) == data
            &&& b.len() == 56 + data.len()
        }),
{
    reveal(srtp_frame);
    let t10 = data;
    let t9 = e + t10;
    let t8 = seq![minor] + t9;
    let t7 = seq![status] + t8;
    let t6 = d + t7;
    let t5 = seq![service] + t6;
    let t4 = c1 + t5;
    let t3 = bytes::le16_bytes(seq_num) + t4;
    let t2 = b1 + t3;
    let t1 = seq![msg_type] + t2;
    let t0 = a + t1;
    let b = t0;
    assert(b.skip(0) =~= t0);
    bytes::next_part(b, 0, a, t1);
    bytes::next_part(b, 2, seq![msg_type], t2);
    assert(seq![msg_type][0] == msg_type);
    bytes::next_part(b, 3, b1, t3);
    bytes::next_le(b, 9, seq_num, 0, 0, t4);
    bytes::next_part(b, 11, c1, t5);
    bytes::next_part(b, 31, seq![service], t6);
    assert(seq![service][0] == service);
    bytes::next_part(b, 32, d, t7);
    bytes::next_part(b, 42, seq![status], t8);
    assert(seq![status][0] == status);
    bytes::next_part(b, 43, seq![minor], t9);
    assert(seq![minor][0] == minor);
    bytes::next_part(b, 44, e, t10);
}

/// A frame is read back, and what it gives follows from it: a request waits under its sequence
/// number in its session; a response gives its status to the request that waits, or stands alone.
pub proof fn frames_read_back(
    w: Waiting,
    c: ChunkView,
    a: Seq<u8>,
    msg_type: u8,
    b1: Seq<u8>,
    seq_num: u16,
    c1: Seq<u8>,
    service: u8,
    d: Seq<u8>,
    status: u8,
    minor: u8,
    e: Seq<u8>,
    data: Seq<u8>,
)
    requires
        a.len() == 2,
        b1.len() == 6,
        c1.len() == 20,
        d.len() == 10,
        e.len() == 12,
        c.payload == srtp_frame(a, msg_type, b1, seq_num, c1, service, d, status, minor, e, data),
    ensures
        ({
            let r = step(w, c);
            let key = c.session_key + ":"@ + text::dec(seq_num as nat);
            let tx = r.1.last().family->ProtocolTransaction_0;
            let t = tx.protocol_fields->Some_0->GeSrtp_0;
            &&& msg_type == 2 ==> {
                let p = r.0.last().1;
                &&& r.0.last().0 == key
                &&& p.capture_id == c.capture_id
                &&& p.envelope == env(c)
                &&& p.frame == (SrtpFrame {
                    msg_type,
                    seq_num,
                    service_code: service,
                    status_code: status,
                    minor_status: minor,
                })
            }
            &&& msg_type != 2 ==> {
                &&& tx.attributes["status_code"@] == "0x"@ + text::hex(status as nat, 2)
                &&& tx.attributes["minor_status"@] == "0x"@ + text::hex(minor as nat, 2)
                &&& t.status_code == status
                &&& t.minor_status == minor
            }
            &&& msg_type == 3 ==> tx.response_summary == Some(
                "status="@ + text::hex0x(status as nat, 2) + " minor="@ + text::hex0x(
                    minor as nat,
                    2,
                ),
            )
            &&& msg_type == 3 ==> match collections::find(w, key) {
                Some(p) => {
                    &&& r.0 == collections::without(w, key)
                    &&& tx.status == (if status == 0 {
                        "ok"@
                    } else {
                        "srtp_status_"@ + text::hex0x(status as nat, 2) + "_minor_"@ + text::hex0x(
                            minor as nat,
                            2,
                        )
                    })
                    &&& t.service_code == p.frame.service_code
                    &&& t.sequence_number == p.frame.seq_num
                    &&& t.msg_type == p.frame.msg_type
                },
                None => {
                    &&& r.0 == w
                    &&& tx.status == "response_only"@
                    &&& tx.request_summary is None
                    &&& t.service_code == service
                    &&& t.sequence_number == seq_num
                    &&& tx.attributes["service_code"@] == "0x"@ + text::hex(service as nat, 2)
                    &&& tx.attributes["sequence_number"@] == text::dec(seq_num as nat)
                },
            }
            &&& msg_type != 2 && msg_type != 3 ==> {
                &&& r.0 == w
                &&& tx.status == "request_only"@
                &&& service == 0x03 ==> tx.operation == "srtp_read_system_memory"@
                &&& service == 0x04 ==> tx.operation == "srtp_write_system_memory"@
                &&& service == 0x06 ==> tx.operation == "srtp_read_task_memory"@
                &&& service == 0x07 ==> tx.operation == "srtp_write_task_memory"@
                &&& service == 0x18 ==> tx.operation == "srtp_read_plc_status"@
                &&& service == 0x1B ==> tx.operation == "srtp_read_plc_time"@
                &&& service == 0x21 ==> tx.operation == "srtp_set_plc_time"@
                &&& service == 0x4E ==> tx.operation == "srtp_programmer_login"@
                &&& service == 0xC0 ==> tx.operation == "srtp_establish_session"@
                &&& service != 0x03 && service != 0x04 && service != 0x06 && service != 0x07
                    && service != 0x18 && service != 0x1B && service != 0x21 && service != 0x4E
                    && service != 0xC0 ==> tx.operation == "srtp_unknown_"@
                    + text::hex0x(service as nat, 2)
            }
        }),
{
    srtp_frame_parts(a, msg_type, b1, seq_num, c1, service, d, status, minor, e, data);
    reveal_strlit("service_code");
    reveal_strlit("sequence_number");
    reveal_strlit("status_code");
    reveal_strlit("minor_status");
    assert({
        &&& "service_code"@.len() == 12
        &&& "sequence_number"@.len() == 15
        &&& "status_code"@.len() == 11
        &&& "minor_status"@.len() == 12
    });
    assert("service_code"@[0] != "minor_status"@[0]);
}

} // verus!
