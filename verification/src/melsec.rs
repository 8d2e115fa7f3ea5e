//! MELSEC SLMP (Seamless Message Protocol) 4E binary frames on TCP port 5007.
//!
//! SLMP is little-endian throughout, so the subheader bytes `54 00` on the wire read as
//! `0x0054` (request) and `D4 00` as `0x00D4` (response). A request is held until the
//! response with the same session and serial number arrives; what is never answered is
//! reported when the session goes idle.

use vstd::prelude::*;

use crate::bytes;
use crate::bytes::{cut, cut_at_nul, get_le16};
use crate::collections;
use crate::collections::{Attributes, KeySet, KeyedMap};
use crate::events;
use crate::events::{
    asset_event, asset_observation, chunk_envelope, emit, emit_all, no_events, no_values,
    parse_anomaly_event, transaction_event, BronzeEvent, EnvelopeView, EventEnvelope, EventView,
    ProtocolFields, ProtocolFieldsView, ProtocolTransaction, TransactionView,
};
use crate::packet::{ChunkView, DecoderInterest, StreamChunk, Timestamp, TransportProtocol};
use crate::text;
use crate::text::{
    cat, contains_text, dec_text, hex_text, lossy_text, no_texts, trim_text,
};

verus! {

pub const SUBHEADER_REQUEST: u16 = 0x0054;

pub const SUBHEADER_RESPONSE: u16 = 0x00D4;

// ---------------------------------------------------------------------------
// Typed fields
// ---------------------------------------------------------------------------

/// The typed fields of an SLMP exchange.
#[derive(Debug, Clone)]
pub struct MelsecBronzeFields {
    pub serial_number: u16,
    pub network_number: u8,
    pub pc_number: u8,
    pub command: u16,
    pub subcommand: u16,
    pub end_code: Option<u16>,
    pub direction: String,
}

/// SLMP fields as contracts speak of them.
pub struct MelsecFieldsView {
    pub serial_number: u16,
    pub network_number: u8,
    pub pc_number: u8,
    pub command: u16,
    pub subcommand: u16,
    pub end_code: Option<u16>,
    pub direction: Seq<char>,
}

impl View for MelsecBronzeFields {
    type V = MelsecFieldsView;

    open spec fn view(&self) -> MelsecFieldsView {
        MelsecFieldsView {
            serial_number: self.serial_number,
            network_number: self.network_number,
            pc_number: self.pc_number,
            command: self.command,
            subcommand: self.subcommand,
            end_code: self.end_code,
            direction: self.direction@,
        }
    }
}

// ---------------------------------------------------------------------------
// Decoder state
// ---------------------------------------------------------------------------

/// A request whose response has not been seen.
#[derive(Debug, Clone)]
pub struct PendingRequest {
    pub envelope: EventEnvelope,
    pub capture_id: String,
    pub serial_number: u16,
    pub network_number: u8,
    pub pc_number: u8,
    pub command: u16,
    pub subcommand: u16,
    pub operation: String,
    pub last_seen: Timestamp,
}

/// A pending request as contracts speak of it.
pub struct PendingView {
    pub envelope: EnvelopeView,
    pub capture_id: Seq<char>,
    pub serial_number: u16,
    pub network_number: u8,
    pub pc_number: u8,
    pub command: u16,
    pub subcommand: u16,
    pub operation: Seq<char>,
    pub last_seen: Timestamp,
}

impl View for PendingRequest {
    type V = PendingView;

    open spec fn view(&self) -> PendingView {
        PendingView {
            envelope: self.envelope@,
            capture_id: self.capture_id@,
            serial_number: self.serial_number,
            network_number: self.network_number,
            pc_number: self.pc_number,
            command: self.command,
            subcommand: self.subcommand,
            operation: self.operation@,
            last_seen: self.last_seen,
        }
    }
}

/// The SLMP decoder.
#[derive(Debug, Clone)]
pub struct MelsecDecoder {
    /// Requests by session key and serial number.
    pub pending: KeyedMap<String, PendingRequest>,
    /// Source addresses that an asset was already observed for.
    pub observed_assets: KeySet<String>,
}

/// The decoder's state as contracts speak of it.
pub struct MelsecState {
    pub pending: Seq<(Seq<char>, PendingView)>,
    pub observed: Set<Seq<char>>,
}

impl View for MelsecDecoder {
    type V = MelsecState;

    open spec fn view(&self) -> MelsecState {
        MelsecState { pending: self.pending@, observed: self.observed_assets@ }
    }
}

// ---------------------------------------------------------------------------
// Labels and attributes
// ---------------------------------------------------------------------------

/// The key that pairs a response with its request.
pub open spec fn key_of(session_key: Seq<char>, serial_number: u16) -> Seq<char> {
    session_key + ":"@ + text::dec(serial_number as nat)
}

/// The key that pairs a response with its request.
pub fn pending_key(session_key: &str, serial_number: u16) -> (r: String)
    ensures
        r@ == key_of(session_key@, serial_number),
{
    cat(cat(session_key, ":").as_str(), dec_text(serial_number).as_str())
}

/// Whether the command, with its subcommand, is in the operation table.
pub open spec fn listed(command: u16, subcommand: u16) -> bool {
    ||| (command == 0x0401 || command == 0x1401) && (subcommand == 1 || subcommand == 3)
    ||| command == 0x0403
    ||| command == 0x1402
    ||| command == 0x041C
    ||| command == 0x141C
    ||| command == 0x1810
    ||| command == 0x1811
    ||| command == 0x1812
    ||| command == 0x1813
    ||| command == 0x1814
    ||| command == 0x0101
}

/// The operation label of a command and subcommand. Subcommand 1 stands for word units,
/// 3 for bit units; the remote operations and the model query do not look at it.
pub open spec fn operation_of(command: u16, subcommand: u16) -> Seq<char> {
    if command == 0x0401 && subcommand == 1 {
        "slmp_batch_read_word"@
    } else if command == 0x0401 && subcommand == 3 {
        "slmp_batch_read_bit"@
    } else if command == 0x1401 && subcommand == 1 {
        "slmp_batch_write_word"@
    } else if command == 0x1401 && subcommand == 3 {
        "slmp_batch_write_bit"@
    } else if command == 0x0403 {
        "slmp_random_read"@
    } else if command == 0x1402 {
        "slmp_random_write"@
    } else if command == 0x041C {
        "slmp_block_read"@
    } else if command == 0x141C {
        "slmp_block_write"@
    } else if command == 0x1810 {
        "slmp_remote_run"@
    } else if command == 0x1811 {
        "slmp_remote_stop"@
    } else if command == 0x1812 {
        "slmp_remote_pause"@
    } else if command == 0x1813 {
        "slmp_remote_latch_clear"@
    } else if command == 0x1814 {
        "slmp_remote_reset"@
    } else if command == 0x0101 {
        "slmp_read_cpu_model"@
    } else {
        "slmp_unknown_0x"@ + text::hex(command as nat, 4) + "_sub_0x"@ + text::hex(
            subcommand as nat,
            4,
        )
    }
}

/// The operation label of a command and subcommand.
pub fn slmp_operation_name(command: u16, subcommand: u16) -> (r: String)
    ensures
        r@ == operation_of(command, subcommand),
{
    match (command, subcommand) {
        (0x0401, 0x0001) => "slmp_batch_read_word".to_owned(),
        (0x0401, 0x0003) => "slmp_batch_read_bit".to_owned(),
        (0x1401, 0x0001) => "slmp_batch_write_word".to_owned(),
        (0x1401, 0x0003) => "slmp_batch_write_bit".to_owned(),
        (0x0403, _) => "slmp_random_read".to_owned(),
        (0x1402, _) => "slmp_random_write".to_owned(),
        (0x041C, _) => "slmp_block_read".to_owned(),
        (0x141C, _) => "slmp_block_write".to_owned(),
        (0x1810, _) => "slmp_remote_run".to_owned(),
        (0x1811, _) => "slmp_remote_stop".to_owned(),
        (0x1812, _) => "slmp_remote_pause".to_owned(),
        (0x1813, _) => "slmp_remote_latch_clear".to_owned(),
        (0x1814, _) => "slmp_remote_reset".to_owned(),
        (0x0101, _) => "slmp_read_cpu_model".to_owned(),
        _ => {
            let s = cat("slmp_unknown_0x", hex_text(command, 4).as_str());
            cat(cat(s.as_str(), "_sub_0x").as_str(), hex_text(subcommand, 4).as_str())
        },
    }
}

/// The attributes of a request.
pub open spec fn request_attrs(
    command: u16,
    subcommand: u16,
    serial_number: u16,
    network_number: u8,
    pc_number: u8,
) -> Map<Seq<char>, Seq<char>> {
    Map::empty().insert("command"@, text::hex0x(command as nat, 4)).insert(
        "subcommand"@,
        text::hex0x(subcommand as nat, 4),
    ).insert("serial_number"@, text::dec(serial_number as nat)).insert(
        "network_number"@,
        text::dec(network_number as nat),
    ).insert("pc_number"@, text::dec(pc_number as nat))
}

/// The attributes of a request.
pub fn base_attrs(
    command: u16,
    subcommand: u16,
    serial_number: u16,
    network_number: u8,
    pc_number: u8,
) -> (r: Attributes)
    ensures
        r@ == request_attrs(command, subcommand, serial_number, network_number, pc_number),
{
    let mut m = Attributes::new();
    m.put_hex("command", command, 4);
    m.put_hex("subcommand", subcommand, 4);
    m.put_dec("serial_number", serial_number);
    m.put_dec("network_number", network_number);
    m.put_dec("pc_number", pc_number);
    m
}

/// The model name in the reply to a model query: up to 16 bytes after the end code, up to
/// the first zero byte, without white space at the ends.
pub open spec fn cpu_model(payload: Seq<u8>) -> Seq<char> {
    let end = if payload.len() < 31 {
        payload.len() as int
    } else {
        31
    };
    if end <= 15 {
        "unknown"@
    } else {
        text::trimmed(text::lossy(bytes::until_nul(payload.subrange(15, end))))
    }
}

/// The model name in the reply to a model query.
pub fn parse_cpu_model_name(payload: &[u8]) -> (r: String)
    ensures
        r@ == cpu_model(payload@),
{
    let end: usize = if payload.len() < 31 {
        payload.len()
    } else {
        31
    };
    if 15 >= end {
        return "unknown".to_owned();
    }
    trim_text(lossy_text(cut_at_nul(cut(payload, 15, end))).as_str())
}

// ---------------------------------------------------------------------------
// Events
// ---------------------------------------------------------------------------

/// The envelope of a chunk.
pub open spec fn env(c: ChunkView) -> EnvelopeView {
    events::chunk_env(c, TransportProtocol::Tcp, "melsec"@)
}

/// The envelope of a chunk.
pub fn make_envelope(chunk: &StreamChunk<'_>) -> (r: EventEnvelope)
    ensures
        r@ == env(chunk@),
{
    chunk_envelope(chunk, TransportProtocol::Tcp, "melsec")
}

/// An anomaly in a chunk.
pub open spec fn anomaly_of(c: ChunkView, severity: Seq<char>, reason: Seq<char>) -> EventView {
    events::anomaly_view(c.capture_id, env(c), "melsec"@, severity, reason, c.payload)
}

fn anomaly(chunk: &StreamChunk<'_>, severity: &str, reason: &str) -> (r: BronzeEvent)
    ensures
        r@ == anomaly_of(chunk@, severity@, reason@),
{
    parse_anomaly_event(
        chunk.capture_id,
        make_envelope(chunk),
        "melsec",
        severity,
        reason,
        chunk.payload,
    )
}

/// A transaction with the typed fields of SLMP. Its status is also its direction.
pub open spec fn slmp_tx(
    operation: Seq<char>,
    status: Seq<char>,
    attributes: Map<Seq<char>, Seq<char>>,
    serial_number: u16,
    network_number: u8,
    pc_number: u8,
    command: u16,
    subcommand: u16,
    end_code: Option<u16>,
) -> TransactionView {
    TransactionView {
        protocol_fields: Some(
            ProtocolFieldsView::Melsec(
                MelsecFieldsView {
                    serial_number,
                    network_number,
                    pc_number,
                    command,
                    subcommand,
                    end_code,
                    direction: status,
                },
            ),
        ),
        ..events::plain_tx(operation, status, None, attributes)
    }
}

fn slmp_transaction(
    operation: String,
    status: String,
    attributes: Attributes,
    serial_number: u16,
    network_number: u8,
    pc_number: u8,
    command: u16,
    subcommand: u16,
    end_code: Option<u16>,
) -> (r: ProtocolTransaction)
    ensures
        r@ == slmp_tx(
            operation@,
            status@,
            attributes@,
            serial_number,
            network_number,
            pc_number,
            command,
            subcommand,
            end_code,
        ),
{
    let direction = status.as_str().to_owned();
    ProtocolTransaction {
        operation,
        status,
        request_summary: None,
        response_summary: None,
        object_refs: no_texts(),
        values: no_values(),
        attributes,
        modbus: None,
        protocol_fields: Some(
            ProtocolFields::Melsec(
                MelsecBronzeFields {
                    serial_number,
                    network_number,
                    pc_number,
                    command,
                    subcommand,
                    end_code,
                    direction,
                },
            ),
        ),
    }
}

/// The observation of a controller.
pub open spec fn controller_seen(
    capture_id: Seq<char>,
    envelope: EnvelopeView,
    asset_ip: Seq<char>,
    model: Seq<char>,
) -> EventView {
    events::asset_event_view(
        capture_id,
        envelope,
        events::asset_view(
            asset_ip,
            Some("mitsubishi_plc"@),
            Some("Mitsubishi"@),
            Some(model),
            None,
            "melsec"@,
            Map::empty().insert("ip"@, asset_ip),
        ),
    )
}

/// The observation of a controller.
pub fn emit_asset_observation(
    capture_id: &str,
    envelope: EventEnvelope,
    asset_ip: String,
    model: String,
) -> (r: BronzeEvent)
    ensures
        r@ == controller_seen(capture_id@, envelope@, asset_ip@, model@),
{
    let mut identifiers = Attributes::new();
    identifiers.put("ip", asset_ip.as_str());
    asset_event(
        capture_id,
        envelope,
        asset_observation(
            asset_ip,
            Some("mitsubishi_plc"),
            Some("Mitsubishi"),
            Some(model),
            None,
            "melsec",
            identifiers,
        ),
    )
}

// ---------------------------------------------------------------------------
// Behaviour
// ---------------------------------------------------------------------------

/// What a request frame does: it is held under its key, and reported where its command is
/// not known.
pub open spec fn request_step(s: MelsecState, c: ChunkView) -> (MelsecState, Seq<EventView>) {
    let p = c.payload;
    if p.len() < 19 {
        (
            s,
            seq![anomaly_of(c, "medium"@, "SLMP request frame truncated before command field"@)],
        )
    } else {
        let serial = bytes::le16(p, 2);
        let command = bytes::le16(p, 15);
        let subcommand = bytes::le16(p, 17);
        let operation = operation_of(command, subcommand);
        let request = PendingView {
            envelope: env(c),
            capture_id: c.capture_id,
            serial_number: serial,
            network_number: p[6],
            pc_number: p[7],
            command,
            subcommand,
            operation,
            last_seen: c.timestamp,
        };
        (
            MelsecState {
                pending: collections::put(s.pending, key_of(c.session_key, serial), request),
                ..s
            },
            if text::occurs(operation, "unknown"@) {
                seq![
                    anomaly_of(
                        c,
                        "low"@,
                        "unknown SLMP command 0x"@ + text::hex(command as nat, 4)
                            + " subcommand 0x"@ + text::hex(subcommand as nat, 4),
                    ),
                ]
            } else {
                Seq::empty()
            },
        )
    }
}

/// The status of an answered request.
pub open spec fn status_of(end_code: u16) -> Seq<char> {
    if end_code == 0 {
        "ok"@
    } else {
        "slmp_error_0x"@ + text::hex(end_code as nat, 4)
    }
}

/// The transaction of an answered request.
pub open spec fn answered(req: PendingView, end_code: u16, bytes: u64) -> EventView {
    events::tx_view(
        req.capture_id,
        req.envelope.merged(bytes),
        slmp_tx(
            req.operation,
            status_of(end_code),
            request_attrs(
                req.command,
                req.subcommand,
                req.serial_number,
                req.network_number,
                req.pc_number,
            ).insert("end_code"@, text::hex0x(end_code as nat, 4)),
            req.serial_number,
            req.network_number,
            req.pc_number,
            req.command,
            req.subcommand,
            Some(end_code),
        ),
    )
}

/// The transaction of a response whose request was not seen.
pub open spec fn response_only(c: ChunkView) -> EventView {
    let p = c.payload;
    let serial = bytes::le16(p, 2);
    let end_code = bytes::le16(p, 13);
    events::tx_view(
        c.capture_id,
        env(c),
        slmp_tx(
            "slmp_response"@,
            "response_only"@,
            Map::empty().insert("serial_number"@, text::dec(serial as nat)).insert(
                "network_number"@,
                text::dec(p[6] as nat),
            ).insert("pc_number"@, text::dec(p[7] as nat)).insert(
                "end_code"@,
                text::hex0x(end_code as nat, 4),
            ),
            serial,
            p[6],
            p[7],
            0,
            0,
            Some(end_code),
        ),
    )
}

/// What a response frame does: it ends the request that it answers, and the first
/// successful answer to a model query from an address shows the controller there.
pub open spec fn response_step(s: MelsecState, c: ChunkView) -> (MelsecState, Seq<EventView>) {
    let p = c.payload;
    if p.len() < 15 {
        (s, seq![anomaly_of(c, "medium"@, "SLMP response frame truncated before end code"@)])
    } else {
        let key = key_of(c.session_key, bytes::le16(p, 2));
        let end_code = bytes::le16(p, 13);
        let ip = c.context.src_ip.text();
        match collections::find(s.pending, key) {
            Some(req) => {
                let shows = req.command == 0x0101 && end_code == 0;
                (
                    MelsecState {
                        pending: collections::without(s.pending, key),
                        observed: if shows {
                            s.observed.insert(ip)
                        } else {
                            s.observed
                        },
                    },
                    events::push_if(
                        seq![answered(req, end_code, c.captured_len)],
                        shows && !s.observed.contains(ip),
                        controller_seen(
                            req.capture_id,
                            req.envelope.merged(c.captured_len),
                            ip,
                            cpu_model(p),
                        ),
                    ),
                )
            },
            None => (
                MelsecState { pending: collections::without(s.pending, key), ..s },
                seq![response_only(c)],
            ),
        }
    }
}

/// What a chunk does: the state after it, and the events that it gives. A chunk shorter
/// than a frame header is ignored.
pub open spec fn step(s: MelsecState, c: ChunkView) -> (MelsecState, Seq<EventView>) {
    if c.payload.len() < 13 {
        (s, Seq::empty())
    } else {
        let subheader = bytes::le16(c.payload, 0);
        if subheader == SUBHEADER_REQUEST {
            request_step(s, c)
        } else if subheader == SUBHEADER_RESPONSE {
            response_step(s, c)
        } else {
            (
                s,
                seq![
                    anomaly_of(
                        c,
                        "medium"@,
                        "invalid SLMP subheader 0x"@ + text::hex(subheader as nat, 4)
                            + " (expected 0x0054 or 0x00D4)"@,
                    ),
                ],
            )
        }
    }
}

/// The transaction of a request that was never answered.
pub open spec fn request_only(req: PendingView) -> EventView {
    events::tx_view(
        req.capture_id,
        req.envelope,
        slmp_tx(
            req.operation,
            "request_only"@,
            request_attrs(
                req.command,
                req.subcommand,
                req.serial_number,
                req.network_number,
                req.pc_number,
            ),
            req.serial_number,
            req.network_number,
            req.pc_number,
            req.command,
            req.subcommand,
            None,
        ),
    )
}

/// The requests that are still waited for at `now`.
pub open spec fn waiting(s: Seq<(Seq<char>, PendingView)>, now: Timestamp) -> Seq<
    (Seq<char>, PendingView),
>
    decreases s.len(),
{
    if s.len() == 0 {
        Seq::empty()
    } else if now.reached_spec(s.last().1.last_seen) {
        waiting(s.drop_last(), now)
    } else {
        waiting(s.drop_last(), now).push(s.last())
    }
}

/// The events for the requests that are no longer waited for at `now`, in order of arrival.
pub open spec fn given_up(s: Seq<(Seq<char>, PendingView)>, now: Timestamp) -> Seq<EventView>
    decreases s.len(),
{
    if s.len() == 0 {
        Seq::empty()
    } else if now.reached_spec(s.last().1.last_seen) {
        given_up(s.drop_last(), now).push(request_only(s.last().1))
    } else {
        given_up(s.drop_last(), now)
    }
}

impl Default for MelsecDecoder {
    fn default() -> (r: Self)
        ensures
            r@ == (MelsecState { pending: Seq::empty(), observed: Set::empty() }),
    {
        MelsecDecoder { pending: KeyedMap::new(), observed_assets: KeySet::new() }
    }
}

impl MelsecDecoder {
    /// The name of the decoder.
    pub fn name(&self) -> (r: &'static str)
        ensures
            r@ == "melsec"@,
    {
        "melsec"
    }

    /// The traffic that the decoder asks for.
    pub fn interest(&self) -> (r: &'static [DecoderInterest])
        ensures
            r@ == seq![DecoderInterest::TcpPort(5007)],
    {
        &[DecoderInterest::TcpPort(5007)]
    }

    /// Takes in a chunk of a TCP stream.
    pub fn on_stream_chunk(&mut self, chunk: &StreamChunk<'_>, out: &mut Vec<BronzeEvent>)
        ensures
            final(self)@ == step(old(self)@, chunk@).0,
            events::events(final(out)@) == events::events(old(out)@) + step(
                old(self)@,
                chunk@,
            ).1,
    {
        self.handle(chunk, out);
    }

    /// Takes in a chunk.
    pub fn handle(&mut self, chunk: &StreamChunk<'_>, out: &mut Vec<BronzeEvent>)
        ensures
            final(self)@ == step(old(self)@, chunk@).0,
            events::events(final(out)@) == events::events(old(out)@) + step(
                old(self)@,
                chunk@,
            ).1,
    {
        let payload = chunk.payload;
        if payload.len() < 13 {
            assert(events::events(out@) =~= events::events(out@) + Seq::<EventView>::empty());
            return;
        }
        let subheader = get_le16(payload, 0);
        let serial_number = get_le16(payload, 2);
        if subheader == SUBHEADER_REQUEST {
            self.handle_request(chunk, serial_number, payload[6], payload[7], out);
        } else if subheader == SUBHEADER_RESPONSE {
            self.handle_response(chunk, serial_number, payload[6], payload[7], out);
        } else {
            let reason = cat("invalid SLMP subheader 0x", hex_text(subheader, 4).as_str());
            let reason = cat(reason.as_str(), " (expected 0x0054 or 0x00D4)");
            emit(out, anomaly(chunk, "medium", reason.as_str()));
        }
    }

    fn handle_request(
        &mut self,
        chunk: &StreamChunk<'_>,
        serial_number: u16,
        network_number: u8,
        pc_number: u8,
        out: &mut Vec<BronzeEvent>,
    )
        requires
            chunk@.payload.len() >= 13,
            serial_number == bytes::le16(chunk@.payload, 2),
            network_number == chunk@.payload[6],
            pc_number == chunk@.payload[7],
        ensures
            final(self)@ == request_step(old(self)@, chunk@).0,
            events::events(final(out)@) == events::events(old(out)@) + request_step(
                old(self)@,
                chunk@,
            ).1,
    {
        let payload = chunk.payload;
        if payload.len() < 19 {
            emit(
                out,
                anomaly(chunk, "medium", "SLMP request frame truncated before command field"),
            );
            return;
        }
        let command = get_le16(payload, 15);
        let subcommand = get_le16(payload, 17);
        let operation = slmp_operation_name(command, subcommand);
        if contains_text(operation.as_str(), "unknown") {
            let reason = cat("unknown SLMP command 0x", hex_text(command, 4).as_str());
            let reason = cat(
                cat(reason.as_str(), " subcommand 0x").as_str(),
                hex_text(subcommand, 4).as_str(),
            );
            emit(out, anomaly(chunk, "low", reason.as_str()));
        }
        self.pending.insert(
            pending_key(chunk.session_key.as_str(), serial_number),
            PendingRequest {
                envelope: make_envelope(chunk),
                capture_id: chunk.capture_id.to_owned(),
                serial_number,
                network_number,
                pc_number,
                command,
                subcommand,
                operation,
                last_seen: chunk.timestamp,
            },
        );
        assert(events::events(out@) =~= events::events(old(out)@) + request_step(
            old(self)@,
            chunk@,
        ).1);
    }

    fn handle_response(
        &mut self,
        chunk: &StreamChunk<'_>,
        serial_number: u16,
        network_number: u8,
        pc_number: u8,
        out: &mut Vec<BronzeEvent>,
    )
        requires
            chunk@.payload.len() >= 13,
            serial_number == bytes::le16(chunk@.payload, 2),
            network_number == chunk@.payload[6],
            pc_number == chunk@.payload[7],
        ensures
            final(self)@ == response_step(old(self)@, chunk@).0,
            events::events(final(out)@) == events::events(old(out)@) + response_step(
                old(self)@,
                chunk@,
            ).1,
    {
        let payload = chunk.payload;
        if payload.len() < 15 {
            emit(out, anomaly(chunk, "medium", "SLMP response frame truncated before end code"));
            return;
        }
        let end_code = get_le16(payload, 13);
        let key = pending_key(chunk.session_key.as_str(), serial_number);
        match self.pending.remove(&key) {
            Some(req) => {
                let status = if end_code == 0 {
                    "ok".to_owned()
                } else {
                    cat("slmp_error_0x", hex_text(end_code, 4).as_str())
                };
                let mut attrs = base_attrs(
                    req.command,
                    req.subcommand,
                    req.serial_number,
                    req.network_number,
                    req.pc_number,
                );
                attrs.put_hex("end_code", end_code, 4);
                let envelope = req.envelope.merge(chunk.captured_len);
                emit(
                    out,
                    transaction_event(
                        req.capture_id.as_str(),
                        envelope.copy(),
                        slmp_transaction(
                            req.operation,
                            status,
                            attrs,
                            req.serial_number,
                            req.network_number,
                            req.pc_number,
                            req.command,
                            req.subcommand,
                            Some(end_code),
                        ),
                    ),
                );
                if req.command == 0x0101 && end_code == 0 {
                    let src_ip = chunk.context.src_ip.text();
                    if self.observed_assets.insert(src_ip.as_str().to_owned()) {
                        emit(
                            out,
                            emit_asset_observation(
                                req.capture_id.as_str(),
                                envelope,
                                src_ip,
                                parse_cpu_model_name(payload),
                            ),
                        );
                    }
                }
            },
            None => {
                let mut attrs = Attributes::new();
                attrs.put_dec("serial_number", serial_number);
                attrs.put_dec("network_number", network_number);
                attrs.put_dec("pc_number", pc_number);
                attrs.put_hex("end_code", end_code, 4);
                emit(
                    out,
                    transaction_event(
                        chunk.capture_id,
                        make_envelope(chunk),
                        slmp_transaction(
                            "slmp_response".to_owned(),
                            "response_only".to_owned(),
                            attrs,
                            serial_number,
                            network_number,
                            pc_number,
                            0,
                            0,
                            Some(end_code),
                        ),
                    ),
                );
            },
        }
        assert(events::events(out@) =~= events::events(old(out)@) + response_step(
            old(self)@,
            chunk@,
        ).1);
    }

    /// Gives up the requests that are no longer waited for.
    pub fn on_idle_flush(&mut self, timestamp: Timestamp, out: &mut Vec<BronzeEvent>)
        ensures
            final(self)@ == (MelsecState {
                pending: waiting(old(self)@.pending, timestamp),
                ..old(self)@
            }),
            events::events(final(out)@) == events::events(old(out)@) + given_up(
                old(self)@.pending,
                timestamp,
            ),
    {
        let ghost all = self.pending@;
        let ghost mut n: int = 0;
        let mut kept: KeyedMap<String, PendingRequest> = KeyedMap::new();
        let mut given: Vec<BronzeEvent> = no_events();
        assert(all.skip(0) =~= all);
        let total = self.pending.len();
        let mut i: usize = 0;
        while i < total
            invariant
                n == i,
                i <= total,
                total == all.len(),
                self.observed_assets@ == old(self)@.observed,
                self.pending@ == all.skip(n),
                kept@ == waiting(all.take(n), timestamp),
                events::events(given@) == given_up(all.take(n), timestamp),
            decreases total - i,
        {
            proof {
                assert(all.skip(n)[0] == all[n]);
                assert(all.skip(n).drop_first() =~= all.skip(n + 1));
                assert(all.take(n + 1).drop_last() =~= all.take(n));
                assert(all.take(n + 1).last() == all[n]);
            }
            match self.pending.pop_first() {
                Some((key, req)) => {
                    if timestamp.reached(&req.last_seen) {
                        emit(
                            &mut given,
                            transaction_event(
                                req.capture_id.as_str(),
                                req.envelope,
                                slmp_transaction(
                                    req.operation,
                                    "request_only".to_owned(),
                                    base_attrs(
                                        req.command,
                                        req.subcommand,
                                        req.serial_number,
                                        req.network_number,
                                        req.pc_number,
                                    ),
                                    req.serial_number,
                                    req.network_number,
                                    req.pc_number,
                                    req.command,
                                    req.subcommand,
                                    None,
                                ),
                            ),
                        );
                    } else {
                        kept.append(key, req);
                    }
                },
                None => {},
            }
            proof {
                n = n + 1;
            }
            i = i + 1;
        }
        assert(all.take(n) =~= all);
        self.pending = kept;
        emit_all(out, given);
    }
}

// ---------------------------------------------------------------------------
// Laws
// ---------------------------------------------------------------------------

/// A request waits under one key exactly when session and serial number agree: no response is
/// paired with a request of another session or number.
pub proof fn pairing_stays_in_session(a: Seq<char>, n: u16, b: Seq<char>, m: u16)
    ensures
        key_of(a, n) == key_of(b, m) <==> a == b && n == m,
{
    text::numbered_is_injective(a, n as nat, b, m as nat);
}

/// A label says `unknown` exactly when its command is not in the operation table, so that the
/// anomaly for an unknown command comes for those and no others.
pub proof fn unknown_labels_are_the_unlisted(command: u16, subcommand: u16)
    ensures
        text::occurs(operation_of(command, subcommand), "unknown"@) <==> !listed(
            command,
            subcommand,
        ),
{
    let op = operation_of(command, subcommand);
    reveal_strlit("unknown");
    reveal_strlit("slmp_batch_read_word");
    reveal_strlit("slmp_batch_read_bit");
    reveal_strlit("slmp_batch_write_word");
    reveal_strlit("slmp_batch_write_bit");
    reveal_strlit("slmp_random_read");
    reveal_strlit("slmp_random_write");
    reveal_strlit("slmp_block_read");
    reveal_strlit("slmp_block_write");
    reveal_strlit("slmp_remote_run");
    reveal_strlit("slmp_remote_stop");
    reveal_strlit("slmp_remote_pause");
    reveal_strlit("slmp_remote_latch_clear");
    reveal_strlit("slmp_remote_reset");
    reveal_strlit("slmp_read_cpu_model");
    reveal_strlit("slmp_unknown_0x");
    if listed(command, subcommand) {
        reveal_with_fuel(text::absent_from, 20);
        assert(text::absent_from(op, "unknown"@, 0));
        text::absent_does_not_occur(op, "unknown"@);
    } else {
        assert(op.subrange(5, 12) =~= "unknown"@);
        assert(text::occurs_at(op, "unknown"@, 5));
    }
}

/// A request and the response with its serial number in its session are one transaction, with
/// the request's operation and the response's end code. The request does not wait any longer.
pub proof fn request_and_response_are_one_transaction(s: MelsecState, a: ChunkView, b: ChunkView)
    requires
        a.payload.len() >= 19,
        b.payload.len() >= 15,
        bytes::le16(a.payload, 0) == SUBHEADER_REQUEST,
        bytes::le16(b.payload, 0) == SUBHEADER_RESPONSE,
        bytes::le16(a.payload, 2) == bytes::le16(b.payload, 2),
        a.session_key == b.session_key,
    ensures
        ({
            let t = step(step(s, a).0, b);
            let key = key_of(a.session_key, bytes::le16(a.payload, 2));
            let req = collections::find(step(s, a).0.pending, key)->Some_0;
            &&& req.operation == operation_of(
                bytes::le16(a.payload, 15),
                bytes::le16(a.payload, 17),
            )
            &&& req.envelope == env(a)
            &&& t.1[0] == answered(req, bytes::le16(b.payload, 13), b.captured_len)
            &&& events::tx_count(step(s, a).1 + t.1) == 1
            &&& collections::find(t.0.pending, key) is None
        }),
{
    let key = key_of(a.session_key, bytes::le16(a.payload, 2));
    let v = step(s, a).0.pending;
    let req = PendingView {
        envelope: env(a),
        capture_id: a.capture_id,
        serial_number: bytes::le16(a.payload, 2),
        network_number: a.payload[6],
        pc_number: a.payload[7],
        command: bytes::le16(a.payload, 15),
        subcommand: bytes::le16(a.payload, 17),
        operation: operation_of(bytes::le16(a.payload, 15), bytes::le16(a.payload, 17)),
        last_seen: a.timestamp,
    };
    collections::put_facts(s.pending, key, req);
    collections::without_facts(v, key);
    collections::find_is_present(collections::without(v, key), key);
    let x = step(s, a).1;
    let y = step(step(s, a).0, b).1;
    events::counts_add(x, y);
    reveal_with_fuel(events::tx_count, 3);
    assert(x.len() == 1 ==> x.drop_last().len() == 0);
    assert(y.len() >= 1 ==> y.drop_last().len() == y.len() - 1);
    assert(y.len() == 2 ==> y.drop_last().last() == y[0]);
}

/// At an idle flush every waiting request is either reported or kept, by its age, and never both.
pub proof fn flush_reports_or_keeps(s: Seq<(Seq<char>, PendingView)>, now: Timestamp)
    ensures
        waiting(s, now).len() + given_up(s, now).len() == s.len(),
        forall|i: int|
            0 <= i < s.len() ==> if now.reached_spec((#[trigger] s[i]).1.last_seen) {
                given_up(s, now).contains(request_only(s[i].1))
            } else {
                waiting(s, now).contains(s[i])
            },
        forall|i: int|
            0 <= i < waiting(s, now).len() ==> !now.reached_spec(
                (#[trigger] waiting(s, now)[i]).1.last_seen,
            ),
    decreases s.len(),
{
    if s.len() > 0 {
        let p = s.drop_last();
        flush_reports_or_keeps(p, now);
        assert forall|i: int| 0 <= i < s.len() implies (if now.reached_spec(
            (#[trigger] s[i]).1.last_seen,
        ) {
            given_up(s, now).contains(request_only(s[i].1))
        } else {
            waiting(s, now).contains(s[i])
        }) by {
            if i < p.len() {
                assert(p[i] == s[i]);
                if now.reached_spec(s[i].1.last_seen) {
                    let k = choose|k: int|
                        0 <= k < given_up(p, now).len() && given_up(p, now)[k] == request_only(p[i].1);
                    assert(given_up(s, now)[k] == request_only(s[i].1));
                } else {
                    let k = choose|k: int|
                        0 <= k < waiting(p, now).len() && waiting(p, now)[k] == p[i];
                    assert(waiting(s, now)[k] == s[i]);
                }
            } else if now.reached_spec(s[i].1.last_seen) {
                assert(given_up(s, now).last() == request_only(s[i].1));
            } else {
                assert(waiting(s, now).last() == s[i]);
            }
        }
    }
}

/// A controller is shown once for an address: once its model is known, no answer from there
/// shows it again.
pub proof fn controller_is_shown_once(s: MelsecState, c: ChunkView)
    requires
        s.observed.contains(c.context.src_ip.text()),
    ensures
        events::asset_count(step(s, c).1) == 0,
        step(s, c).0.observed.contains(c.context.src_ip.text()),
{
    let ev = step(s, c).1;
    reveal_with_fuel(events::asset_count, 3);
    assert(ev.len() >= 1 ==> ev.drop_last().len() == ev.len() - 1);
}

/// The head of an SLMP frame: subheader, serial number, a reserved word, network, controller, the
/// rest of the route and the length, and then the body.
#[verifier::opaque]
pub open spec fn slmp_frame(
    subheader: u16,
    serial: u16,
    reserved: u16,
    network: u8,
    pc: u8,
    station: Seq<u8>,
    body: Seq<u8>,
) -> Seq<u8> {
    bytes::le16_bytes(subheader) + (bytes::le16_bytes(serial) + (bytes::le16_bytes(reserved)
        + (seq![network] + (seq![pc] + (station + body)))))
}

proof fn slmp_frame_parts(
    subheader: u16,
    serial: u16,
    reserved: u16,
    network: u8,
    pc: u8,
    station: Seq<u8>,
    body: Seq<u8>,
)
    requires
        station.len() == 5,
    ensures
        ({
            let b = slmp_frame(subheader, serial, reserved, network, pc, station, body);
            &&& bytes::le16(b, 0) == subheader
            &&& bytes::le16(b, 2) == serial
            &&& bytes::le16(b, 4) == reserved
            &&& b[6] == network
            &&& b[7] == pc
            &&& b.subrange(8, 13) == station
            &&& b.skip(13) == body
            &&& b.len() == 13 + body.len()
        }),
{
    reveal(slmp_frame);
    let t6 = body;
    let t5 = station + t6;
    let t4 = seq![pc] + t5;
    let t3 = seq![network] + t4;
    let t2 = bytes::le16_bytes(reserved) + t3;
    let t1 = bytes::le16_bytes(serial) + t2;
    let t0 = bytes::le16_bytes(subheader) + t1;
    let b = t0;
    assert(b.skip(0) =~= t0);
    bytes::next_le(b, 0, subheader, 0, 0, t1);
    bytes::next_le(b, 2, serial, 0, 0, t2);
    bytes::next_le(b, 4, reserved, 0, 0, t3);
    bytes::next_part(b, 6, seq![network], t4);
    assert(seq![network][0] == network);
    bytes::next_part(b, 7, seq![pc], t5);
    assert(seq![pc][0] == pc);
    bytes::next_part(b, 8, station, t6);
}

/// A request is read back: its serial number, route, command and subcommand, and it waits under the
/// serial number in its session.
pub proof fn request_reads_back(
    s: MelsecState,
    c: ChunkView,
    serial: u16,
    reserved: u16,
    network: u8,
    pc: u8,
    station: Seq<u8>,
    timer: Seq<u8>,
    command: u16,
    subcommand: u16,
    rest: Seq<u8>,
)
    requires
        station.len() == 5,
        timer.len() == 2,
        c.payload == slmp_frame(
            0x0054,
            serial,
            reserved,
            network,
            pc,
            station,
            timer + (bytes::le16_bytes(command) + (bytes::le16_bytes(subcommand) + rest)),
        ),
    ensures
        ({
            let w = step(s, c).0.pending;
            let req = w.last().1;
            let e = request_only(req);
            let tx = e.family->ProtocolTransaction_0;
            &&& w.last().0 == c.session_key + ":"@ + text::dec(serial as nat)
            &&& req.serial_number == serial
            &&& req.network_number == network
            &&& req.pc_number == pc
            &&& req.command == command
            &&& req.subcommand == subcommand
            &&& req.capture_id == c.capture_id
            &&& req.envelope == env(c)
            &&& req.last_seen == c.timestamp
            &&& tx.operation == req.operation
            &&& tx.status == "request_only"@
            &&& tx.attributes["command"@] == "0x"@ + text::hex(command as nat, 4)
            &&& tx.attributes["subcommand"@] == "0x"@ + text::hex(subcommand as nat, 4)
            &&& tx.attributes["serial_number"@] == text::dec(serial as nat)
            &&& tx.attributes["network_number"@] == text::dec(network as nat)
            &&& tx.attributes["pc_number"@] == text::dec(pc as nat)
            &&& command == 0x0401 && subcommand == 1 ==> req.operation == "slmp_batch_read_word"@
            &&& command == 0x0401 && subcommand == 3 ==> req.operation == "slmp_batch_read_bit"@
            &&& command == 0x1401 && subcommand == 1 ==> req.operation == "slmp_batch_write_word"@
            &&& command == 0x1401 && subcommand == 3 ==> req.operation == "slmp_batch_write_bit"@
            &&& command == 0x0403 ==> req.operation == "slmp_random_read"@
            &&& command == 0x1402 ==> req.operation == "slmp_random_write"@
            &&& command == 0x041C ==> req.operation == "slmp_block_read"@
            &&& command == 0x141C ==> req.operation == "slmp_block_write"@
            &&& command == 0x1810 ==> req.operation == "slmp_remote_run"@
            &&& command == 0x1811 ==> req.operation == "slmp_remote_stop"@
            &&& command == 0x1812 ==> req.operation == "slmp_remote_pause"@
            &&& command == 0x1813 ==> req.operation == "slmp_remote_latch_clear"@
            &&& command == 0x1814 ==> req.operation == "slmp_remote_reset"@
            &&& command == 0x0101 ==> req.operation == "slmp_read_cpu_model"@
        }),
{
    let body = timer + (bytes::le16_bytes(command) + (bytes::le16_bytes(subcommand) + rest));
    let p = c.payload;
    slmp_frame_parts(0x0054, serial, reserved, network, pc, station, body);
    bytes::next_part(p, 13, timer, bytes::le16_bytes(command)
        + (bytes::le16_bytes(subcommand) + rest));
    bytes::next_le(p, 15, command, 0, 0, bytes::le16_bytes(subcommand) + rest);
    bytes::next_le(p, 17, subcommand, 0, 0, rest);
    reveal_strlit("command");
    reveal_strlit("subcommand");
    reveal_strlit("serial_number");
    reveal_strlit("network_number");
    reveal_strlit("pc_number");
    assert({
        &&& "command"@.len() == 7
        &&& "subcommand"@.len() == 10
        &&& "serial_number"@.len() == 13
        &&& "network_number"@.len() == 14
        &&& "pc_number"@.len() == 9
    });
}

/// A response gives the end code behind its head. With a waiting request it is that request's
/// transaction, well ended where the code is zero; alone it is one of its own.
pub proof fn response_reads_back(
    s: MelsecState,
    c: ChunkView,
    serial: u16,
    reserved: u16,
    network: u8,
    pc: u8,
    station: Seq<u8>,
    end_code: u16,
    rest: Seq<u8>,
)
    requires
        station.len() == 5,
        c.payload == slmp_frame(
            0x00D4,
            serial,
            reserved,
            network,
            pc,
            station,
            bytes::le16_bytes(end_code) + rest,
        ),
    ensures
        ({
            let e = step(s, c).1[0];
            let tx = e.family->ProtocolTransaction_0;
            let t = tx.protocol_fields->Some_0->Melsec_0;
            &&& t.end_code == Some(end_code)
            &&& tx.attributes["end_code"@] == "0x"@ + text::hex(end_code as nat, 4)
            &&& match collections::find(
                s.pending,
                c.session_key + ":"@ + text::dec(serial as nat),
            ) {
                Some(req) => {
                    &&& tx.operation == req.operation
                    &&& tx.status == (if end_code == 0 {
                        "ok"@
                    } else {
                        "slmp_error_0x"@ + text::hex(end_code as nat, 4)
                    })
                    &&& t.serial_number == req.serial_number
                    &&& t.network_number == req.network_number
                    &&& t.pc_number == req.pc_number
                    &&& t.command == req.command
                    &&& t.subcommand == req.subcommand
                    &&& tx.attributes["command"@] == "0x"@ + text::hex(req.command as nat, 4)
                    &&& tx.attributes["serial_number"@] == text::dec(req.serial_number as nat)
                },
                None => {
                    &&& tx.operation == "slmp_response"@
                    &&& tx.status == "response_only"@
                    &&& t.serial_number == serial
                    &&& t.network_number == network
                    &&& t.pc_number == pc
                    &&& tx.attributes["serial_number"@] == text::dec(serial as nat)
                    &&& tx.attributes["network_number"@] == text::dec(network as nat)
                    &&& tx.attributes["pc_number"@] == text::dec(pc as nat)
                },
            }
        }),
{
    let p = c.payload;
    slmp_frame_parts(0x00D4, serial, reserved, network, pc,
        station, bytes::le16_bytes(end_code) + rest);
    bytes::next_le(p, 13, end_code, 0, 0, rest);
    reveal_strlit("command");
    reveal_strlit("subcommand");
    reveal_strlit("serial_number");
    reveal_strlit("network_number");
    reveal_strlit("pc_number");
    reveal_strlit("end_code");
    assert({
        &&& "command"@.len() == 7
        &&& "subcommand"@.len() == 10
        &&& "serial_number"@.len() == 13
        &&& "network_number"@.len() == 14
        &&& "pc_number"@.len() == 9
        &&& "end_code"@.len() == 8
    });
}

/// A controller that answers a read of its model well is an asset under the address that the
/// answer comes from: a controller of Mitsubishi, with the model that it gives.
pub proof fn controller_is_the_answering_end(s: MelsecState, c: ChunkView, req: PendingView)
    requires
        c.payload.len() >= 15,
        bytes::le16(c.payload, 0) == 0x00D4,
        collections::find(
            s.pending,
            c.session_key + ":"@ + text::dec(bytes::le16(c.payload, 2) as nat),
        ) == Some(req),
    ensures
        ({
            let e = step(s, c).1;
            let ip = c.context.src_ip.text();
            let a = e[1].family->AssetObservation_0;
            let shown = req.command == 0x0101 && bytes::le16(c.payload, 13) == 0
                && !s.observed.contains(ip);
            &&& e.len() == (if shown {
                2nat
            } else {
                1
            })
            &&& shown ==> e[1].family is AssetObservation && a.asset_key == ip && a.role == Some(
                "mitsubishi_plc"@,
            ) && a.vendor == Some("Mitsubishi"@) && a.model == Some(cpu_model(c.payload))
                && a.protocols == seq!["melsec"@] && a.identifiers["ip"@] == ip
        }),
{
}

/// The model stands in the sixteen bytes behind the end code, up to the first NUL.
pub proof fn model_is_read_back(head: Seq<u8>, model: Seq<u8>, rest: Seq<u8>)
    requires
        head.len() == 15,
        0 < model.len() < 16,
        forall|i: int| 0 <= i < model.len() ==> model[i] != 0,
    ensures
        cpu_model(head + model + seq![0u8] + rest) == text::trimmed(text::lossy(model)),
{
    let p = head + model + seq![0u8] + rest;
    let end = if p.len() < 31 {
        p.len() as int
    } else {
        31
    };
    let f = p.subrange(15, end);
    let after = f.skip(model.len() as int + 1);
    assert(f =~= model + seq![0u8] + after);
    assert(!model.contains(0));
    bytes::nothing_behind_the_nul(model, after);
}

} // verus!
