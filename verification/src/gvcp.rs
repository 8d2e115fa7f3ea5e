//! GVCP, the control protocol of GigE Vision cameras, on UDP port 3956.
//!
//! A command starts with the key byte 0x42, then flags, command, length and request id; an
//! acknowledge starts with a status, then acknowledge code, length and id (all u16
//! big-endian). The acknowledge of a discovery carries the identity of the camera in text
//! fields of fixed width behind 56 bytes of device state.

use vstd::prelude::*;

use crate::bytes;
use crate::bytes::{cut, cut_at_nul, get_be16};
use crate::collections;
use crate::collections::Attributes;
use crate::events;
use crate::events::{
    asset_event, chunk_envelope, emit, emit_all, no_events, parse_anomaly_event, plain_transaction,
    transaction_event, AssetObservation, AssetView, BronzeEvent, EnvelopeView, EventEnvelope,
    EventView,
};
use crate::packet::{ChunkView, DecoderInterest, StreamChunk, TransportProtocol};
use crate::text;
use crate::text::{cat, dec_text, hex0x_text, lossy_text, no_texts, one_text, trim_text};

verus! {

/// The first byte of every command.
pub const GVCP_KEY_CODE: u8 = 0x42;

/// The bytes of a header.
pub const HEADER_LEN: usize = 8;

pub const ACK_DISCOVERY: u16 = 0x0003;

/// Where the text fields of a discovery acknowledge stand behind the header, and where they
/// end.
pub const DISC_MANUFACTURER_OFF: usize = 56;

pub const DISC_MODEL_OFF: usize = 88;

pub const DISC_VERSION_OFF: usize = 120;

pub const DISC_MFR_INFO_OFF: usize = 152;

pub const DISC_SERIAL_OFF: usize = 200;

pub const DISC_USERNAME_OFF: usize = 216;

pub const DISC_ACK_PAYLOAD_FULL: usize = 232;

/// The header of a command.
#[derive(Debug, Clone, Copy)]
pub struct GvcpCommand {
    pub flags: u8,
    pub command: u16,
    pub length: u16,
    pub request_id: u16,
}

/// The header of an acknowledge.
#[derive(Debug, Clone, Copy)]
pub struct GvcpAck {
    pub status: u16,
    pub acknowledge: u16,
    pub length: u16,
    pub ack_id: u16,
}

/// The command in a datagram.
pub open spec fn command_of(b: Seq<u8>) -> Option<GvcpCommand> {
    if b.len() < 8 || b[0] != 0x42 {
        None
    } else {
        Some(
            GvcpCommand {
                flags: b[1],
                command: bytes::be16(b, 2),
                length: bytes::be16(b, 4),
                request_id: bytes::be16(b, 6),
            },
        )
    }
}

/// The command in a datagram.
pub fn parse_command(buf: &[u8]) -> (r: Option<GvcpCommand>)
    ensures
        r == command_of(buf@),
{
    if buf.len() < HEADER_LEN || buf[0] != GVCP_KEY_CODE {
        return None;
    }
    Some(
        GvcpCommand {
            flags: buf[1],
            command: get_be16(buf, 2),
            length: get_be16(buf, 4),
            request_id: get_be16(buf, 6),
        },
    )
}

/// The acknowledge in a datagram.
pub open spec fn ack_of(b: Seq<u8>) -> Option<GvcpAck> {
    if b.len() < 8 {
        None
    } else {
        Some(
            GvcpAck {
                status: bytes::be16(b, 0),
                acknowledge: bytes::be16(b, 2),
                length: bytes::be16(b, 4),
                ack_id: bytes::be16(b, 6),
            },
        )
    }
}

/// The acknowledge in a datagram.
pub fn parse_ack(buf: &[u8]) -> (r: Option<GvcpAck>)
    ensures
        r == ack_of(buf@),
{
    if buf.len() < HEADER_LEN {
        return None;
    }
    Some(
        GvcpAck {
            status: get_be16(buf, 0),
            acknowledge: get_be16(buf, 2),
            length: get_be16(buf, 4),
            ack_id: get_be16(buf, 6),
        },
    )
}

/// The name of a command or acknowledge code, where it has one.
pub open spec fn name_of(code: u16) -> Option<Seq<char>> {
    if code == 0x0002 {
        Some("gvcp_discovery"@)
    } else if code == 0x0003 {
        Some("gvcp_discovery_ack"@)
    } else if code == 0x0004 {
        Some("gvcp_forceip"@)
    } else if code == 0x0005 {
        Some("gvcp_forceip_ack"@)
    } else if code == 0x0040 {
        Some("gvcp_packetresend"@)
    } else if code == 0x0080 {
        Some("gvcp_readreg"@)
    } else if code == 0x0081 {
        Some("gvcp_readreg_ack"@)
    } else if code == 0x0082 {
        Some("gvcp_writereg"@)
    } else if code == 0x0083 {
        Some("gvcp_writereg_ack"@)
    } else if code == 0x0084 {
        Some("gvcp_readmem"@)
    } else if code == 0x0085 {
        Some("gvcp_readmem_ack"@)
    } else if code == 0x0086 {
        Some("gvcp_writemem"@)
    } else if code == 0x0087 {
        Some("gvcp_writemem_ack"@)
    } else if code == 0x0090 {
        Some("gvcp_event"@)
    } else if code == 0x00C0 {
        Some("gvcp_action"@)
    } else {
        None
    }
}

fn code_name(code: u16) -> (r: Option<&'static str>)
    ensures
        text::opt_str(r) == name_of(code),
{
    match code {
        0x0002 => Some("gvcp_discovery"),
        0x0003 => Some("gvcp_discovery_ack"),
        0x0004 => Some("gvcp_forceip"),
        0x0005 => Some("gvcp_forceip_ack"),
        0x0040 => Some("gvcp_packetresend"),
        0x0080 => Some("gvcp_readreg"),
        0x0081 => Some("gvcp_readreg_ack"),
        0x0082 => Some("gvcp_writereg"),
        0x0083 => Some("gvcp_writereg_ack"),
        0x0084 => Some("gvcp_readmem"),
        0x0085 => Some("gvcp_readmem_ack"),
        0x0086 => Some("gvcp_writemem"),
        0x0087 => Some("gvcp_writemem_ack"),
        0x0090 => Some("gvcp_event"),
        0x00C0 => Some("gvcp_action"),
        _ => None,
    }
}

/// The operation of a command or acknowledge code.
pub open spec fn operation_of(code: u16) -> Seq<char> {
    match name_of(code) {
        Some(n) => n,
        None => "gvcp_unknown_"@ + text::hex0x(code as nat, 4),
    }
}

/// The operation of a command or acknowledge code.
pub fn command_to_operation(code: u16) -> (r: String)
    ensures
        r@ == operation_of(code),
{
    match code_name(code) {
        Some(n) => n.to_owned(),
        None => cat("gvcp_unknown_", hex0x_text(code, 4).as_str()),
    }
}

/// The text in a field of fixed width: up to the first NUL, without white space around it.
pub open spec fn field_text(b: Seq<u8>) -> Seq<char> {
    text::trimmed(text::lossy(bytes::until_nul(b)))
}

/// The text in a field of fixed width. It holds no NUL.
pub fn trim_nul(b: &[u8]) -> (r: String)
    ensures
        r@ == field_text(b@),
        !r@.contains('\0'),
{
    let s = lossy_text(cut_at_nul(b));
    proof {
        bytes::nothing_behind_the_nul(b@, Seq::empty());
        text::trimmed_text_has_bare_ends(s@);
    }
    trim_text(s.as_str())
}

// ---------------------------------------------------------------------------
// Events
// ---------------------------------------------------------------------------

/// The envelope of a chunk.
pub open spec fn env(c: ChunkView) -> EnvelopeView {
    events::chunk_env(c, TransportProtocol::Udp, "gvcp"@)
}

fn envelope(chunk: &StreamChunk<'_>) -> (r: EventEnvelope)
    ensures
        r@ == env(chunk@),
{
    chunk_envelope(chunk, TransportProtocol::Udp, "gvcp")
}

/// An anomaly in a datagram.
pub open spec fn anomaly_of(
    c: ChunkView,
    severity: Seq<char>,
    reason: Seq<char>,
    buf: Seq<u8>,
) -> EventView {
    events::anomaly_view(c.capture_id, env(c), "gvcp"@, severity, reason, buf)
}

fn anomaly(chunk: &StreamChunk<'_>, severity: &str, reason: &str, buf: &[u8]) -> (r: BronzeEvent)
    ensures
        r@ == anomaly_of(chunk@, severity@, reason@, buf@),
{
    parse_anomaly_event(chunk.capture_id, envelope(chunk), "gvcp", severity, reason, buf)
}

/// The attributes of a command or an acknowledge.
pub open spec fn attrs_of(code: u16, id: u16, length: u16, flags: u8) -> Map<Seq<char>, Seq<char>> {
    Map::empty().insert("command"@, text::hex0x(code as nat, 4)).insert(
        "request_id"@,
        text::dec(id as nat),
    ).insert("payload_length"@, text::dec(length as nat)).insert(
        "flags_hex"@,
        text::hex0x(flags as nat, 2),
    )
}

fn code_attrs(code: u16, id: u16, length: u16, flags: u8) -> (r: Attributes)
    ensures
        r@ == attrs_of(code, id, length, flags),
{
    let mut m = Attributes::new();
    m.put_hex("command", code, 4);
    m.put_dec("request_id", id);
    m.put_dec("payload_length", length);
    m.put_hex("flags_hex", flags, 2);
    m
}

/// The events of a command: an anomaly where its code is unknown, and its transaction.
pub open spec fn command_events(c: ChunkView, buf: Seq<u8>) -> Seq<EventView> {
    match command_of(buf) {
        None => Seq::empty(),
        Some(cmd) => events::push_if(
            Seq::empty(),
            name_of(cmd.command) is None,
            anomaly_of(
                c,
                "low"@,
                "unknown gvcp command code "@ + text::hex0x(cmd.command as nat, 4),
                buf,
            ),
        ).push(
            events::tx_view(
                c.capture_id,
                env(c),
                events::plain_tx(
                    operation_of(cmd.command),
                    "observed"@,
                    Some(
                        "GVCP cmd="@ + text::hex0x(cmd.command as nat, 4) + " rid="@ + text::dec(
                            cmd.request_id as nat,
                        ),
                    ),
                    attrs_of(cmd.command, cmd.request_id, cmd.length, cmd.flags),
                ),
            ),
        ),
    }
}

/// The status of an acknowledge.
pub open spec fn status_of(status: u16) -> Seq<char> {
    if status == 0 {
        "ok"@
    } else {
        "gvcp_status_"@ + text::hex0x(status as nat, 4)
    }
}

/// Nothing for an empty text.
pub open spec fn if_any(s: Seq<char>) -> Option<Seq<char>> {
    if s.len() == 0 {
        None
    } else {
        Some(s)
    }
}

fn nonempty(s: String) -> (r: Option<String>)
    ensures
        text::opt_view(r) == if_any(s@),
{
    if s.as_str().unicode_len() == 0 {
        None
    } else {
        Some(s)
    }
}

/// The camera behind a discovery acknowledge, where the datagram holds all its fields.
pub open spec fn camera_events(c: ChunkView, buf: Seq<u8>, envelope: EnvelopeView) -> Seq<
    EventView,
> {
    let p = buf.subrange(8, buf.len() as int);
    if p.len() < 232 {
        Seq::empty()
    } else {
        let key = c.context.src_ip.text();
        let m = Map::empty().insert("ip"@, key);
        let m = collections::insert_opt(
            m,
            "serial_number"@,
            if_any(field_text(p.subrange(200, 216))),
        );
        let m = collections::insert_opt(
            m,
            "manufacturer_info"@,
            if_any(field_text(p.subrange(152, 200))),
        );
        Seq::<EventView>::empty().push(
            events::asset_event_view(
                c.capture_id,
                envelope,
                AssetView {
                    asset_key: key,
                    role: Some("gige_vision_camera"@),
                    vendor: if_any(field_text(p.subrange(56, 88))),
                    model: if_any(field_text(p.subrange(88, 120))),
                    firmware: if_any(field_text(p.subrange(120, 152))),
                    hostnames: match if_any(field_text(p.subrange(216, 232))) {
                        Some(name) => seq![name],
                        None => Seq::empty(),
                    },
                    protocols: seq!["gvcp"@],
                    identifiers: m,
                },
            ),
        )
    }
}

/// The events of an acknowledge: an anomaly where its code is unknown, its transaction, and
/// the camera where it acknowledges a discovery.
pub open spec fn ack_events(c: ChunkView, buf: Seq<u8>) -> Seq<EventView> {
    match ack_of(buf) {
        None => Seq::<EventView>::empty().push(
            anomaly_of(
                c,
                "medium"@,
                "gvcp frame: key_code != 0x42 and insufficient bytes for ack"@,
                buf,
            ),
        ),
        Some(ack) => {
            let t = events::push_if(
                Seq::empty(),
                name_of(ack.acknowledge) is None,
                anomaly_of(
                    c,
                    "low"@,
                    "unknown gvcp acknowledge code "@ + text::hex0x(ack.acknowledge as nat, 4),
                    buf,
                ),
            ).push(
                events::tx_view(
                    c.capture_id,
                    env(c),
                    events::plain_tx(
                        operation_of(ack.acknowledge),
                        status_of(ack.status),
                        Some(
                            "GVCP ack="@ + text::hex0x(ack.acknowledge as nat, 4) + " id="@
                                + text::dec(ack.ack_id as nat),
                        ),
                        attrs_of(ack.acknowledge, ack.ack_id, ack.length, 0),
                    ),
                ),
            );
            if ack.acknowledge == 0x0003 {
                t + camera_events(c, buf, env(c))
            } else {
                t
            }
        },
    }
}

/// The events of a datagram.
pub open spec fn datagram_events(c: ChunkView) -> Seq<EventView> {
    let buf = c.payload;
    if buf.len() < 8 {
        Seq::<EventView>::empty().push(
            anomaly_of(c, "medium"@, "gvcp frame shorter than 8-byte header"@, buf),
        )
    } else if buf[0] == 0x42 {
        command_events(c, buf)
    } else {
        ack_events(c, buf)
    }
}

/// The GVCP decoder.
#[derive(Debug, Default)]
pub struct GvcpDecoder;

impl GvcpDecoder {
    /// The name of the decoder.
    pub fn name(&self) -> (r: &'static str)
        ensures
            r@ == "gvcp"@,
    {
        "gvcp"
    }

    /// The traffic that the decoder asks for.
    pub fn interest(&self) -> (r: &'static [DecoderInterest])
        ensures
            r@ == seq![DecoderInterest::UdpPort(3956)],
    {
        &[DecoderInterest::UdpPort(3956)]
    }

    /// Takes in a datagram.
    pub fn on_datagram(&mut self, chunk: &StreamChunk<'_>, out: &mut Vec<BronzeEvent>)
        ensures
            events::events(final(out)@) == events::events(old(out)@) + datagram_events(chunk@),
    {
        let buf = chunk.payload;
        if buf.len() < HEADER_LEN {
            let mut ev = no_events();
            emit(
                &mut ev,
                anomaly(chunk, "medium", "gvcp frame shorter than 8-byte header", buf),
            );
            emit_all(out, ev);
        } else if buf[0] == GVCP_KEY_CODE {
            self.handle_command(chunk, buf, out);
        } else {
            self.handle_ack(chunk, buf, out);
        }
    }

    /// Adds the events of a command.
    pub fn handle_command(
        &mut self,
        chunk: &StreamChunk<'_>,
        buf: &[u8],
        out: &mut Vec<BronzeEvent>,
    )
        ensures
            events::events(final(out)@) == events::events(old(out)@) + command_events(
                chunk@,
                buf@,
            ),
    {
        let mut ev = no_events();
        match parse_command(buf) {
            None => {},
            Some(cmd) => {
                let code = hex0x_text(cmd.command, 4);
                if code_name(cmd.command).is_none() {
                    let reason = cat("unknown gvcp command code ", code.as_str());
                    emit(&mut ev, anomaly(chunk, "low", reason.as_str(), buf));
                }
                let summary = cat(cat("GVCP cmd=", code.as_str()).as_str(), " rid=");
                let summary = cat(summary.as_str(), dec_text(cmd.request_id).as_str());
                emit(
                    &mut ev,
                    transaction_event(
                        chunk.capture_id,
                        envelope(chunk),
                        plain_transaction(
                            command_to_operation(cmd.command),
                            "observed",
                            Some(summary),
                            code_attrs(cmd.command, cmd.request_id, cmd.length, cmd.flags),
                        ),
                    ),
                );
            },
        }
        emit_all(out, ev);
    }

    /// Adds the events of an acknowledge.
    pub fn handle_ack(&mut self, chunk: &StreamChunk<'_>, buf: &[u8], out: &mut Vec<BronzeEvent>)
        ensures
            events::events(final(out)@) == events::events(old(out)@) + ack_events(chunk@, buf@),
    {
        let mut ev = no_events();
        match parse_ack(buf) {
            None => {
                emit(
                    &mut ev,
                    anomaly(
                        chunk,
                        "medium",
                        "gvcp frame: key_code != 0x42 and insufficient bytes for ack",
                        buf,
                    ),
                );
            },
            Some(ack) => {
                let code = hex0x_text(ack.acknowledge, 4);
                if code_name(ack.acknowledge).is_none() {
                    let reason = cat("unknown gvcp acknowledge code ", code.as_str());
                    emit(&mut ev, anomaly(chunk, "low", reason.as_str(), buf));
                }
                let status = if ack.status == 0 {
                    "ok".to_owned()
                } else {
                    cat("gvcp_status_", hex0x_text(ack.status, 4).as_str())
                };
                let summary = cat(cat("GVCP ack=", code.as_str()).as_str(), " id=");
                let summary = cat(summary.as_str(), dec_text(ack.ack_id).as_str());
                emit(
                    &mut ev,
                    transaction_event(
                        chunk.capture_id,
                        envelope(chunk),
                        plain_transaction(
                            command_to_operation(ack.acknowledge),
                            status.as_str(),
                            Some(summary),
                            code_attrs(ack.acknowledge, ack.ack_id, ack.length, 0),
                        ),
                    ),
                );
                if ack.acknowledge == ACK_DISCOVERY {
                    self.emit_discovery_asset(chunk, buf, envelope(chunk), &mut ev);
                }
            },
        }
        emit_all(out, ev);
    }

    /// Adds the camera behind a discovery acknowledge; nothing where the datagram is too short
    /// for its fields.
    pub fn emit_discovery_asset(
        &self,
        chunk: &StreamChunk<'_>,
        buf: &[u8],
        envelope: EventEnvelope,
        out: &mut Vec<BronzeEvent>,
    )
        requires
            buf@.len() >= 8,
        ensures
            events::events(final(out)@) == events::events(old(out)@) + camera_events(
                chunk@,
                buf@,
                envelope@,
            ),
    {
        let mut ev = no_events();
        let payload = cut(buf, HEADER_LEN, buf.len());
        if payload.len() >= DISC_ACK_PAYLOAD_FULL {
            let manufacturer = trim_nul(cut(payload, DISC_MANUFACTURER_OFF, DISC_MODEL_OFF));
            let model = trim_nul(cut(payload, DISC_MODEL_OFF, DISC_VERSION_OFF));
            let version = trim_nul(cut(payload, DISC_VERSION_OFF, DISC_MFR_INFO_OFF));
            let mfr_info = trim_nul(cut(payload, DISC_MFR_INFO_OFF, DISC_SERIAL_OFF));
            let serial = trim_nul(cut(payload, DISC_SERIAL_OFF, DISC_USERNAME_OFF));
            let username = trim_nul(cut(payload, DISC_USERNAME_OFF, DISC_ACK_PAYLOAD_FULL));
            let asset_key = chunk.context.src_ip.text();
            let mut identifiers = Attributes::new();
            identifiers.put("ip", asset_key.as_str());
            identifiers.insert_some("serial_number", nonempty(serial));
            identifiers.insert_some("manufacturer_info", nonempty(mfr_info));
            let hostnames = match nonempty(username) {
                Some(name) => one_text(name),
                None => no_texts(),
            };
            emit(
                &mut ev,
                asset_event(
                    chunk.capture_id,
                    envelope,
                    AssetObservation {
                        asset_key,
                        role: Some("gige_vision_camera".to_owned()),
                        vendor: nonempty(manufacturer),
                        model: nonempty(model),
                        firmware: nonempty(version),
                        hostnames,
                        protocols: one_text("gvcp".to_owned()),
                        identifiers,
                    },
                ),
            );
        }
        emit_all(out, ev);
    }
}

// ---------------------------------------------------------------------------
// Laws
// ---------------------------------------------------------------------------

/// The operation of a code starts with `gvcp_unknown_` exactly when the code has no name.
pub proof fn unknown_operations_are_the_unnamed(code: u16)
    ensures
        text::occurs_at(operation_of(code), "gvcp_unknown_"@, 0) <==> name_of(code) is None,
{
    reveal_strlit("gvcp_unknown_");
    reveal_strlit("gvcp_discovery");
    reveal_strlit("gvcp_discovery_ack");
    reveal_strlit("gvcp_forceip");
    reveal_strlit("gvcp_forceip_ack");
    reveal_strlit("gvcp_packetresend");
    reveal_strlit("gvcp_readreg");
    reveal_strlit("gvcp_readreg_ack");
    reveal_strlit("gvcp_writereg");
    reveal_strlit("gvcp_writereg_ack");
    reveal_strlit("gvcp_readmem");
    reveal_strlit("gvcp_readmem_ack");
    reveal_strlit("gvcp_writemem");
    reveal_strlit("gvcp_writemem_ack");
    reveal_strlit("gvcp_event");
    reveal_strlit("gvcp_action");
    let u = "gvcp_unknown_"@;
    let op = operation_of(code);
    if name_of(code) is Some {
        assert(op[5] != 'u');
        if text::occurs_at(op, u, 0) {
            assert(op.subrange(0, u.len() as int)[5] == u[5]);
        }
    } else {
        assert(op.subrange(0, u.len() as int) =~= u);
    }
}

/// A datagram gives an anomaly and nothing else when it is shorter than a header; else one
/// transaction, one anomaly more exactly when its code has no name, and a camera exactly for the
/// acknowledge of a discovery that is long enough for its fields.
pub proof fn every_frame_is_one_transaction(c: ChunkView)
    ensures
        c.payload.len() < 8 ==> datagram_events(c).len() == 1 && datagram_events(c)[0].family
            is ParseAnomaly,
        c.payload.len() >= 8 ==> events::tx_count(datagram_events(c)) == 1,
        c.payload.len() >= 8 ==> events::asset_count(datagram_events(c)) == (if c.payload[0]
            != 0x42 && bytes::be16(c.payload, 2) == 0x0003 && c.payload.len() >= 240 {
            1nat
        } else {
            0nat
        }),
        c.payload.len() >= 8 ==> events::anomaly_count(datagram_events(c)) == (if name_of(
            bytes::be16(c.payload, 2),
        ) is None {
            1nat
        } else {
            0nat
        }),
{
    let ev = datagram_events(c);
    reveal_with_fuel(events::tx_count, 4);
    reveal_with_fuel(events::asset_count, 4);
    reveal_with_fuel(events::anomaly_count, 4);
    assert(ev.len() >= 1 ==> ev.drop_last().len() == ev.len() - 1);
    assert(ev.len() >= 2 ==> ev.drop_last().last() == ev[ev.len() - 2]);
    assert(ev.len() >= 2 ==> ev.drop_last().drop_last().len() == ev.len() - 2);
    assert(ev.len() >= 3 ==> ev.drop_last().drop_last().last() == ev[ev.len() - 3]);
}

/// Nothing behind the first NUL of a field counts, a field without one is used whole, and no
/// white space stands at the ends of its text.
pub proof fn field_ends_at_the_first_nul(b: Seq<u8>, s: Seq<u8>)
    requires
        !b.contains(0),
    ensures
        field_text(b + seq![0u8] + s) == field_text(b),
        field_text(b) == text::trimmed(text::lossy(b)),
        field_text(b).len() > 0 ==> !text::is_white_space(field_text(b)[0])
            && !text::is_white_space(field_text(b).last()),
{
    bytes::nothing_behind_the_nul(b, s);
    text::trimmed_text_has_bare_ends(text::lossy(b));
}

/// A command: the key, flags, the command, the length of the payload, the request id and the payload.
#[verifier::opaque]
pub open spec fn gvcp_command(
    key: u8,
    flags: u8,
    command: u16,
    length: u16,
    request_id: u16,
    data: Seq<u8>,
) -> Seq<u8> {
    seq![key] + (seq![flags] + (bytes::be16_bytes(command) + (bytes::be16_bytes(length)
        + (bytes::be16_bytes(request_id) + data))))
}

proof fn gvcp_command_parts(
    key: u8,
    flags: u8,
    command: u16,
    length: u16,
    request_id: u16,
    data: Seq<u8>,
)
    ensures
        ({
            let b = gvcp_command(key, flags, command, length, request_id, data);
            &&& b[0] == key
            &&& b[1] == flags
            &&& bytes::be16(b, 2) == command
            &&& bytes::be16(b, 4) == length
            &&& bytes::be16(b, 6) == request_id
            &&& b.skip(8) == data
            &&& b.len() == 8 + data.len()
        }),
{
    reveal(gvcp_command);
    let t5 = data;
    let t4 = bytes::be16_bytes(request_id) + t5;
    let t3 = bytes::be16_bytes(length) + t4;
    let t2 = bytes::be16_bytes(command) + t3;
    let t1 = seq![flags] + t2;
    let t0 = seq![key] + t1;
    let b = t0;
    assert(b.skip(0) =~= t0);
    bytes::next_part(b, 0, seq![key], t1);
    assert(seq![key][0] == key);
    bytes::next_part(b, 1, seq![flags], t2);
    assert(seq![flags][0] == flags);
    bytes::next_be(b, 2, command, 0, 0, t3);
    bytes::next_be(b, 4, length, 0, 0, t4);
    bytes::next_be(b, 6, request_id, 0, 0, t5);
}

/// An acknowledge: the status, the acknowledge, the length of the payload, its id and the payload.
#[verifier::opaque]
pub open spec fn gvcp_ack(
    status: u16,
    acknowledge: u16,
    length: u16,
    ack_id: u16,
    data: Seq<u8>,
) -> Seq<u8> {
    bytes::be16_bytes(status) + (bytes::be16_bytes(acknowledge) + (bytes::be16_bytes(length)
        + (bytes::be16_bytes(ack_id) + data)))
}

proof fn gvcp_ack_parts(
    status: u16,
    acknowledge: u16,
    length: u16,
    ack_id: u16,
    data: Seq<u8>,
)
    ensures
        ({
            let b = gvcp_ack(status, acknowledge, length, ack_id, data);
            &&& bytes::be16(b, 0) == status
            &&& bytes::be16(b, 2) == acknowledge
            &&& bytes::be16(b, 4) == length
            &&& bytes::be16(b, 6) == ack_id
            &&& b.skip(8) == data
            &&& b.len() == 8 + data.len()
        }),
{
    reveal(gvcp_ack);
    let t4 = data;
    let t3 = bytes::be16_bytes(ack_id) + t4;
    let t2 = bytes::be16_bytes(length) + t3;
    let t1 = bytes::be16_bytes(acknowledge) + t2;
    let t0 = bytes::be16_bytes(status) + t1;
    let b = t0;
    assert(b.skip(0) =~= t0);
    bytes::next_be(b, 0, status, 0, 0, t1);
    bytes::next_be(b, 2, acknowledge, 0, 0, t2);
    bytes::next_be(b, 4, length, 0, 0, t3);
    bytes::next_be(b, 6, ack_id, 0, 0, t4);
}

/// A datagram that begins with 0x42 is a command, and is read back into its transaction.
pub proof fn commands_read_back(
    c: ChunkView,
    flags: u8,
    command: u16,
    length: u16,
    request_id: u16,
    data: Seq<u8>,
)
    requires
        c.payload == gvcp_command(0x42, flags, command, length, request_id, data),
    ensures
        ({
            let tx = datagram_events(c).last().family->ProtocolTransaction_0;
            let m = tx.attributes;
            &&& datagram_events(c).last().family is ProtocolTransaction
            &&& tx.status == "observed"@
            &&& tx.request_summary == Some(
                "GVCP cmd="@ + text::hex0x(command as nat, 4) + " rid="@ + text::dec(
                    request_id as nat,
                ),
            )
            &&& m["command"@] == "0x"@ + text::hex(command as nat, 4)
            &&& m["request_id"@] == text::dec(request_id as nat)
            &&& m["payload_length"@] == text::dec(length as nat)
            &&& m["flags_hex"@] == "0x"@ + text::hex(flags as nat, 2)
            &&& command == 0x0002 ==> tx.operation == "gvcp_discovery"@
            &&& command == 0x0003 ==> tx.operation == "gvcp_discovery_ack"@
            &&& command == 0x0004 ==> tx.operation == "gvcp_forceip"@
            &&& command == 0x0005 ==> tx.operation == "gvcp_forceip_ack"@
            &&& command == 0x0040 ==> tx.operation == "gvcp_packetresend"@
            &&& command == 0x0080 ==> tx.operation == "gvcp_readreg"@
            &&& command == 0x0081 ==> tx.operation == "gvcp_readreg_ack"@
            &&& command == 0x0082 ==> tx.operation == "gvcp_writereg"@
            &&& command == 0x0083 ==> tx.operation == "gvcp_writereg_ack"@
            &&& command == 0x0084 ==> tx.operation == "gvcp_readmem"@
            &&& command == 0x0085 ==> tx.operation == "gvcp_readmem_ack"@
            &&& command == 0x0086 ==> tx.operation == "gvcp_writemem"@
            &&& command == 0x0087 ==> tx.operation == "gvcp_writemem_ack"@
            &&& command == 0x0090 ==> tx.operation == "gvcp_event"@
            &&& command == 0x00C0 ==> tx.operation == "gvcp_action"@
            &&& command != 0x0002 && command != 0x0003 && command != 0x0004 && command != 0x0005
                && command != 0x0040 && command != 0x0080 && command != 0x0081 && command != 0x0082
                && command != 0x0083 && command != 0x0084 && command != 0x0085 && command != 0x0086
                && command != 0x0087 && command != 0x0090 && command != 0x00C0 ==> tx.operation
                == "gvcp_unknown_"@ + text::hex0x(command as nat, 4)
        }),
{
    gvcp_command_parts(0x42, flags, command, length, request_id, data);
    reveal_strlit("command");
    reveal_strlit("request_id");
    reveal_strlit("payload_length");
    reveal_strlit("flags_hex");
    assert({
        &&& "command"@.len() == 7
        &&& "request_id"@.len() == 10
        &&& "payload_length"@.len() == 14
        &&& "flags_hex"@.len() == 9
    });
}

/// Another datagram is an acknowledge, and is read back into its transaction: well where its status
/// is zero.
pub proof fn acknowledges_read_back(
    c: ChunkView,
    status: u16,
    acknowledge: u16,
    length: u16,
    ack_id: u16,
    data: Seq<u8>,
)
    requires
        c.payload == gvcp_ack(status, acknowledge, length, ack_id, data),
        status / 0x100 != 0x42,
    ensures
        ({
            let e = datagram_events(c);
            let i: int = if name_of(acknowledge) is None {
                1
            } else {
                0
            };
            let tx = e[i].family->ProtocolTransaction_0;
            let m = tx.attributes;
            &&& e[i].family is ProtocolTransaction
            &&& tx.status == (if status == 0 {
                "ok"@
            } else {
                "gvcp_status_"@ + text::hex0x(status as nat, 4)
            })
            &&& tx.request_summary == Some(
                "GVCP ack="@ + text::hex0x(acknowledge as nat, 4) + " id="@ + text::dec(
                    ack_id as nat,
                ),
            )
            &&& e.len() == i + 1 + (if acknowledge == 3 && data.len() >= 232 {
                1int
            } else {
                0
            })
            &&& m["command"@] == "0x"@ + text::hex(acknowledge as nat, 4)
            &&& m["request_id"@] == text::dec(ack_id as nat)
            &&& m["payload_length"@] == text::dec(length as nat)
            &&& m["flags_hex"@] == "0x"@ + text::hex(0 as nat, 2)
            &&& acknowledge == 0x0002 ==> tx.operation == "gvcp_discovery"@
            &&& acknowledge == 0x0003 ==> tx.operation == "gvcp_discovery_ack"@
            &&& acknowledge == 0x0004 ==> tx.operation == "gvcp_forceip"@
            &&& acknowledge == 0x0005 ==> tx.operation == "gvcp_forceip_ack"@
            &&& acknowledge == 0x0040 ==> tx.operation == "gvcp_packetresend"@
            &&& acknowledge == 0x0080 ==> tx.operation == "gvcp_readreg"@
            &&& acknowledge == 0x0081 ==> tx.operation == "gvcp_readreg_ack"@
            &&& acknowledge == 0x0082 ==> tx.operation == "gvcp_writereg"@
            &&& acknowledge == 0x0083 ==> tx.operation == "gvcp_writereg_ack"@
            &&& acknowledge == 0x0084 ==> tx.operation == "gvcp_readmem"@
            &&& acknowledge == 0x0085 ==> tx.operation == "gvcp_readmem_ack"@
            &&& acknowledge == 0x0086 ==> tx.operation == "gvcp_writemem"@
            &&& acknowledge == 0x0087 ==> tx.operation == "gvcp_writemem_ack"@
            &&& acknowledge == 0x0090 ==> tx.operation == "gvcp_event"@
            &&& acknowledge == 0x00C0 ==> tx.operation == "gvcp_action"@
            &&& acknowledge != 0x0002 && acknowledge != 0x0003 && acknowledge != 0x0004
                && acknowledge != 0x0005 && acknowledge != 0x0040 && acknowledge != 0x0080
                && acknowledge != 0x0081 && acknowledge != 0x0082 && acknowledge != 0x0083
                && acknowledge != 0x0084 && acknowledge != 0x0085 && acknowledge != 0x0086
                && acknowledge != 0x0087 && acknowledge != 0x0090 && acknowledge != 0x00C0
                ==> tx.operation == "gvcp_unknown_"@ + text::hex0x(acknowledge as nat, 4)
        }),
{
    gvcp_ack_parts(status, acknowledge, length, ack_id, data);
    assert(c.payload[0] == status / 0x100);
    reveal_strlit("command");
    reveal_strlit("request_id");
    reveal_strlit("payload_length");
    reveal_strlit("flags_hex");
    assert({
        &&& "command"@.len() == 7
        &&& "request_id"@.len() == 10
        &&& "payload_length"@.len() == 14
        &&& "flags_hex"@.len() == 9
    });
}

/// The payload of a discovery acknowledge: 56 bytes of addresses, and then the manufacturer, the
/// model, the version, what the manufacturer adds, the serial number and the name.
#[verifier::opaque]
pub open spec fn discovery_ack(
    head: Seq<u8>,
    manufacturer: Seq<u8>,
    model: Seq<u8>,
    version: Seq<u8>,
    info: Seq<u8>,
    serial: Seq<u8>,
    name: Seq<u8>,
    rest: Seq<u8>,
) -> Seq<u8> {
    head + (manufacturer + (model + (version + (info + (serial + (name + rest))))))
}

proof fn discovery_ack_parts(
    head: Seq<u8>,
    manufacturer: Seq<u8>,
    model: Seq<u8>,
    version: Seq<u8>,
    info: Seq<u8>,
    serial: Seq<u8>,
    name: Seq<u8>,
    rest: Seq<u8>,
)
    requires
        head.len() == 56,
        manufacturer.len() == 32,
        model.len() == 32,
        version.len() == 32,
        info.len() == 48,
        serial.len() == 16,
        name.len() == 16,
    ensures
        ({
            let b = discovery_ack(head, manufacturer, model, version, info, serial, name, rest);
            &&& b.subrange(0, 56) == head
            &&& b.subrange(56, 88) == manufacturer
            &&& b.subrange(88, 120) == model
            &&& b.subrange(120, 152) == version
            &&& b.subrange(152, 200) == info
            &&& b.subrange(200, 216) == serial
            &&& b.subrange(216, 232) == name
            &&& b.skip(232) == rest
            &&& b.len() == 232 + rest.len()
        }),
{
    reveal(discovery_ack);
    let t7 = rest;
    let t6 = name + t7;
    let t5 = serial + t6;
    let t4 = info + t5;
    let t3 = version + t4;
    let t2 = model + t3;
    let t1 = manufacturer + t2;
    let t0 = head + t1;
    let b = t0;
    assert(b.skip(0) =~= t0);
    bytes::next_part(b, 0, head, t1);
    bytes::next_part(b, 56, manufacturer, t2);
    bytes::next_part(b, 88, model, t3);
    bytes::next_part(b, 120, version, t4);
    bytes::next_part(b, 152, info, t5);
    bytes::next_part(b, 200, serial, t6);
    bytes::next_part(b, 216, name, t7);
}

/// A camera that acknowledges a discovery is an asset under the address that it answers from, with
/// what it says of itself, each from its own field; an empty field says nothing.
pub proof fn camera_is_what_it_says(
    c: ChunkView,
    status: u16,
    length: u16,
    ack_id: u16,
    head: Seq<u8>,
    manufacturer: Seq<u8>,
    model: Seq<u8>,
    version: Seq<u8>,
    info: Seq<u8>,
    serial: Seq<u8>,
    name: Seq<u8>,
    rest: Seq<u8>,
)
    requires
        head.len() == 56,
        manufacturer.len() == 32,
        model.len() == 32,
        version.len() == 32,
        info.len() == 48,
        serial.len() == 16,
        name.len() == 16,
        status / 0x100 != 0x42,
        c.payload == gvcp_ack(
            status,
            3,
            length,
            ack_id,
            discovery_ack(head, manufacturer, model, version, info, serial, name, rest),
        ),
    ensures
        ({
            let e = datagram_events(c)[1];
            let a = e.family->AssetObservation_0;
            let ip = c.context.src_ip.text();
            &&& e.family is AssetObservation
            &&& a.asset_key == ip
            &&& a.role == Some("gige_vision_camera"@)
            &&& a.protocols == seq!["gvcp"@]
            &&& a.identifiers["ip"@] == ip
            &&& a.vendor == (if field_text(manufacturer).len() > 0 {
                Some(field_text(manufacturer))
            } else {
                None
            })
            &&& a.model == (if field_text(model).len() > 0 {
                Some(field_text(model))
            } else {
                None
            })
            &&& a.firmware == (if field_text(version).len() > 0 {
                Some(field_text(version))
            } else {
                None
            })
            &&& a.hostnames == (if field_text(name).len() > 0 {
                seq![field_text(name)]
            } else {
                Seq::empty()
            })
            &&& field_text(serial).len() > 0 ==> a.identifiers["serial_number"@] == field_text(
                serial,
            )
            &&& field_text(serial).len() == 0 ==> !a.identifiers.contains_key("serial_number"@)
            &&& field_text(info).len() > 0 ==> a.identifiers["manufacturer_info"@] == field_text(
                info,
            )
            &&& field_text(info).len() == 0 ==> !a.identifiers.contains_key("manufacturer_info"@)
        }),
{
    let p = discovery_ack(head, manufacturer, model, version, info, serial, name, rest);
    gvcp_ack_parts(status, 3, length, ack_id, p);
    discovery_ack_parts(head, manufacturer, model, version, info, serial, name, rest);
    assert(c.payload[0] == status / 0x100);
    assert(c.payload.subrange(8, c.payload.len() as int) =~= p);
    reveal_strlit("ip");
    reveal_strlit("serial_number");
    reveal_strlit("manufacturer_info");
    assert({
        &&& "ip"@.len() == 2
        &&& "serial_number"@.len() == 13
        &&& "manufacturer_info"@.len() == 17
    });
}

} // verus!
