//! AVTP (IEEE 1722-2016), the transport of audio and video over time-sensitive networks,
//! EtherType 0x22F0.
//!
//! The big-endian common header:
//!
//! ```text
//! byte  0      subtype
//! byte  1      sv(7) | version(4..6) | mr(3) | reserved(1..2) | tv(0)
//! byte  2      sequence_num
//! byte  3      reserved
//! bytes 4..12  stream_id
//! bytes 12..16 avtp_timestamp
//! ```
//!
//! A media stream carries thousands of packets a second, so only the first packet of a
//! stream in a session and every 1000th after it are reported. Control packets are rare and
//! all reported.

use vstd::prelude::*;

use crate::bytes;
use crate::bytes::{cut, get_be16, get_be32, get_be64};
use crate::collections;
use crate::collections::{Attributes, KeyedMap};
use crate::events;
use crate::events::{
    asset_event, asset_observation, chunk_envelope, emit, emit_all, no_events, no_values,
    parse_anomaly_event, plain_transaction, transaction_event, BronzeEvent, EnvelopeView,
    EventEnvelope, EventView, ProtocolTransaction, TransactionView,
};
use crate::packet::{ChunkView, DecoderInterest, StreamChunk, TransportProtocol};
use crate::text;
use crate::text::{cat, dec_text, hex0x_text, hex_text, one_text, push_text, same_text};

verus! {

pub const SUBTYPE_IEC61883: u8 = 0x00;

pub const SUBTYPE_MMA: u8 = 0x02;

pub const SUBTYPE_AAF: u8 = 0x03;

pub const SUBTYPE_CVF: u8 = 0x04;

pub const SUBTYPE_CRF: u8 = 0x05;

pub const SUBTYPE_TSCF: u8 = 0x06;

pub const SUBTYPE_SVF: u8 = 0x07;

pub const SUBTYPE_RVF: u8 = 0x08;

pub const SUBTYPE_NTSCF: u8 = 0x6E;

pub const SUBTYPE_ESCF: u8 = 0x6F;

pub const SUBTYPE_EECF: u8 = 0x70;

pub const SUBTYPE_AEF: u8 = 0x71;

pub const SUBTYPE_ADP: u8 = 0x7A;

pub const SUBTYPE_AECP: u8 = 0x7B;

pub const SUBTYPE_ACMP: u8 = 0x7C;

pub const SUBTYPE_MAAP: u8 = 0x7E;

pub const ADP_MSG_ENTITY_AVAILABLE: u8 = 0;

pub const ADP_MSG_ENTITY_DEPARTING: u8 = 1;

pub const ADP_MSG_ENTITY_DISCOVER: u8 = 2;

pub const MEDIA_PERIODIC_INTERVAL: u64 = 1000;

// ---------------------------------------------------------------------------
// Subtypes
// ---------------------------------------------------------------------------

/// The name of a subtype.
pub open spec fn name_of(s: u8) -> Seq<char> {
    if s == SUBTYPE_IEC61883 {
        "iec61883"@
    } else if s == SUBTYPE_MMA {
        "mma"@
    } else if s == SUBTYPE_AAF {
        "aaf"@
    } else if s == SUBTYPE_CVF {
        "cvf"@
    } else if s == SUBTYPE_CRF {
        "crf"@
    } else if s == SUBTYPE_TSCF {
        "tscf"@
    } else if s == SUBTYPE_SVF {
        "svf"@
    } else if s == SUBTYPE_RVF {
        "rvf"@
    } else if s == SUBTYPE_NTSCF {
        "ntscf"@
    } else if s == SUBTYPE_ESCF {
        "escf"@
    } else if s == SUBTYPE_EECF {
        "eecf"@
    } else if s == SUBTYPE_AEF {
        "aef"@
    } else if s == SUBTYPE_ADP {
        "adp"@
    } else if s == SUBTYPE_AECP {
        "aecp"@
    } else if s == SUBTYPE_ACMP {
        "acmp"@
    } else if s == SUBTYPE_MAAP {
        "maap"@
    } else {
        "unknown"@
    }
}

/// The name of a subtype.
pub fn subtype_name(s: u8) -> (r: &'static str)
    ensures
        r@ == name_of(s),
{
    match s {
        SUBTYPE_IEC61883 => "iec61883",
        SUBTYPE_MMA => "mma",
        SUBTYPE_AAF => "aaf",
        SUBTYPE_CVF => "cvf",
        SUBTYPE_CRF => "crf",
        SUBTYPE_TSCF => "tscf",
        SUBTYPE_SVF => "svf",
        SUBTYPE_RVF => "rvf",
        SUBTYPE_NTSCF => "ntscf",
        SUBTYPE_ESCF => "escf",
        SUBTYPE_EECF => "eecf",
        SUBTYPE_AEF => "aef",
        SUBTYPE_ADP => "adp",
        SUBTYPE_AECP => "aecp",
        SUBTYPE_ACMP => "acmp",
        SUBTYPE_MAAP => "maap",
        _ => "unknown",
    }
}

/// Whether a subtype carries a media stream.
pub open spec fn is_media(s: u8) -> bool {
    s == SUBTYPE_IEC61883 || SUBTYPE_MMA <= s <= SUBTYPE_RVF
}

/// Whether a subtype is a control subtype.
pub open spec fn is_control(s: u8) -> bool {
    ||| SUBTYPE_NTSCF <= s <= SUBTYPE_AEF
    ||| SUBTYPE_ADP <= s <= SUBTYPE_ACMP
    ||| s == SUBTYPE_MAAP
}

/// Whether a subtype carries a media stream.
pub fn is_media_subtype(s: u8) -> (r: bool)
    ensures
        r == is_media(s),
{
    matches!(
        s,
        SUBTYPE_IEC61883 | SUBTYPE_MMA | SUBTYPE_AAF | SUBTYPE_CVF | SUBTYPE_CRF | SUBTYPE_TSCF
            | SUBTYPE_SVF | SUBTYPE_RVF
    )
}

/// A subtype is named `unknown` exactly when it is neither a media nor a control subtype.
pub proof fn unknown_is_neither_media_nor_control(s: u8)
    ensures
        name_of(s) == "unknown"@ <==> !is_media(s) && !is_control(s),
{
    reveal_strlit("unknown");
    reveal_strlit("iec61883");
    reveal_strlit("mma");
    reveal_strlit("aaf");
    reveal_strlit("cvf");
    reveal_strlit("crf");
    reveal_strlit("tscf");
    reveal_strlit("svf");
    reveal_strlit("rvf");
    reveal_strlit("ntscf");
    reveal_strlit("escf");
    reveal_strlit("eecf");
    reveal_strlit("aef");
    reveal_strlit("adp");
    reveal_strlit("aecp");
    reveal_strlit("acmp");
    reveal_strlit("maap");
    assert("unknown"@.len() == 7);
    if is_media(s) || is_control(s) {
        assert(name_of(s).len() != 7);
    }
}

// ---------------------------------------------------------------------------
// Header
// ---------------------------------------------------------------------------

/// The fields of the common header.
#[derive(Debug)]
pub struct AvtpHdr {
    pub subtype: u8,
    pub stream_valid: bool,
    pub version: u8,
    pub media_clock_restart: bool,
    pub timestamp_valid: bool,
    pub stream_id: u64,
}

/// The common header of a frame. A frame shorter than the header has stream id zero.
pub open spec fn header_of(p: Seq<u8>) -> AvtpHdr {
    AvtpHdr {
        subtype: p[0],
        stream_valid: (p[1] >> 7) & 1 == 1,
        version: (p[1] >> 4) & 0x07,
        media_clock_restart: (p[1] >> 3) & 1 == 1,
        timestamp_valid: p[1] & 1 == 1,
        stream_id: if p.len() >= 12 {
            bytes::be64(p, 4)
        } else {
            0
        },
    }
}

/// The common header of a frame.
pub fn parse_hdr(p: &[u8]) -> (r: AvtpHdr)
    requires
        p.len() >= 2,
    ensures
        r == header_of(p@),
{
    let flags = p[1];
    let stream_id: u64 = if p.len() >= 12 {
        get_be64(p, 4)
    } else {
        0
    };
    AvtpHdr {
        subtype: p[0],
        stream_valid: (flags >> 7) & 1 == 1,
        version: (flags >> 4) & 0x07,
        media_clock_restart: (flags >> 3) & 1 == 1,
        timestamp_valid: flags & 1 == 1,
        stream_id,
    }
}

/// The text of a truth value.
pub open spec fn truth(b: bool) -> Seq<char> {
    if b {
        "true"@
    } else {
        "false"@
    }
}

/// The text of a truth value.
pub fn bool_str(b: bool) -> (r: String)
    ensures
        r@ == truth(b),
{
    if b {
        "true".to_owned()
    } else {
        "false".to_owned()
    }
}

/// The big-endian 16-bit number at `off`, where the buffer reaches that far.
pub fn read_u16_be(buf: &[u8], off: usize) -> (r: Option<u16>)
    requires
        off <= usize::MAX - 2,
    ensures
        r == (if off + 2 <= buf@.len() {
            Some(bytes::be16(buf@, off as int))
        } else {
            None
        }),
{
    if off + 2 <= buf.len() {
        Some(get_be16(buf, off))
    } else {
        None
    }
}

/// The big-endian 32-bit number at `off`, where the buffer reaches that far.
pub fn read_u32_be(buf: &[u8], off: usize) -> (r: Option<u32>)
    requires
        off <= usize::MAX - 4,
    ensures
        r == (if off + 4 <= buf@.len() {
            Some(bytes::be32(buf@, off as int))
        } else {
            None
        }),
{
    if off + 4 <= buf.len() {
        Some(get_be32(buf, off))
    } else {
        None
    }
}

/// The big-endian 64-bit number at `off`, where the buffer reaches that far.
pub fn read_u64_be(buf: &[u8], off: usize) -> (r: Option<u64>)
    requires
        off <= usize::MAX - 8,
    ensures
        r == (if off + 8 <= buf@.len() {
            Some(bytes::be64(buf@, off as int))
        } else {
            None
        }),
{
    if off + 8 <= buf.len() {
        Some(get_be64(buf, off))
    } else {
        None
    }
}

// ---------------------------------------------------------------------------
// State
// ---------------------------------------------------------------------------

/// The AVTP decoder.
#[derive(Debug)]
pub struct AvtpDecoder {
    /// Packets seen of each stream, by session key and stream id.
    pub streams: KeyedMap<(String, u64), u64>,
}

/// The packet counts as contracts speak of them.
pub type Streams = Seq<((Seq<char>, u64), u64)>;

impl View for AvtpDecoder {
    type V = Streams;

    open spec fn view(&self) -> Streams {
        self.streams@
    }
}

/// The number of packets that were seen of a stream.
pub open spec fn count_of(s: Streams, key: (Seq<char>, u64)) -> u64 {
    match collections::find(s, key) {
        Some(n) => n,
        None => 0,
    }
}

// ---------------------------------------------------------------------------
// Events
// ---------------------------------------------------------------------------

/// The envelope of a chunk.
pub open spec fn env(c: ChunkView) -> EnvelopeView {
    events::chunk_env(c, TransportProtocol::Ethernet, "avtp"@)
}

/// The attributes of a media packet.
pub open spec fn media_attributes(h: AvtpHdr, name: Seq<char>, sid: Seq<char>) -> Map<
    Seq<char>,
    Seq<char>,
> {
    Map::empty().insert("subtype"@, text::hex0x(h.subtype as nat, 2)).insert(
        "subtype_name"@,
        name,
    ).insert("stream_id_hex"@, sid).insert("version"@, text::dec(h.version as nat)).insert(
        "stream_valid"@,
        truth(h.stream_valid),
    ).insert("timestamp_valid"@, truth(h.timestamp_valid)).insert(
        "media_clock_restart"@,
        truth(h.media_clock_restart),
    )
}

/// The attributes of a media packet.
pub fn media_attrs(hdr: &AvtpHdr, name: &str, sid_hex: &str) -> (r: Attributes)
    ensures
        r@ == media_attributes(*hdr, name@, sid_hex@),
{
    let mut m = Attributes::new();
    m.put_hex("subtype", hdr.subtype, 2);
    m.put("subtype_name", name);
    m.put("stream_id_hex", sid_hex);
    m.put_dec("version", hdr.version);
    m.insert("stream_valid", bool_str(hdr.stream_valid));
    m.insert("timestamp_valid", bool_str(hdr.timestamp_valid));
    m.insert("media_clock_restart", bool_str(hdr.media_clock_restart));
    m
}

/// The report of the `count`-th packet of a stream.
pub open spec fn media_seen(
    capture_id: Seq<char>,
    envelope: EnvelopeView,
    h: AvtpHdr,
    count: u64,
) -> EventView {
    let name = name_of(h.subtype);
    let sid = text::hex(h.stream_id as nat, 16);
    let attrs = media_attributes(h, name, sid);
    events::tx_view(
        capture_id,
        envelope,
        TransactionView {
            object_refs: seq!["stream_id:"@ + sid],
            ..if count == 1 {
                events::plain_tx(
                    "avtp_"@ + name + "_stream_open"@,
                    "observed"@,
                    Some("AVTP "@ + name + " stream first observed stream_id="@ + sid),
                    attrs,
                )
            } else {
                events::plain_tx(
                    "avtp_"@ + name + "_stream_periodic"@,
                    "observed"@,
                    Some(
                        "AVTP "@ + name + " stream_id="@ + sid + " packet_count="@ + text::dec(
                            count as nat,
                        ),
                    ),
                    attrs.insert("packet_count_observed"@, text::dec(count as nat)),
                )
            }
        },
    )
}

/// Whether the `count`-th packet of a stream is reported.
pub open spec fn sampled(count: u64) -> bool {
    count == 1 || count % MEDIA_PERIODIC_INTERVAL == 0
}

/// What a media packet does.
pub open spec fn media_step(s: Streams, c: ChunkView, envelope: EnvelopeView, h: AvtpHdr) -> (
    Streams,
    Seq<EventView>,
) {
    let key = (c.session_key, h.stream_id);
    let count = count_of(s, key).wrapping_add(1);
    (
        collections::put(s, key, count),
        events::push_if(
            Seq::empty(),
            sampled(count),
            media_seen(c.capture_id, envelope, h, count),
        ),
    )
}

/// The report of a control packet other than entity discovery.
pub open spec fn control_seen(
    capture_id: Seq<char>,
    envelope: EnvelopeView,
    h: AvtpHdr,
) -> EventView {
    let name = name_of(h.subtype);
    events::tx_view(
        capture_id,
        envelope,
        events::plain_tx(
            "avtp_"@ + name,
            "observed"@,
            None,
            Map::empty().insert("subtype"@, text::hex0x(h.subtype as nat, 2)).insert(
                "subtype_name"@,
                name,
            ).insert("stream_id_hex"@, text::hex(h.stream_id as nat, 16)),
        ),
    )
}

/// The entity discovery part of a frame: what follows the header and the timestamp.
pub open spec fn adp_part(p: Seq<u8>) -> Seq<u8> {
    if p.len() > 16 {
        p.skip(16)
    } else {
        Seq::empty()
    }
}

/// The big-endian number at `off`, or zero where the bytes end before.
pub open spec fn be64_or_zero(b: Seq<u8>, off: int) -> u64 {
    if off + 8 <= b.len() {
        bytes::be64(b, off)
    } else {
        0
    }
}

/// The big-endian number at `off`, or zero where the bytes end before.
pub open spec fn be32_or_zero(b: Seq<u8>, off: int) -> u32 {
    if off + 4 <= b.len() {
        bytes::be32(b, off)
    } else {
        0
    }
}

/// The big-endian number at `off`, or zero where the bytes end before.
pub open spec fn be16_or_zero(b: Seq<u8>, off: int) -> u16 {
    if off + 2 <= b.len() {
        bytes::be16(b, off)
    } else {
        0
    }
}

/// The byte at `off`, or zero where the bytes end before.
pub open spec fn byte_or_zero(b: Seq<u8>, off: int) -> u8 {
    if off < b.len() {
        b[off]
    } else {
        0
    }
}

/// The message type of an entity discovery part.
pub open spec fn adp_message(a: Seq<u8>) -> u8 {
    if a.len() > 0 {
        (a[0] >> 4) & 0x0F
    } else {
        0
    }
}

/// The operation label of an entity discovery message.
pub open spec fn adp_operation(message_type: u8) -> Seq<char> {
    if message_type == ADP_MSG_ENTITY_AVAILABLE {
        "avtp_adp_entity_available"@
    } else if message_type == ADP_MSG_ENTITY_DEPARTING {
        "avtp_adp_entity_departing"@
    } else if message_type == ADP_MSG_ENTITY_DISCOVER {
        "avtp_adp_entity_discover"@
    } else {
        "avtp_adp_unknown"@
    }
}

/// The role of an entity by what it sends and takes.
pub open spec fn adp_role(talkers: u16, listeners: u16) -> Seq<char> {
    if talkers > 0 && listeners == 0 {
        "avtp_talker"@
    } else if talkers == 0 && listeners > 0 {
        "avtp_listener"@
    } else {
        "avtp_entity"@
    }
}

/// The attributes of an entity discovery message.
pub open spec fn adp_attributes(h: AvtpHdr, a: Seq<u8>) -> Map<Seq<char>, Seq<char>> {
    Map::empty().insert("subtype"@, text::hex0x(h.subtype as nat, 2)).insert(
        "subtype_name"@,
        "adp"@,
    ).insert("message_type"@, text::dec(adp_message(a) as nat)).insert(
        "entity_id_hex"@,
        text::hex(be64_or_zero(a, 4) as nat, 16),
    ).insert("entity_model_id_hex"@, text::hex(be64_or_zero(a, 12) as nat, 16)).insert(
        "entity_capabilities_hex"@,
        text::hex0x(be32_or_zero(a, 20) as nat, 8),
    ).insert("gptp_grandmaster_id_hex"@, text::hex(be64_or_zero(a, 40) as nat, 16)).insert(
        "gptp_domain_number"@,
        text::dec(byte_or_zero(a, 48) as nat),
    ).insert("talker_stream_sources"@, text::dec(be16_or_zero(a, 24) as nat)).insert(
        "listener_stream_sinks"@,
        text::dec(be16_or_zero(a, 28) as nat),
    )
}

/// The events of an entity discovery frame: its transaction, and the entity where it says
/// that it is available.
pub open spec fn adp_events(
    capture_id: Seq<char>,
    envelope: EnvelopeView,
    h: AvtpHdr,
    payload: Seq<u8>,
) -> Seq<EventView> {
    let a = adp_part(payload);
    let eid = text::hex(be64_or_zero(a, 4) as nat, 16);
    let emid = text::hex(be64_or_zero(a, 12) as nat, 16);
    let t = Seq::<EventView>::empty().push(
        events::tx_view(
            capture_id,
            envelope,
            TransactionView {
                object_refs: seq!["entity_id:"@ + eid].push("entity_model_id:"@ + emid),
                ..events::plain_tx(
                    adp_operation(adp_message(a)),
                    "observed"@,
                    Some("ADP entity_id="@ + eid + " model="@ + emid),
                    adp_attributes(h, a),
                )
            },
        ),
    );
    events::push_if(
        t,
        adp_message(a) == ADP_MSG_ENTITY_AVAILABLE,
        events::asset_event_view(
            capture_id,
            envelope,
            events::asset_view(
                "avtp_entity:"@ + eid,
                Some(adp_role(be16_or_zero(a, 24), be16_or_zero(a, 28))),
                None,
                None,
                None,
                "avtp"@,
                Map::empty().insert("avtp_entity_id"@, eid).insert("avtp_entity_model_id"@, emid),
            ),
        ),
    )
}

/// The events of a control frame.
pub open spec fn control_events(
    capture_id: Seq<char>,
    envelope: EnvelopeView,
    h: AvtpHdr,
    payload: Seq<u8>,
) -> Seq<EventView> {
    if h.subtype == SUBTYPE_ADP {
        adp_events(capture_id, envelope, h, payload)
    } else {
        Seq::<EventView>::empty().push(control_seen(capture_id, envelope, h))
    }
}

/// The events of a frame with a subtype that has no name.
pub open spec fn unknown_events(
    capture_id: Seq<char>,
    envelope: EnvelopeView,
    h: AvtpHdr,
    payload: Seq<u8>,
) -> Seq<EventView> {
    let s = text::hex0x(h.subtype as nat, 2);
    Seq::<EventView>::empty().push(
        events::tx_view(
            capture_id,
            envelope,
            events::plain_tx(
                "avtp_unknown_subtype_"@ + s,
                "observed"@,
                None,
                Map::empty().insert("subtype"@, s).insert("subtype_name"@, "unknown_"@ + s),
            ),
        ),
    ).push(
        events::anomaly_view(
            capture_id,
            envelope,
            "avtp"@,
            "low"@,
            "unknown AVTP subtype "@ + s,
            payload,
        ),
    )
}

/// What a frame does.
pub open spec fn step(s: Streams, c: ChunkView) -> (Streams, Seq<EventView>) {
    let p = c.payload;
    if p.len() < 12 {
        (
            s,
            Seq::<EventView>::empty().push(
                events::anomaly_view(
                    c.capture_id,
                    env(c),
                    "avtp"@,
                    "medium"@,
                    "avtp frame shorter than 12-byte common header"@,
                    p,
                ),
            ),
        )
    } else {
        let h = header_of(p);
        if is_media(h.subtype) {
            media_step(s, c, env(c), h)
        } else if name_of(h.subtype) != "unknown"@ {
            (s, control_events(c.capture_id, env(c), h, p))
        } else {
            (s, unknown_events(c.capture_id, env(c), h, p))
        }
    }
}

impl Default for AvtpDecoder {
    fn default() -> (r: Self)
        ensures
            r@ == Streams::empty(),
    {
        AvtpDecoder { streams: KeyedMap::new() }
    }
}

impl AvtpDecoder {
    /// The name of the decoder.
    pub fn name(&self) -> (r: &'static str)
        ensures
            r@ == "avtp"@,
    {
        "avtp"
    }

    /// The traffic that the decoder asks for.
    pub fn interest(&self) -> (r: &'static [DecoderInterest])
        ensures
            r@ == seq![DecoderInterest::EtherType(0x22F0)],
    {
        &[DecoderInterest::EtherType(0x22F0)]
    }

    /// Takes in a frame.
    pub fn on_datagram(&mut self, chunk: &StreamChunk<'_>, out: &mut Vec<BronzeEvent>)
        ensures
            final(self)@ == step(old(self)@, chunk@).0,
            events::events(final(out)@) == events::events(old(out)@) + step(
                old(self)@,
                chunk@,
            ).1,
    {
        let payload = chunk.payload;
        let envelope = chunk_envelope(chunk, TransportProtocol::Ethernet, "avtp");
        if payload.len() < 12 {
            let mut ev = no_events();
            emit(
                &mut ev,
                parse_anomaly_event(
                    chunk.capture_id,
                    envelope,
                    "avtp",
                    "medium",
                    "avtp frame shorter than 12-byte common header",
                    payload,
                ),
            );
            emit_all(out, ev);
            return;
        }
        let hdr = parse_hdr(payload);
        if is_media_subtype(hdr.subtype) {
            self.handle_media(chunk, envelope, &hdr, out);
        } else if !same_text(subtype_name(hdr.subtype), "unknown") {
            self.handle_control(chunk, envelope, &hdr, payload, out);
        } else {
            self.handle_unknown(chunk, envelope, &hdr, payload, out);
        }
    }

    /// Counts a media packet, and reports it where it is due.
    pub fn handle_media(
        &mut self,
        chunk: &StreamChunk<'_>,
        envelope: EventEnvelope,
        hdr: &AvtpHdr,
        out: &mut Vec<BronzeEvent>,
    )
        ensures
            final(self)@ == media_step(old(self)@, chunk@, envelope@, *hdr).0,
            events::events(final(out)@) == events::events(old(out)@) + media_step(
                old(self)@,
                chunk@,
                envelope@,
                *hdr,
            ).1,
    {
        let mut ev = no_events();
        let key = (chunk.session_key.as_str().to_owned(), hdr.stream_id);
        let before: u64 = match self.streams.get(&key) {
            Some(n) => *n,
            None => 0,
        };
        let count: u64 = before.wrapping_add(1);
        self.streams.insert(key, count);
        if count != 1 && count % MEDIA_PERIODIC_INTERVAL != 0 {
            emit_all(out, ev);
            return;
        }
        let name = subtype_name(hdr.subtype);
        let sid_hex = hex_text(hdr.stream_id, 16);
        let mut attrs = media_attrs(hdr, name, sid_hex.as_str());
        let prefix = cat("avtp_", name);
        let about = cat("AVTP ", name);
        let operation;
        let summary;
        if count == 1 {
            operation = cat(prefix.as_str(), "_stream_open");
            summary =
            cat(cat(about.as_str(), " stream first observed stream_id=").as_str(), sid_hex.as_str());
        } else {
            attrs.put_dec("packet_count_observed", count);
            operation = cat(prefix.as_str(), "_stream_periodic");
            let s = cat(cat(about.as_str(), " stream_id=").as_str(), sid_hex.as_str());
            summary = cat(cat(s.as_str(), " packet_count=").as_str(), dec_text(count).as_str());
        }
        emit(
            &mut ev,
            transaction_event(
                chunk.capture_id,
                envelope,
                ProtocolTransaction {
                    operation,
                    status: "observed".to_owned(),
                    request_summary: Some(summary),
                    response_summary: None,
                    object_refs: one_text(cat("stream_id:", sid_hex.as_str())),
                    values: no_values(),
                    attributes: attrs,
                    modbus: None,
                    protocol_fields: None,
                },
            ),
        );
        emit_all(out, ev);
    }

    /// Reports a control packet.
    pub fn handle_control(
        &mut self,
        chunk: &StreamChunk<'_>,
        envelope: EventEnvelope,
        hdr: &AvtpHdr,
        payload: &[u8],
        out: &mut Vec<BronzeEvent>,
    )
        ensures
            final(self)@ == old(self)@,
            events::events(final(out)@) == events::events(old(out)@) + control_events(
                chunk@.capture_id,
                envelope@,
                *hdr,
                payload@,
            ),
    {
        if hdr.subtype == SUBTYPE_ADP {
            self.handle_adp(chunk, envelope, hdr, payload, out);
            return;
        }
        let mut ev = no_events();
        let name = subtype_name(hdr.subtype);
        let mut attrs = Attributes::new();
        attrs.put_hex("subtype", hdr.subtype, 2);
        attrs.put("subtype_name", name);
        attrs.insert("stream_id_hex", hex_text(hdr.stream_id, 16));
        emit(
            &mut ev,
            transaction_event(
                chunk.capture_id,
                envelope,
                plain_transaction(cat("avtp_", name), "observed", None, attrs),
            ),
        );
        emit_all(out, ev);
    }

    /// Reports an entity discovery message.
    pub fn handle_adp(
        &mut self,
        chunk: &StreamChunk<'_>,
        envelope: EventEnvelope,
        hdr: &AvtpHdr,
        payload: &[u8],
        out: &mut Vec<BronzeEvent>,
    )
        ensures
            final(self)@ == old(self)@,
            events::events(final(out)@) == events::events(old(out)@) + adp_events(
                chunk@.capture_id,
                envelope@,
                *hdr,
                payload@,
            ),
    {
        let mut ev = no_events();
        let adp: &[u8] = if payload.len() > 16 {
            cut(payload, 16, payload.len())
        } else {
            cut(payload, 0, 0)
        };
        assert(adp@ =~= adp_part(payload@));
        let message_type: u8 = if adp.len() > 0 {
            (adp[0] >> 4) & 0x0F
        } else {
            0
        };
        let entity_id: u64 = read_u64_be(adp, 4).unwrap_or(0);
        let entity_model_id: u64 = read_u64_be(adp, 12).unwrap_or(0);
        let entity_caps: u32 = read_u32_be(adp, 20).unwrap_or(0);
        let talker_sources: u16 = read_u16_be(adp, 24).unwrap_or(0);
        let listener_sinks: u16 = read_u16_be(adp, 28).unwrap_or(0);
        let gptp_gm_id: u64 = read_u64_be(adp, 40).unwrap_or(0);
        let gptp_domain: u8 = if adp.len() > 48 {
            adp[48]
        } else {
            0
        };
        let eid_hex = hex_text(entity_id, 16);
        let emid_hex = hex_text(entity_model_id, 16);
        let operation = match message_type {
            ADP_MSG_ENTITY_AVAILABLE => "avtp_adp_entity_available",
            ADP_MSG_ENTITY_DEPARTING => "avtp_adp_entity_departing",
            ADP_MSG_ENTITY_DISCOVER => "avtp_adp_entity_discover",
            _ => "avtp_adp_unknown",
        };
        let mut attrs = Attributes::new();
        attrs.put_hex("subtype", hdr.subtype, 2);
        attrs.put("subtype_name", "adp");
        attrs.put_dec("message_type", message_type);
        attrs.put("entity_id_hex", eid_hex.as_str());
        attrs.put("entity_model_id_hex", emid_hex.as_str());
        attrs.put_hex("entity_capabilities_hex", entity_caps, 8);
        attrs.insert("gptp_grandmaster_id_hex", hex_text(gptp_gm_id, 16));
        attrs.put_dec("gptp_domain_number", gptp_domain);
        attrs.put_dec("talker_stream_sources", talker_sources);
        attrs.put_dec("listener_stream_sinks", listener_sinks);
        let summary = cat("ADP entity_id=", eid_hex.as_str());
        let summary = cat(cat(summary.as_str(), " model=").as_str(), emid_hex.as_str());
        let mut refs = one_text(cat("entity_id:", eid_hex.as_str()));
        push_text(&mut refs, cat("entity_model_id:", emid_hex.as_str()));
        emit(
            &mut ev,
            transaction_event(
                chunk.capture_id,
                envelope.copy(),
                ProtocolTransaction {
                    operation: operation.to_owned(),
                    status: "observed".to_owned(),
                    request_summary: Some(summary),
                    response_summary: None,
                    object_refs: refs,
                    values: no_values(),
                    attributes: attrs,
                    modbus: None,
                    protocol_fields: None,
                },
            ),
        );
        if message_type == ADP_MSG_ENTITY_AVAILABLE {
            let role = match (talker_sources > 0, listener_sinks > 0) {
                (true, false) => "avtp_talker",
                (false, true) => "avtp_listener",
                _ => "avtp_entity",
            };
            let mut identifiers = Attributes::new();
            identifiers.put("avtp_entity_id", eid_hex.as_str());
            identifiers.put("avtp_entity_model_id", emid_hex.as_str());
            emit(
                &mut ev,
                asset_event(
                    chunk.capture_id,
                    envelope,
                    asset_observation(
                        cat("avtp_entity:", eid_hex.as_str()),
                        Some(role),
                        None,
                        None,
                        None,
                        "avtp",
                        identifiers,
                    ),
                ),
            );
        }
        emit_all(out, ev);
    }

    /// Reports a packet whose subtype has no name.
    pub fn handle_unknown(
        &mut self,
        chunk: &StreamChunk<'_>,
        envelope: EventEnvelope,
        hdr: &AvtpHdr,
        payload: &[u8],
        out: &mut Vec<BronzeEvent>,
    )
        ensures
            final(self)@ == old(self)@,
            events::events(final(out)@) == events::events(old(out)@) + unknown_events(
                chunk@.capture_id,
                envelope@,
                *hdr,
                payload@,
            ),
    {
        let mut ev = no_events();
        let s = hex0x_text(hdr.subtype, 2);
        let mut attrs = Attributes::new();
        attrs.put("subtype", s.as_str());
        attrs.insert("subtype_name", cat("unknown_", s.as_str()));
        emit(
            &mut ev,
            transaction_event(
                chunk.capture_id,
                envelope.copy(),
                plain_transaction(cat("avtp_unknown_subtype_", s.as_str()), "observed", None, attrs),
            ),
        );
        emit(
            &mut ev,
            parse_anomaly_event(
                chunk.capture_id,
                envelope,
                "avtp",
                "low",
                cat("unknown AVTP subtype ", s.as_str()).as_str(),
                payload,
            ),
        );
        emit_all(out, ev);
    }
}

// ---------------------------------------------------------------------------
// Laws
// ---------------------------------------------------------------------------

/// The packets of a stream are counted from one, and exactly the first and those whose number is
/// a multiple of 1000 are reported, each by one event.
pub proof fn first_and_every_thousandth(s: Streams, c: ChunkView)
    requires
        c.payload.len() >= 12,
        is_media(c.payload[0]),
        count_of(s, (c.session_key, header_of(c.payload).stream_id)) < u64::MAX,
    ensures
        ({
            let key = (c.session_key, header_of(c.payload).stream_id);
            let n = count_of(s, key) + 1;
            &&& collections::find(s, key) is None ==> n == 1
            &&& count_of(step(s, c).0, key) == n
            &&& step(s, c).1.len() == (if n == 1 || n % 1000 == 0 {
                1nat
            } else {
                0nat
            })
        }),
{
    let key = (c.session_key, header_of(c.payload).stream_id);
    collections::put_facts(s, key, count_of(s, key).wrapping_add(1));
}

/// A frame with a whole header that is no media packet is always reported, by one transaction,
/// and changes no counter.
pub proof fn other_packets_are_always_reported(s: Streams, c: ChunkView)
    requires
        c.payload.len() >= 12,
        !is_media(c.payload[0]),
    ensures
        step(s, c).0 == s,
        events::tx_count(step(s, c).1) == 1,
{
    let ev = step(s, c).1;
    reveal_with_fuel(events::tx_count, 4);
    assert(ev.len() >= 1 ==> ev.drop_last().len() == ev.len() - 1);
    assert(ev.len() >= 2 ==> ev.drop_last().last() == ev[ev.len() - 2]);
    assert(ev.len() >= 2 ==> ev.drop_last().drop_last().len() == ev.len() - 2);
    assert(ev.len() >= 3 ==> ev.drop_last().drop_last().last() == ev[ev.len() - 3]);
}

/// A media packet leaves the counters of all other streams as they are.
pub proof fn other_streams_keep_their_count(
    s: Streams,
    c: ChunkView,
    other: (Seq<char>, u64),
)
    requires
        other != (c.session_key, header_of(c.payload).stream_id),
    ensures
        count_of(step(s, c).0, other) == count_of(s, other),
{
    let key = (c.session_key, header_of(c.payload).stream_id);
    collections::put_facts(s, key, count_of(s, key).wrapping_add(1));
}

/// The bits of the second byte and the stream id are read back from their own places.
pub proof fn header_reads_back(subtype: u8, flags: u8, a: u8, b: u8, stream: u64, data: Seq<u8>)
    ensures
        header_of(seq![subtype, flags, a, b] + (bytes::be64_bytes(stream) + data)) == (AvtpHdr {
            subtype,
            stream_valid: flags >= 0x80,
            version: (flags / 16 % 8) as u8,
            media_clock_restart: flags / 8 % 2 == 1,
            timestamp_valid: flags % 2 == 1,
            stream_id: stream,
        }),
{
    let head = seq![subtype, flags, a, b];
    let p = head + (bytes::be64_bytes(stream) + data);
    assert(p.skip(0) =~= p);
    bytes::next_part(p, 0, head, bytes::be64_bytes(stream) + data);
    bytes::next_be(p, 4, 0, 0, stream, data);
    assert(head[0] == subtype && head[1] == flags);
    assert({
        &&& ((flags >> 7) & 1 == 1) == (flags >= 0x80)
        &&& (flags >> 4) & 0x07 == flags / 16 % 8
        &&& ((flags >> 3) & 1 == 1) == (flags / 8 % 2 == 1)
        &&& (flags & 1 == 1) == (flags % 2 == 1)
    }) by (bit_vector);
}

/// The subtypes have their names.
pub proof fn subtypes_are_named(capture_id: Seq<char>, envelope: EnvelopeView, h: AvtpHdr)
    ensures
        ({
            let m = media_seen(capture_id, envelope, h, 1).family->ProtocolTransaction_0.attributes;
            &&& m["subtype"@] == "0x"@ + text::hex(h.subtype as nat, 2)
            &&& m["stream_id_hex"@] == text::hex(h.stream_id as nat, 16)
            &&& m["version"@] == text::dec(h.version as nat)
            &&& h.subtype == 0x00 ==> m["subtype_name"@] == "iec61883"@
            &&& h.subtype == 0x02 ==> m["subtype_name"@] == "mma"@
            &&& h.subtype == 0x03 ==> m["subtype_name"@] == "aaf"@
            &&& h.subtype == 0x04 ==> m["subtype_name"@] == "cvf"@
            &&& h.subtype == 0x05 ==> m["subtype_name"@] == "crf"@
            &&& h.subtype == 0x06 ==> m["subtype_name"@] == "tscf"@
            &&& h.subtype == 0x07 ==> m["subtype_name"@] == "svf"@
            &&& h.subtype == 0x08 ==> m["subtype_name"@] == "rvf"@
            &&& h.subtype == 0x6E ==> m["subtype_name"@] == "ntscf"@
            &&& h.subtype == 0x6F ==> m["subtype_name"@] == "escf"@
            &&& h.subtype == 0x70 ==> m["subtype_name"@] == "eecf"@
            &&& h.subtype == 0x71 ==> m["subtype_name"@] == "aef"@
            &&& h.subtype == 0x7A ==> m["subtype_name"@] == "adp"@
            &&& h.subtype == 0x7B ==> m["subtype_name"@] == "aecp"@
            &&& h.subtype == 0x7C ==> m["subtype_name"@] == "acmp"@
            &&& h.subtype == 0x7E ==> m["subtype_name"@] == "maap"@
            &&& h.subtype != 0x00 && h.subtype != 0x02 && h.subtype != 0x03 && h.subtype != 0x04
                && h.subtype != 0x05 && h.subtype != 0x06 && h.subtype != 0x07 && h.subtype != 0x08
                && h.subtype != 0x6E && h.subtype != 0x6F && h.subtype != 0x70 && h.subtype != 0x71
                && h.subtype != 0x7A && h.subtype != 0x7B && h.subtype != 0x7C && h.subtype != 0x7E
                ==> m["subtype_name"@] == "unknown"@
            &&& m["stream_valid"@] == (if h.stream_valid {
                "true"@
            } else {
                "false"@
            })
            &&& m["timestamp_valid"@] == (if h.timestamp_valid {
                "true"@
            } else {
                "false"@
            })
            &&& m["media_clock_restart"@] == (if h.media_clock_restart {
                "true"@
            } else {
                "false"@
            })
        }),
{
    reveal_strlit("subtype");
    reveal_strlit("subtype_name");
    reveal_strlit("stream_id_hex");
    reveal_strlit("version");
    reveal_strlit("stream_valid");
    reveal_strlit("timestamp_valid");
    reveal_strlit("media_clock_restart");
    assert({
        &&& "subtype"@.len() == 7
        &&& "subtype_name"@.len() == 12
        &&& "stream_id_hex"@.len() == 13
        &&& "version"@.len() == 7
        &&& "stream_valid"@.len() == 12
        &&& "timestamp_valid"@.len() == 15
        &&& "media_clock_restart"@.len() == 19
    });
    assert("subtype"@[0] != "version"@[0]);
    assert("subtype_name"@[1] != "stream_valid"@[1]);
}

/// An ADP message behind its common header: the message type, entity and model, capabilities, stream
/// sources and sinks, and the clock.
#[verifier::opaque]
pub open spec fn adp_bytes(
    kind: u8,
    a: Seq<u8>,
    entity: u64,
    model: u64,
    capabilities: u32,
    talkers: u16,
    b1: Seq<u8>,
    listeners: u16,
    c1: Seq<u8>,
    grandmaster: u64,
    domain: u8,
    rest: Seq<u8>,
) -> Seq<u8> {
    seq![kind] + (a + (bytes::be64_bytes(entity) + (bytes::be64_bytes(model)
        + (bytes::be32_bytes(capabilities) + (bytes::be16_bytes(talkers) + (b1
        + (bytes::be16_bytes(listeners) + (c1 + (bytes::be64_bytes(grandmaster)
        + (seq![domain] + rest))))))))))
}

proof fn adp_bytes_parts(
    kind: u8,
    a: Seq<u8>,
    entity: u64,
    model: u64,
    capabilities: u32,
    talkers: u16,
    b1: Seq<u8>,
    listeners: u16,
    c1: Seq<u8>,
    grandmaster: u64,
    domain: u8,
    rest: Seq<u8>,
)
    requires
        a.len() == 3,
        b1.len() == 2,
        c1.len() == 10,
    ensures
        ({
            let b = adp_bytes(kind, a, entity, model, capabilities,
                talkers, b1, listeners, c1, grandmaster, domain, rest);
            &&& b[0] == kind
            &&& b.subrange(1, 4) == a
            &&& bytes::be64(b, 4) == entity
            &&& bytes::be64(b, 12) == model
            &&& bytes::be32(b, 20) == capabilities
            &&& bytes::be16(b, 24) == talkers
            &&& b.subrange(26, 28) == b1
            &&& bytes::be16(b, 28) == listeners
            &&& b.subrange(30, 40) == c1
            &&& bytes::be64(b, 40) == grandmaster
            &&& b[48] == domain
            &&& b.skip(49) == rest
            &&& b.len() == 49 + rest.len()
        }),
{
    reveal(adp_bytes);
    let t11 = rest;
    let t10 = seq![domain] + t11;
    let t9 = bytes::be64_bytes(grandmaster) + t10;
    let t8 = c1 + t9;
    let t7 = bytes::be16_bytes(listeners) + t8;
    let t6 = b1 + t7;
    let t5 = bytes::be16_bytes(talkers) + t6;
    let t4 = bytes::be32_bytes(capabilities) + t5;
    let t3 = bytes::be64_bytes(model) + t4;
    let t2 = bytes::be64_bytes(entity) + t3;
    let t1 = a + t2;
    let t0 = seq![kind] + t1;
    let b = t0;
    assert(b.skip(0) =~= t0);
    bytes::next_part(b, 0, seq![kind], t1);
    assert(seq![kind][0] == kind);
    bytes::next_part(b, 1, a, t2);
    bytes::next_be(b, 4, 0, 0, entity, t3);
    bytes::next_be(b, 12, 0, 0, model, t4);
    bytes::next_be(b, 20, 0, capabilities, 0, t5);
    bytes::next_be(b, 24, talkers, 0, 0, t6);
    bytes::next_part(b, 26, b1, t7);
    bytes::next_be(b, 28, listeners, 0, 0, t8);
    bytes::next_part(b, 30, c1, t9);
    bytes::next_be(b, 40, 0, 0, grandmaster, t10);
    bytes::next_part(b, 48, seq![domain], t11);
    assert(seq![domain][0] == domain);
}

/// An ADP message is read back, and an entity that becomes available is an asset by its id, with
/// the role of its streams.
pub proof fn entity_is_read_back(
    capture_id: Seq<char>,
    envelope: EnvelopeView,
    h: AvtpHdr,
    head: Seq<u8>,
    kind: u8,
    a: Seq<u8>,
    entity: u64,
    model: u64,
    capabilities: u32,
    talkers: u16,
    b1: Seq<u8>,
    listeners: u16,
    c1: Seq<u8>,
    grandmaster: u64,
    domain: u8,
    rest: Seq<u8>,
)
    requires
        head.len() == 16,
        a.len() == 3,
        b1.len() == 2,
        c1.len() == 10,
    ensures
        ({
            let e = adp_events(
                capture_id,
                envelope,
                h,
                head + adp_bytes(
                    kind,
                    a,
                    entity,
                    model,
                    capabilities,
                    talkers,
                    b1,
                    listeners,
                    c1,
                    grandmaster,
                    domain,
                    rest,
                ),
            );
            let tx = e[0].family->ProtocolTransaction_0;
            let m = tx.attributes;
            let x = e[1].family->AssetObservation_0;
            let id = text::hex(entity as nat, 16);
            &&& m["message_type"@] == text::dec((kind / 16) as nat)
            &&& m["entity_id_hex"@] == id
            &&& m["entity_model_id_hex"@] == text::hex(model as nat, 16)
            &&& m["entity_capabilities_hex"@] == "0x"@ + text::hex(capabilities as nat, 8)
            &&& m["gptp_grandmaster_id_hex"@] == text::hex(grandmaster as nat, 16)
            &&& m["gptp_domain_number"@] == text::dec(domain as nat)
            &&& m["talker_stream_sources"@] == text::dec(talkers as nat)
            &&& m["listener_stream_sinks"@] == text::dec(listeners as nat)
            &&& kind / 16 == 0 ==> tx.operation == "avtp_adp_entity_available"@
            &&& kind / 16 == 1 ==> tx.operation == "avtp_adp_entity_departing"@
            &&& kind / 16 == 2 ==> tx.operation == "avtp_adp_entity_discover"@
            &&& kind / 16 != 0 && kind / 16 != 1 && kind / 16 != 2 ==> tx.operation
                == "avtp_adp_unknown"@
            &&& e.len() == (if kind / 16 == 0 {
                2nat
            } else {
                1
            })
            &&& kind / 16 == 0 ==> {
                &&& x.asset_key == "avtp_entity:"@ + id
                &&& talkers > 0 && listeners == 0 ==> x.role == Some("avtp_talker"@)
                &&& talkers == 0 && listeners > 0 ==> x.role == Some("avtp_listener"@)
                &&& (talkers > 0) == (listeners > 0) ==> x.role == Some("avtp_entity"@)
                &&& x.identifiers["avtp_entity_id"@] == id
                &&& x.identifiers["avtp_entity_model_id"@] == text::hex(model as nat, 16)
            }
        }),
{
    let q = adp_bytes(
        kind,
        a,
        entity,
        model,
        capabilities,
        talkers,
        b1,
        listeners,
        c1,
        grandmaster,
        domain,
        rest,
    );
    adp_bytes_parts(
        kind,
        a,
        entity,
        model,
        capabilities,
        talkers,
        b1,
        listeners,
        c1,
        grandmaster,
        domain,
        rest,
    );
    assert((head + q).skip(16) =~= q);
    assert((kind >> 4) & 0x0F == kind / 16) by (bit_vector);
    reveal_strlit("subtype");
    reveal_strlit("subtype_name");
    reveal_strlit("message_type");
    reveal_strlit("entity_id_hex");
    reveal_strlit("entity_model_id_hex");
    reveal_strlit("entity_capabilities_hex");
    reveal_strlit("gptp_grandmaster_id_hex");
    reveal_strlit("gptp_domain_number");
    reveal_strlit("talker_stream_sources");
    reveal_strlit("listener_stream_sinks");
    reveal_strlit("avtp_entity_id");
    reveal_strlit("avtp_entity_model_id");
    assert({
        &&& "subtype"@.len() == 7
        &&& "subtype_name"@.len() == 12
        &&& "message_type"@.len() == 12
        &&& "entity_id_hex"@.len() == 13
        &&& "entity_model_id_hex"@.len() == 19
        &&& "entity_capabilities_hex"@.len() == 23
        &&& "gptp_grandmaster_id_hex"@.len() == 23
        &&& "gptp_domain_number"@.len() == 18
        &&& "talker_stream_sources"@.len() == 21
        &&& "listener_stream_sinks"@.len() == 21
        &&& "avtp_entity_id"@.len() == 14
        &&& "avtp_entity_model_id"@.len() == 20
    });
    assert("subtype_name"@[0] != "message_type"@[0]);
    assert("entity_capabilities_hex"@[0] != "gptp_grandmaster_id_hex"@[0]);
    assert("talker_stream_sources"@[0] != "listener_stream_sinks"@[0]);
}

} // verus!
