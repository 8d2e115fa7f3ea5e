//! Beckhoff ADS over AMS/TCP, port 48898.
//!
//! The stream is cut into frames of a 6-byte AMS/TCP header (reserved u16, length u32) and
//! the AMS packet that the length counts, whose own header has 32 bytes. Requests wait for
//! the response with the same session, requester and invoke id.

use vstd::prelude::*;

use crate::bytes;
use crate::bytes::{copy_bytes, cut, get_le16, get_le32};
use crate::collections;
use crate::collections::{Attributes, KeySet, KeyedMap};
use crate::events;
use crate::events::{
    asset_event, asset_observation, chunk_envelope, emit, emit_all, no_events, parse_anomaly_event,
    plain_transaction, transaction_event, BronzeEvent, EnvelopeView, EventEnvelope, EventView,
    FamilyView,
};
use crate::packet::{ChunkView, DecoderInterest, StreamChunk, Timestamp, TransportProtocol};
use crate::text;
use crate::text::{cat, dec_text, hex_text};

verus! {

pub const ADS_MAX_DATA_LEN: u32 = 16_777_216;

/// The number of requests that may wait for a response.
pub const ADS_PENDING_CAP: usize = 1024;

pub const AMS_TCP_HDR: usize = 6;

pub const AMS_PKT_HDR: usize = 32;

pub const ADS_MIN_FRAME: usize = 38;

pub const FLAG_RESPONSE: u16 = 0x0001;

// ---------------------------------------------------------------------------
// State
// ---------------------------------------------------------------------------

/// A request whose response has not been seen.
#[derive(Debug)]
pub struct Pending {
    pub capture_id: String,
    pub envelope: EventEnvelope,
    pub operation: String,
    pub attributes: Attributes,
}

/// A pending request as contracts speak of it.
pub struct PendingView {
    pub capture_id: Seq<char>,
    pub envelope: EnvelopeView,
    pub operation: Seq<char>,
    pub attributes: Map<Seq<char>, Seq<char>>,
}

impl View for Pending {
    type V = PendingView;

    open spec fn view(&self) -> PendingView {
        PendingView {
            capture_id: self.capture_id@,
            envelope: self.envelope@,
            operation: self.operation@,
            attributes: self.attributes@,
        }
    }
}

/// The ADS decoder.
#[derive(Debug)]
pub struct AdsDecoder {
    /// Bytes of the stream that do not make a whole frame yet.
    pub buf: Vec<u8>,
    pub pending: KeyedMap<String, Pending>,
    pub seen_netids: KeySet<String>,
}

/// The decoder's state as contracts speak of it.
pub struct AdsState {
    pub buf: Seq<u8>,
    pub pending: Seq<(Seq<char>, PendingView)>,
    pub seen: Set<Seq<char>>,
}

impl View for AdsDecoder {
    type V = AdsState;

    open spec fn view(&self) -> AdsState {
        AdsState { buf: self.buf@, pending: self.pending@, seen: self.seen_netids@ }
    }
}

// ---------------------------------------------------------------------------
// Labels
// ---------------------------------------------------------------------------

/// The text of an AMS net id: six decimal numbers with dots between.
pub open spec fn netid(b: Seq<u8>) -> Seq<char> {
    text::dec(b[0] as nat) + "."@ + text::dec(b[1] as nat) + "."@ + text::dec(b[2] as nat) + "."@
        + text::dec(b[3] as nat) + "."@ + text::dec(b[4] as nat) + "."@ + text::dec(b[5] as nat)
}

/// The text of an AMS net id.
pub fn fmt_netid(b: &[u8]) -> (r: String)
    requires
        b.len() >= 6,
    ensures
        r@ == netid(b@),
{
    let s = cat(cat(dec_text(b[0]).as_str(), ".").as_str(), dec_text(b[1]).as_str());
    let s = cat(cat(s.as_str(), ".").as_str(), dec_text(b[2]).as_str());
    let s = cat(cat(s.as_str(), ".").as_str(), dec_text(b[3]).as_str());
    let s = cat(cat(s.as_str(), ".").as_str(), dec_text(b[4]).as_str());
    cat(cat(s.as_str(), ".").as_str(), dec_text(b[5]).as_str())
}

/// The operation label of a command id.
pub open spec fn operation_of(id: u16) -> Seq<char> {
    if id == 1 {
        "ads_read_device_info"@
    } else if id == 2 {
        "ads_read"@
    } else if id == 3 {
        "ads_write"@
    } else if id == 4 {
        "ads_read_state"@
    } else if id == 5 {
        "ads_write_control"@
    } else if id == 6 {
        "ads_add_device_notification"@
    } else if id == 7 {
        "ads_delete_device_notification"@
    } else if id == 8 {
        "ads_device_notification"@
    } else if id == 9 {
        "ads_read_write"@
    } else {
        "ads_unknown_"@ + text::dec(id as nat)
    }
}

/// The operation label of a command id.
pub fn cmd_operation(id: u16) -> (r: String)
    ensures
        r@ == operation_of(id),
{
    match id {
        1 => "ads_read_device_info".to_owned(),
        2 => "ads_read".to_owned(),
        3 => "ads_write".to_owned(),
        4 => "ads_read_state".to_owned(),
        5 => "ads_write_control".to_owned(),
        6 => "ads_add_device_notification".to_owned(),
        7 => "ads_delete_device_notification".to_owned(),
        8 => "ads_device_notification".to_owned(),
        9 => "ads_read_write".to_owned(),
        _ => cat("ads_unknown_", dec_text(id).as_str()),
    }
}

/// The key that pairs a response with its request: the net id is the requester's.
pub open spec fn key_of(session_key: Seq<char>, requester: Seq<char>, invoke_id: u32) -> Seq<char> {
    session_key + "|"@ + requester + "|"@ + text::dec(invoke_id as nat)
}

fn pending_key(session_key: &str, requester: &str, invoke_id: u32) -> (r: String)
    ensures
        r@ == key_of(session_key@, requester@, invoke_id),
{
    let s = cat(cat(session_key, "|").as_str(), requester);
    cat(cat(s.as_str(), "|").as_str(), dec_text(invoke_id).as_str())
}

// ---------------------------------------------------------------------------
// Events
// ---------------------------------------------------------------------------

/// The envelope of a chunk.
pub open spec fn env(c: ChunkView) -> EnvelopeView {
    events::chunk_env(c, TransportProtocol::Tcp, "ads"@)
}

fn envelope(chunk: &StreamChunk<'_>) -> (r: EventEnvelope)
    ensures
        r@ == env(chunk@),
{
    chunk_envelope(chunk, TransportProtocol::Tcp, "ads")
}

/// An anomaly in a frame that a chunk completed.
pub open spec fn anomaly_of(
    c: ChunkView,
    severity: Seq<char>,
    reason: Seq<char>,
    frame: Seq<u8>,
) -> EventView {
    events::anomaly_view(c.capture_id, env(c), "ads"@, severity, reason, frame)
}

fn anomaly(chunk: &StreamChunk<'_>, severity: &str, reason: &str, frame: &[u8]) -> (r: BronzeEvent)
    ensures
        r@ == anomaly_of(chunk@, severity@, reason@, frame@),
{
    parse_anomaly_event(chunk.capture_id, envelope(chunk), "ads", severity, reason, frame)
}

/// The transaction of a request or response with the given status.
pub open spec fn tx_of(p: PendingView, status: Seq<char>) -> EventView {
    events::tx_view(
        p.capture_id,
        p.envelope,
        events::plain_tx(p.operation, status, None, p.attributes),
    )
}

/// The transaction of a request or response with the given status.
pub fn unpaired_tx(
    capture_id: &str,
    envelope: EventEnvelope,
    operation: String,
    attributes: Attributes,
    status: &str,
) -> (r: BronzeEvent)
    ensures
        r@ == tx_of(
            PendingView {
                capture_id: capture_id@,
                envelope: envelope@,
                operation: operation@,
                attributes: attributes@,
            },
            status@,
        ),
{
    transaction_event(
        capture_id,
        envelope,
        plain_transaction(operation, status, None, attributes),
    )
}

// ---------------------------------------------------------------------------
// Behaviour
// ---------------------------------------------------------------------------

/// The attributes of a frame whose AMS header is `h`.
pub open spec fn attrs_of(h: Seq<u8>) -> Map<Seq<char>, Seq<char>> {
    Map::empty().insert("target_netid"@, netid(h.subrange(0, 6))).insert(
        "target_port"@,
        text::dec(bytes::le16(h, 6) as nat),
    ).insert("source_netid"@, netid(h.subrange(8, 14))).insert(
        "source_port"@,
        text::dec(bytes::le16(h, 14) as nat),
    ).insert("invoke_id"@, text::dec(bytes::le32(h, 28) as nat)).insert(
        "error_code"@,
        text::dec(bytes::le32(h, 24) as nat),
    ).insert("state_flags_hex"@, text::hex0x(bytes::le16(h, 18) as nat, 4))
}

/// The runtime that a net id stands for.
pub open spec fn runtime_seen(c: ChunkView, id: Seq<char>) -> EventView {
    events::asset_event_view(
        c.capture_id,
        env(c),
        events::asset_view(
            id,
            Some("beckhoff_runtime"@),
            None,
            None,
            None,
            "ads"@,
            Map::empty().insert("ams_netid"@, id),
        ),
    )
}

/// The status of an answered request.
pub open spec fn status_of(error_code: u32) -> Seq<char> {
    if error_code == 0 {
        "ok"@
    } else {
        "ads_error_0x"@ + text::hex(error_code as nat, 8)
    }
}

/// The requests that wait once one more does: the one that waited longest leaves when the
/// limit is reached.
pub open spec fn parked(
    pending: Seq<(Seq<char>, PendingView)>,
    key: Seq<char>,
    request: PendingView,
) -> Seq<(Seq<char>, PendingView)> {
    if pending.len() >= ADS_PENDING_CAP {
        collections::put(pending.drop_first(), key, request)
    } else {
        collections::put(pending, key, request)
    }
}

/// What a frame with a whole, plausible AMS header does.
pub open spec fn packet_step(s: AdsState, h: Seq<u8>, frame: Seq<u8>, c: ChunkView) -> (
    AdsState,
    Seq<EventView>,
) {
    let target = netid(h.subrange(0, 6));
    let source = netid(h.subrange(8, 14));
    let command = bytes::le16(h, 16);
    let error_code = bytes::le32(h, 24);
    let invoke_id = bytes::le32(h, 28);
    let seen = AdsState { seen: s.seen.insert(source), ..s };
    let this = PendingView {
        capture_id: c.capture_id,
        envelope: env(c),
        operation: operation_of(command),
        attributes: attrs_of(h),
    };
    let a = events::push_if(
        Seq::empty(),
        !(1 <= command <= 9),
        anomaly_of(c, "low"@, "unknown ADS command ID 0x"@ + text::hex(command as nat, 4), frame),
    );
    let b = events::push_if(a, !s.seen.contains(source), runtime_seen(c, source));
    if bytes::le16(h, 18) & FLAG_RESPONSE != 0 {
        let key = key_of(c.session_key, target, invoke_id);
        (
            AdsState { pending: collections::without(s.pending, key), ..seen },
            match collections::find(s.pending, key) {
                Some(request) => b.push(tx_of(request, status_of(error_code))),
                None => b.push(tx_of(this, "response_only"@)),
            },
        )
    } else {
        let key = key_of(c.session_key, source, invoke_id);
        (AdsState { pending: parked(s.pending, key, this), ..seen }, b)
    }
}

/// What a frame does.
pub open spec fn frame_step(s: AdsState, frame: Seq<u8>, reserved: u16, c: ChunkView) -> (
    AdsState,
    Seq<EventView>,
) {
    let a = events::push_if(
        Seq::empty(),
        reserved != 0,
        anomaly_of(c, "medium"@, "AMS/TCP reserved field non-zero"@, frame),
    );
    let h = frame.skip(6);
    if h.len() < AMS_PKT_HDR {
        (s, a.push(anomaly_of(c, "medium"@, "AMS packet header truncated"@, frame)))
    } else if bytes::le32(h, 20) > ADS_MAX_DATA_LEN {
        (
            s,
            a.push(
                anomaly_of(
                    c,
                    "high"@,
                    "AMS data_len exceeds 16 MiB — likely malformed"@,
                    frame,
                ),
            ),
        )
    } else {
        let r = packet_step(s, h, frame, c);
        (r.0, a + r.1)
    }
}

/// The length of the frame at the start of the buffer, where the buffer holds all of it.
pub open spec fn whole_frame(buf: Seq<u8>) -> Option<int> {
    if buf.len() < ADS_MIN_FRAME || buf.len() < AMS_TCP_HDR + bytes::le32(buf, 2) {
        None
    } else {
        Some(AMS_TCP_HDR + bytes::le32(buf, 2))
    }
}

/// What the whole frames in the buffer do, one after the other.
pub open spec fn drain_step(s: AdsState, c: ChunkView) -> (AdsState, Seq<EventView>)
    decreases s.buf.len(),
{
    match whole_frame(s.buf) {
        None => (s, Seq::empty()),
        Some(total) => {
            let rest = AdsState { buf: s.buf.skip(total), ..s };
            let one = frame_step(rest, s.buf.take(total), bytes::le16(s.buf, 0), c);
            let more = drain_step(one.0, c);
            (more.0, one.1 + more.1)
        },
    }
}

/// What a chunk does: its bytes join those that are left, and whole frames are taken out.
pub open spec fn step(s: AdsState, c: ChunkView) -> (AdsState, Seq<EventView>) {
    drain_step(AdsState { buf: s.buf + c.payload, ..s }, c)
}

/// The events for requests that were never answered, in order of arrival.
pub open spec fn given_up(s: Seq<(Seq<char>, PendingView)>) -> Seq<EventView> {
    Seq::new(s.len(), |i: int| tx_of(s[i].1, "request_only"@))
}

impl Default for AdsDecoder {
    fn default() -> (r: Self)
        ensures
            r@ == (AdsState { buf: Seq::empty(), pending: Seq::empty(), seen: Set::empty() }),
    {
        AdsDecoder { buf: Vec::new(), pending: KeyedMap::new(), seen_netids: KeySet::new() }
    }
}

impl AdsDecoder {
    /// The name of the decoder.
    pub fn name(&self) -> (r: &'static str)
        ensures
            r@ == "ads"@,
    {
        "ads"
    }

    /// The traffic that the decoder asks for.
    pub fn interest(&self) -> (r: &'static [DecoderInterest])
        ensures
            r@ == seq![DecoderInterest::TcpPort(48898)],
    {
        &[DecoderInterest::TcpPort(48898)]
    }

    /// Takes in a chunk of a TCP stream.
    pub fn on_stream_chunk(&mut self, chunk: &StreamChunk<'_>, out: &mut Vec<BronzeEvent>)
        ensures
            final(self)@ == step(old(self)@, chunk@).0,
            events::events(final(out)@) == events::events(old(out)@) + step(
                old(self)@,
                chunk@,
            ).1,
    {
        let mut given = copy_bytes(chunk.payload);
        self.buf.append(&mut given);
        self.drain(chunk, out);
    }

    /// Takes the whole frames out of the buffer.
    pub fn drain(&mut self, chunk: &StreamChunk<'_>, out: &mut Vec<BronzeEvent>)
        ensures
            final(self)@ == drain_step(old(self)@, chunk@).0,
            events::events(final(out)@) == events::events(old(out)@) + drain_step(
                old(self)@,
                chunk@,
            ).1,
    {
        let ghost first = self@;
        let ghost prior = events::events(out@);
        let ghost mut done: Seq<EventView> = Seq::empty();
        assert(prior =~= prior + done);
        assert(drain_step(first, chunk@).1 =~= done + drain_step(self@, chunk@).1);
        loop
            invariant_except_break
                drain_step(first, chunk@).0 == drain_step(self@, chunk@).0,
                drain_step(first, chunk@).1 == done + drain_step(self@, chunk@).1,
                events::events(out@) == prior + done,
            ensures
                self@ == drain_step(first, chunk@).0,
                events::events(out@) == prior + drain_step(first, chunk@).1,
            decreases self.buf.len(),
        {
            if self.buf.len() < ADS_MIN_FRAME {
                assert(done + Seq::<EventView>::empty() =~= done);
                break;
            }
            let reserved = get_le16(self.buf.as_slice(), 0);
            let ams_len = get_le32(self.buf.as_slice(), 2);
            if (self.buf.len() as u64) < 6 + ams_len as u64 {
                assert(done + Seq::<EventView>::empty() =~= done);
                break;
            }
            let total: usize = 6 + ams_len as usize;
            let frame = copy_bytes(cut(self.buf.as_slice(), 0, total));
            let rest = copy_bytes(cut(self.buf.as_slice(), total, self.buf.len()));
            proof {
                assert(frame@ =~= self.buf@.take(total as int));
                assert(rest@ =~= self.buf@.skip(total as int));
            }
            let ghost before = self@;
            self.buf = rest;
            let ghost mid = self@;
            self.process(frame.as_slice(), reserved, chunk, out);
            proof {
                let one = frame_step(mid, frame@, reserved, chunk@);
                assert(drain_step(before, chunk@).1 == one.1 + drain_step(self@, chunk@).1);
                assert(done + (one.1 + drain_step(self@, chunk@).1) =~= (done + one.1)
                    + drain_step(self@, chunk@).1);
                assert(prior + done + one.1 =~= prior + (done + one.1));
                done = done + one.1;
            }
        }
    }

    /// Takes in one frame.
    pub fn process(
        &mut self,
        frame: &[u8],
        reserved: u16,
        chunk: &StreamChunk<'_>,
        out: &mut Vec<BronzeEvent>,
    )
        requires
            frame@.len() >= 6,
        ensures
            final(self)@ == frame_step(old(self)@, frame@, reserved, chunk@).0,
            events::events(final(out)@) == events::events(old(out)@) + frame_step(
                old(self)@,
                frame@,
                reserved,
                chunk@,
            ).1,
    {
        let mut ev = no_events();
        if reserved != 0 {
            emit(&mut ev, anomaly(chunk, "medium", "AMS/TCP reserved field non-zero", frame));
        }
        let h = cut(frame, 6, frame.len());
        assert(h@ =~= frame@.skip(6));
        if h.len() < AMS_PKT_HDR {
            emit(&mut ev, anomaly(chunk, "medium", "AMS packet header truncated", frame));
            emit_all(out, ev);
            return;
        }
        if get_le32(h, 20) > ADS_MAX_DATA_LEN {
            emit(
                &mut ev,
                anomaly(
                    chunk,
                    "high",
                    "AMS data_len exceeds 16 MiB — likely malformed",
                    frame,
                ),
            );
            emit_all(out, ev);
            return;
        }
        self.packet(h, frame, chunk, &mut ev);
        emit_all(out, ev);
    }

    fn packet(
        &mut self,
        h: &[u8],
        frame: &[u8],
        chunk: &StreamChunk<'_>,
        out: &mut Vec<BronzeEvent>,
    )
        requires
            h@.len() >= AMS_PKT_HDR,
        ensures
            final(self)@ == packet_step(old(self)@, h@, frame@, chunk@).0,
            events::events(final(out)@) == events::events(old(out)@) + packet_step(
                old(self)@,
                h@,
                frame@,
                chunk@,
            ).1,
    {
        let mut ev = no_events();
        let tgt_netid = fmt_netid(cut(h, 0, 6));
        let src_netid = fmt_netid(cut(h, 8, 14));
        let cmd_id = get_le16(h, 16);
        let state_flags = get_le16(h, 18);
        let error_code = get_le32(h, 24);
        let invoke_id = get_le32(h, 28);
        let operation = cmd_operation(cmd_id);
        if !(1 <= cmd_id && cmd_id <= 9) {
            let reason = cat("unknown ADS command ID 0x", hex_text(cmd_id, 4).as_str());
            emit(&mut ev, anomaly(chunk, "low", reason.as_str(), frame));
        }
        let mut attrs = Attributes::new();
        attrs.put("target_netid", tgt_netid.as_str());
        attrs.put_dec("target_port", get_le16(h, 6));
        attrs.put("source_netid", src_netid.as_str());
        attrs.put_dec("source_port", get_le16(h, 14));
        attrs.put_dec("invoke_id", invoke_id);
        attrs.put_dec("error_code", error_code);
        attrs.put_hex("state_flags_hex", state_flags, 4);
        if self.seen_netids.insert(src_netid.as_str().to_owned()) {
            let mut ids = Attributes::new();
            ids.put("ams_netid", src_netid.as_str());
            emit(
                &mut ev,
                asset_event(
                    chunk.capture_id,
                    envelope(chunk),
                    asset_observation(
                        src_netid.as_str().to_owned(),
                        Some("beckhoff_runtime"),
                        None,
                        None,
                        None,
                        "ads",
                        ids,
                    ),
                ),
            );
        }
        if state_flags & FLAG_RESPONSE != 0 {
            let status = if error_code == 0 {
                "ok".to_owned()
            } else {
                cat("ads_error_0x", hex_text(error_code, 8).as_str())
            };
            let key = pending_key(chunk.session_key.as_str(), tgt_netid.as_str(), invoke_id);
            match self.pending.remove(&key) {
                Some(p) => emit(
                    &mut ev,
                    unpaired_tx(
                        p.capture_id.as_str(),
                        p.envelope,
                        p.operation,
                        p.attributes,
                        status.as_str(),
                    ),
                ),
                None => emit(
                    &mut ev,
                    unpaired_tx(
                        chunk.capture_id,
                        envelope(chunk),
                        operation,
                        attrs,
                        "response_only",
                    ),
                ),
            }
        } else {
            let key = pending_key(chunk.session_key.as_str(), src_netid.as_str(), invoke_id);
            if self.pending.len() >= ADS_PENDING_CAP {
                self.pending.remove_first();
            }
            self.pending.insert(
                key,
                Pending {
                    capture_id: chunk.capture_id.to_owned(),
                    envelope: envelope(chunk),
                    operation,
                    attributes: attrs,
                },
            );
        }
        emit_all(out, ev);
    }

    /// Gives up every request that waits.
    pub fn on_idle_flush(&mut self, _timestamp: Timestamp, out: &mut Vec<BronzeEvent>)
        ensures
            final(self)@ == (AdsState { pending: Seq::empty(), ..old(self)@ }),
            events::events(final(out)@) == events::events(old(out)@) + given_up(
                old(self)@.pending,
            ),
    {
        let ghost all = self.pending@;
        let ghost prior = events::events(out@);
        let ghost mut n: int = 0;
        assert(all.skip(0) =~= all);
        assert(prior =~= prior + given_up(all.take(0)));
        loop
            invariant_except_break
                0 <= n <= all.len(),
                self.buf@ == old(self)@.buf,
                self.seen_netids@ == old(self)@.seen,
                self.pending@ == all.skip(n),
                events::events(out@) == prior + given_up(all.take(n)),
            ensures
                n == all.len(),
                self.buf@ == old(self)@.buf,
                self.seen_netids@ == old(self)@.seen,
                self.pending@ == all.skip(n),
                events::events(out@) == prior + given_up(all.take(n)),
            decreases self.pending@.len(),
        {
            match self.pending.pop_first() {
                Some((_, p)) => {
                    emit(
                        out,
                        unpaired_tx(
                            p.capture_id.as_str(),
                            p.envelope,
                            p.operation,
                            p.attributes,
                            "request_only",
                        ),
                    );
                    proof {
                        assert(all.skip(n).drop_first() =~= all.skip(n + 1));
                        assert(given_up(all.take(n + 1)) =~= given_up(all.take(n)).push(
                            tx_of(all[n].1, "request_only"@),
                        ));
                        n = n + 1;
                    }
                },
                None => {
                    break;
                },
            }
        }
        assert(all.take(n) =~= all);
        assert(self.pending@ =~= Seq::empty());
    }
}

// ---------------------------------------------------------------------------
// Laws
// ---------------------------------------------------------------------------

proof fn only_the_envelope_counts(s: AdsState, c: ChunkView, d: ChunkView)
    requires
        d == (ChunkView { payload: d.payload, ..c }),
    ensures
        drain_step(s, c) == drain_step(s, d),
    decreases s.buf.len(),
{
    match whole_frame(s.buf) {
        None => {},
        Some(total) => {
            let rest = AdsState { buf: s.buf.skip(total), ..s };
            let frame = s.buf.take(total);
            let r = bytes::le16(s.buf, 0);
            assert(env(c) == env(d));
            assert(frame_step(rest, frame, r, c) == frame_step(rest, frame, r, d));
            only_the_envelope_counts(frame_step(rest, frame, r, c).0, c, d);
        },
    }
}

proof fn frames_leave_the_buffer(s: AdsState, buf: Seq<u8>, frame: Seq<u8>, r: u16, c: ChunkView)
    ensures
        frame_step(AdsState { buf, ..s }, frame, r, c) == (
            AdsState { buf, ..frame_step(s, frame, r, c).0 },
            frame_step(s, frame, r, c).1,
        ),
        frame_step(s, frame, r, c).0.buf == s.buf,
{
}

proof fn drain_in_two(s: AdsState, more: Seq<u8>, c: ChunkView)
    ensures
        ({
            let first = drain_step(s, c);
            let second = drain_step(AdsState { buf: first.0.buf + more, ..first.0 }, c);
            let both = drain_step(AdsState { buf: s.buf + more, ..s }, c);
            &&& both.0 == second.0
            &&& both.1 == first.1 + second.1
        }),
    decreases s.buf.len(),
{
    let joined = AdsState { buf: s.buf + more, ..s };
    match whole_frame(s.buf) {
        None => {
            let all = drain_step(joined, c);
            assert(all.1 =~= Seq::<EventView>::empty() + all.1);
        },
        Some(total) => {
            let frame = s.buf.take(total);
            let r = bytes::le16(s.buf, 0);
            assert(bytes::le32(joined.buf, 2) == bytes::le32(s.buf, 2));
            assert(bytes::le16(joined.buf, 0) == r);
            assert(joined.buf.take(total) =~= frame);
            assert(joined.buf.skip(total) =~= s.buf.skip(total) + more);
            let rest = AdsState { buf: s.buf.skip(total), ..s };
            let one = frame_step(rest, frame, r, c);
            let rest2 = AdsState { buf: s.buf.skip(total) + more, ..s };
            frames_leave_the_buffer(rest, s.buf.skip(total) + more, frame, r, c);
            drain_in_two(one.0, more, c);
            let first = drain_step(one.0, c);
            let second = drain_step(AdsState { buf: first.0.buf + more, ..first.0 }, c);
            assert(drain_step(joined, c).1 =~= one.1 + (first.1 + second.1));
            assert(one.1 + (first.1 + second.1) =~= (one.1 + first.1) + second.1);
        },
    }
}

/// Two chunks that agree in all but their bytes leave the same state, and give the same events, as
/// one chunk with the bytes of both.
pub proof fn frames_may_be_split(s: AdsState, c: ChunkView, a: Seq<u8>, b: Seq<u8>)
    ensures
        ({
            let first = step(s, ChunkView { payload: a, ..c });
            let second = step(first.0, ChunkView { payload: b, ..c });
            let both = step(s, ChunkView { payload: a + b, ..c });
            &&& both.0 == second.0
            &&& both.1 == first.1 + second.1
        }),
{
    let ca = ChunkView { payload: a, ..c };
    let cb = ChunkView { payload: b, ..c };
    let cab = ChunkView { payload: a + b, ..c };
    let first = step(s, ca);
    drain_in_two(AdsState { buf: s.buf + a, ..s }, b, ca);
    only_the_envelope_counts(AdsState { buf: first.0.buf + b, ..first.0 }, ca, cb);
    assert((s.buf + a) + b =~= s.buf + (a + b));
    only_the_envelope_counts(AdsState { buf: s.buf + (a + b), ..s }, ca, cab);
}

/// What the events say, without the envelopes.
pub open spec fn families(ev: Seq<EventView>) -> Seq<FamilyView> {
    Seq::new(ev.len(), |i: int| ev[i].family)
}

/// Whether the same requests wait, capture and envelope apart.
pub open spec fn same_requests(
    p: Seq<(Seq<char>, PendingView)>,
    q: Seq<(Seq<char>, PendingView)>,
) -> bool {
    &&& p.len() == q.len()
    &&& forall|i: int|
        #![trigger p[i]]
        #![trigger q[i]]
        0 <= i < p.len() ==> p[i].0 == q[i].0 && p[i].1.operation == q[i].1.operation
            && p[i].1.attributes == q[i].1.attributes
}

/// Whether two states are the same but for the captures and envelopes of the waiting requests.
pub open spec fn same_state(s: AdsState, t: AdsState) -> bool {
    &&& s.buf == t.buf
    &&& s.seen == t.seen
    &&& same_requests(s.pending, t.pending)
}

/// What a run of chunks does, one after the other.
pub open spec fn run(s: AdsState, chunks: Seq<ChunkView>) -> (AdsState, Seq<EventView>)
    decreases chunks.len(),
{
    if chunks.len() == 0 {
        (s, Seq::empty())
    } else {
        let one = step(s, chunks[0]);
        let more = run(one.0, chunks.drop_first());
        (more.0, one.1 + more.1)
    }
}

/// The bytes of a run of chunks.
pub open spec fn stream(chunks: Seq<ChunkView>) -> Seq<u8>
    decreases chunks.len(),
{
    if chunks.len() == 0 {
        Seq::empty()
    } else {
        chunks[0].payload + stream(chunks.drop_first())
    }
}

/// The number of bytes that the whole frames at the start of the buffer take.
pub open spec fn framed(buf: Seq<u8>) -> int
    decreases buf.len(),
{
    match whole_frame(buf) {
        None => 0,
        Some(total) => total + framed(buf.skip(total)),
    }
}

proof fn same_without(
    p: Seq<(Seq<char>, PendingView)>,
    q: Seq<(Seq<char>, PendingView)>,
    key: Seq<char>,
)
    requires
        same_requests(p, q),
    ensures
        same_requests(collections::without(p, key), collections::without(q, key)),
        match (collections::find(p, key), collections::find(q, key)) {
            (Some(x), Some(y)) => x.operation == y.operation && x.attributes == y.attributes,
            (None, None) => true,
            _ => false,
        },
    decreases p.len(),
{
    if p.len() > 0 {
        let d = p.drop_last();
        let e = q.drop_last();
        assert forall|i: int| 0 <= i < d.len() implies d[i].0 == e[i].0 && d[i].1.operation
            == e[i].1.operation && d[i].1.attributes == e[i].1.attributes by {
            assert(d[i] == p[i]);
            assert(e[i] == q[i]);
        }
        same_without(d, e, key);
        assert(p.last() == p[p.len() - 1]);
        assert(q.last() == q[q.len() - 1]);
    }
}

proof fn same_parked(
    p: Seq<(Seq<char>, PendingView)>,
    q: Seq<(Seq<char>, PendingView)>,
    key: Seq<char>,
    x: PendingView,
    y: PendingView,
)
    requires
        same_requests(p, q),
        x.operation == y.operation,
        x.attributes == y.attributes,
    ensures
        same_requests(parked(p, key, x), parked(q, key, y)),
{
    if p.len() >= ADS_PENDING_CAP {
        let d = p.drop_first();
        let e = q.drop_first();
        assert forall|i: int| 0 <= i < d.len() implies d[i].0 == e[i].0 && d[i].1.operation
            == e[i].1.operation && d[i].1.attributes == e[i].1.attributes by {
            assert(d[i] == p[i + 1]);
            assert(e[i] == q[i + 1]);
        }
        same_without(d, e, key);
    } else {
        same_without(p, q, key);
    }
}

proof fn same_frame_step(
    s: AdsState,
    t: AdsState,
    frame: Seq<u8>,
    r: u16,
    c: ChunkView,
    d: ChunkView,
)
    requires
        same_state(s, t),
        c.session_key == d.session_key,
    ensures
        same_state(frame_step(s, frame, r, c).0, frame_step(t, frame, r, d).0),
        families(frame_step(s, frame, r, c).1) == families(frame_step(t, frame, r, d).1),
{
    let h = frame.skip(6);
    let x = PendingView {
        capture_id: c.capture_id,
        envelope: env(c),
        operation: operation_of(bytes::le16(h, 16)),
        attributes: attrs_of(h),
    };
    let y = PendingView { capture_id: d.capture_id, envelope: env(d), ..x };
    let invoke_id = bytes::le32(h, 28);
    let answer = key_of(c.session_key, netid(h.subrange(0, 6)), invoke_id);
    let request = key_of(c.session_key, netid(h.subrange(8, 14)), invoke_id);
    same_without(s.pending, t.pending, answer);
    same_parked(s.pending, t.pending, request, x, y);
    assert(families(frame_step(s, frame, r, c).1) =~= families(frame_step(t, frame, r, d).1));
}

proof fn same_drain(s: AdsState, t: AdsState, c: ChunkView, d: ChunkView)
    requires
        same_state(s, t),
        c.session_key == d.session_key,
    ensures
        same_state(drain_step(s, c).0, drain_step(t, d).0),
        families(drain_step(s, c).1) == families(drain_step(t, d).1),
    decreases s.buf.len(),
{
    match whole_frame(s.buf) {
        None => {},
        Some(total) => {
            let rest = AdsState { buf: s.buf.skip(total), ..s };
            let rest2 = AdsState { buf: s.buf.skip(total), ..t };
            let frame = s.buf.take(total);
            let r = bytes::le16(s.buf, 0);
            same_frame_step(rest, rest2, frame, r, c, d);
            frames_leave_the_buffer(rest, rest.buf, frame, r, c);
            let one = frame_step(rest, frame, r, c);
            let two = frame_step(rest2, frame, r, d);
            same_drain(one.0, two.0, c, d);
            families_add(one.1, drain_step(one.0, c).1);
            families_add(two.1, drain_step(two.0, d).1);
        },
    }
}

proof fn families_add(a: Seq<EventView>, b: Seq<EventView>)
    ensures
        families(a + b) == families(a) + families(b),
{
    assert(families(a + b) =~= families(a) + families(b));
}

proof fn drain_leaves_the_tail(s: AdsState, c: ChunkView)
    ensures
        drain_step(s, c).0.buf == s.buf.skip(framed(s.buf)),
        0 <= framed(s.buf) <= s.buf.len(),
        whole_frame(s.buf.skip(framed(s.buf))) is None,
    decreases s.buf.len(),
{
    match whole_frame(s.buf) {
        None => {
            assert(s.buf.skip(0) =~= s.buf);
        },
        Some(total) => {
            let rest = AdsState { buf: s.buf.skip(total), ..s };
            let frame = s.buf.take(total);
            let r = bytes::le16(s.buf, 0);
            frames_leave_the_buffer(rest, rest.buf, frame, r, c);
            drain_leaves_the_tail(frame_step(rest, frame, r, c).0, c);
            let n = framed(rest.buf);
            assert(s.buf.skip(total).skip(n) =~= s.buf.skip(total + n));
        },
    }
}

/// How a stream is cut into chunks does not matter: the chunks of a session, whatever their times,
/// frame numbers and hashes, say the same as one chunk of that session with the bytes of all, and
/// leave the same state, envelopes apart. What stays in the buffer is the tail of the stream behind
/// its last whole frame.
pub proof fn chunks_say_what_the_stream_says(s: AdsState, chunks: Seq<ChunkView>, whole: ChunkView)
    requires
        whole_frame(s.buf) is None,
        whole.payload == stream(chunks),
        forall|i: int|
            0 <= i < chunks.len() ==> (#[trigger] chunks[i]).session_key == whole.session_key,
    ensures
        families(run(s, chunks).1) == families(step(s, whole).1),
        same_state(run(s, chunks).0, step(s, whole).0),
        ({
            let all = s.buf + stream(chunks);
            let left = run(s, chunks).0.buf;
            &&& left == all.skip(framed(all))
            &&& left.len() < ADS_MIN_FRAME || left.len() < AMS_TCP_HDR + bytes::le32(left, 2)
        }),
    decreases chunks.len(),
{
    let all = s.buf + stream(chunks);
    drain_leaves_the_tail(AdsState { buf: all, ..s }, whole);
    if chunks.len() == 0 {
        assert(s.buf + whole.payload =~= s.buf);
        assert(same_state(s, s));
    } else {
        let c = chunks[0];
        let rest = chunks.drop_first();
        let first = ChunkView { payload: c.payload, ..whole };
        let second = ChunkView { payload: stream(rest), ..whole };
        let joined = AdsState { buf: s.buf + c.payload, ..s };
        // The first chunk by its own envelope, and by that of the whole.
        let one = step(s, c);
        let two = step(s, first);
        same_drain(joined, joined, c, first);
        drain_leaves_the_tail(joined, c);
        // The others after it.
        assert forall|i: int| 0 <= i < rest.len() implies (#[trigger] rest[i]).session_key
            == second.session_key by {
            assert(rest[i] == chunks[i + 1]);
        }
        chunks_say_what_the_stream_says(one.0, rest, second);
        let after_one = AdsState { buf: one.0.buf + stream(rest), ..one.0 };
        let after_two = AdsState { buf: two.0.buf + stream(rest), ..two.0 };
        same_drain(after_one, after_two, second, second);
        // And the whole, in two parts.
        frames_may_be_split(s, whole, c.payload, stream(rest));
        assert(ChunkView { payload: c.payload + stream(rest), ..whole } == whole);
        families_add(one.1, run(one.0, rest).1);
        families_add(two.1, step(two.0, second).1);
    }
}

/// While no frame is whole, nothing is emitted and every byte is kept.
pub proof fn incomplete_frames_say_nothing(s: AdsState, c: ChunkView)
    requires
        whole_frame(s.buf + c.payload) is None,
    ensures
        step(s, c).1.len() == 0,
        step(s, c).0 == (AdsState { buf: s.buf + c.payload, ..s }),
{
}

proof fn frame_keeps_the_bound(s: AdsState, frame: Seq<u8>, r: u16, c: ChunkView)
    requires
        s.pending.len() <= ADS_PENDING_CAP,
    ensures
        frame_step(s, frame, r, c).0.pending.len() <= ADS_PENDING_CAP,
        frame_step(s, frame, r, c).0.buf == s.buf,
{
    let h = frame.skip(6);
    if h.len() >= AMS_PKT_HDR {
        let this = PendingView {
            capture_id: c.capture_id,
            envelope: env(c),
            operation: operation_of(bytes::le16(h, 16)),
            attributes: attrs_of(h),
        };
        let invoke_id = bytes::le32(h, 28);
        let request = key_of(c.session_key, netid(h.subrange(8, 14)), invoke_id);
        let answer = key_of(c.session_key, netid(h.subrange(0, 6)), invoke_id);
        collections::put_facts(s.pending, request, this);
        if s.pending.len() > 0 {
            collections::put_facts(s.pending.drop_first(), request, this);
        }
        collections::without_facts(s.pending, answer);
    }
}

proof fn drain_keeps_the_bound(s: AdsState, c: ChunkView)
    requires
        s.pending.len() <= ADS_PENDING_CAP,
    ensures
        drain_step(s, c).0.pending.len() <= ADS_PENDING_CAP,
    decreases s.buf.len(),
{
    match whole_frame(s.buf) {
        None => {},
        Some(total) => {
            let rest = AdsState { buf: s.buf.skip(total), ..s };
            let frame = s.buf.take(total);
            let r = bytes::le16(s.buf, 0);
            frame_keeps_the_bound(rest, frame, r, c);
            drain_keeps_the_bound(frame_step(rest, frame, r, c).0, c);
        },
    }
}

/// No more than 1024 requests ever wait.
pub proof fn waiting_is_bounded(s: AdsState, c: ChunkView)
    requires
        s.pending.len() <= ADS_PENDING_CAP,
    ensures
        step(s, c).0.pending.len() <= ADS_PENDING_CAP,
{
    drain_keeps_the_bound(AdsState { buf: s.buf + c.payload, ..s }, c);
}

proof fn netid_has_no_bar(b: Seq<u8>)
    ensures
        !netid(b).contains('|'),
{
    reveal_strlit(".");
    assert("."@ =~= seq!['.']);
    text::dec_has_only_digits(b[0] as nat);
    text::dec_has_only_digits(b[1] as nat);
    text::dec_has_only_digits(b[2] as nat);
    text::dec_has_only_digits(b[3] as nat);
    text::dec_has_only_digits(b[4] as nat);
    text::dec_has_only_digits(b[5] as nat);
    let n = netid(b);
    assert forall|i: int| 0 <= i < n.len() implies #[trigger] n[i] != '|' by {}
}

/// Requests wait under one key exactly when session, net id of the requester and invoke id
/// agree.
pub proof fn pairing_stays_in_session(
    a: Seq<char>,
    x: Seq<u8>,
    i: u32,
    b: Seq<char>,
    y: Seq<u8>,
    j: u32,
)
    ensures
        key_of(a, netid(x), i) == key_of(b, netid(y), j) <==> a == b && netid(x) == netid(y) && i
            == j,
{
    reveal_strlit("|");
    assert("|"@ =~= seq!['|']);
    text::dec_has_only_digits(i as nat);
    text::dec_has_only_digits(j as nat);
    netid_has_no_bar(x);
    netid_has_no_bar(y);
    text::separated_is_injective(
        a + "|"@ + netid(x),
        text::dec(i as nat),
        b + "|"@ + netid(y),
        text::dec(j as nat),
        '|',
    );
    text::separated_is_injective(a, netid(x), b, netid(y), '|');
    text::dec_is_injective(i as nat, j as nat);
}

/// The answer to a request, addressed to the requester with the request's invoke id in the same
/// session, and the request become one transaction with the request's operation and the answer's
/// status. The request does not wait any longer.
pub proof fn request_and_answer_are_one_transaction(
    s: AdsState,
    g: Seq<u8>,
    f: Seq<u8>,
    a: ChunkView,
    h: Seq<u8>,
    e: Seq<u8>,
    b: ChunkView,
)
    requires
        bytes::le16(g, 18) & FLAG_RESPONSE == 0,
        bytes::le16(h, 18) & FLAG_RESPONSE != 0,
        netid(g.subrange(8, 14)) == netid(h.subrange(0, 6)),
        bytes::le32(g, 28) == bytes::le32(h, 28),
        a.session_key == b.session_key,
    ensures
        ({
            let x = packet_step(s, g, f, a);
            let y = packet_step(x.0, h, e, b);
            let request = PendingView {
                capture_id: a.capture_id,
                envelope: env(a),
                operation: operation_of(bytes::le16(g, 16)),
                attributes: attrs_of(g),
            };
            let key = key_of(a.session_key, netid(g.subrange(8, 14)), bytes::le32(g, 28));
            &&& y.1.last() == tx_of(request, status_of(bytes::le32(h, 24)))
            &&& collections::find(y.0.pending, key) is None
        }),
{
    let key = key_of(a.session_key, netid(g.subrange(8, 14)), bytes::le32(g, 28));
    let request = PendingView {
        capture_id: a.capture_id,
        envelope: env(a),
        operation: operation_of(bytes::le16(g, 16)),
        attributes: attrs_of(g),
    };
    collections::put_facts(s.pending, key, request);
    collections::put_facts(s.pending.drop_first(), key, request);
    let w = packet_step(s, g, f, a).0.pending;
    collections::without_facts(w, key);
    collections::find_is_present(collections::without(w, key), key);
}

/// A runtime is shown once: a packet shows its source exactly when that net id is new, and it is
/// not new again.
pub proof fn runtime_is_shown_once(s: AdsState, h: Seq<u8>, frame: Seq<u8>, c: ChunkView)
    ensures
        events::asset_count(packet_step(s, h, frame, c).1) == (if s.seen.contains(
            netid(h.subrange(8, 14)),
        ) {
            0nat
        } else {
            1nat
        }),
        packet_step(s, h, frame, c).0.seen == s.seen.insert(netid(h.subrange(8, 14))),
{
    let ev = packet_step(s, h, frame, c).1;
    reveal_with_fuel(events::asset_count, 4);
    assert(ev.len() >= 1 ==> ev.drop_last().len() == ev.len() - 1);
    assert(ev.len() >= 2 ==> ev.drop_last().last() == ev[ev.len() - 2]);
    assert(ev.len() >= 2 ==> ev.drop_last().drop_last().len() == ev.len() - 2);
    assert(ev.len() >= 3 ==> ev.drop_last().drop_last().last() == ev[ev.len() - 3]);
}

/// A net id is written as its six numbers in their order, with dots between them.
pub proof fn net_ids_are_dotted(b: Seq<u8>)
    requires
        b.len() == 6,
    ensures
        netid(b) == text::joined(Seq::new(6, |i: int| text::dec(b[i] as nat)), "."@),
{
    let s = Seq::new(6, |i: int| text::dec(b[i] as nat));
    reveal_with_fuel(text::joined, 7);
    assert(s.drop_last().len() == 5);
    assert(s.drop_last().drop_last().len() == 4);
    assert(s.drop_last().drop_last().drop_last().len() == 3);
    assert(s.drop_last().drop_last().drop_last().drop_last().len() == 2);
    assert(s.drop_last().drop_last().drop_last().drop_last().drop_last().len() == 1);
    assert(netid(b) =~= text::joined(s, "."@));
}

/// An AMS packet: target and source with their ports, command, state flags, length of the data,
/// error, invoke id, and the data.
#[verifier::opaque]
pub open spec fn ams_packet(
    target: Seq<u8>,
    target_port: u16,
    source: Seq<u8>,
    source_port: u16,
    command: u16,
    flags: u16,
    data_len: u32,
    error_code: u32,
    invoke_id: u32,
    data: Seq<u8>,
) -> Seq<u8> {
    target + (bytes::le16_bytes(target_port) + (source + (bytes::le16_bytes(source_port)
        + (bytes::le16_bytes(command) + (bytes::le16_bytes(flags) + (bytes::le32_bytes(data_len)
        + (bytes::le32_bytes(error_code) + (bytes::le32_bytes(invoke_id) + data))))))))
}

proof fn ams_packet_parts(
    target: Seq<u8>,
    target_port: u16,
    source: Seq<u8>,
    source_port: u16,
    command: u16,
    flags: u16,
    data_len: u32,
    error_code: u32,
    invoke_id: u32,
    data: Seq<u8>,
)
    requires
        target.len() == 6,
        source.len() == 6,
    ensures
        ({
            let b = ams_packet(target, target_port, source, source_port,
                command, flags, data_len, error_code, invoke_id, data);
            &&& b.subrange(0, 6) == target
            &&& bytes::le16(b, 6) == target_port
            &&& b.subrange(8, 14) == source
            &&& bytes::le16(b, 14) == source_port
            &&& bytes::le16(b, 16) == command
            &&& bytes::le16(b, 18) == flags
            &&& bytes::le32(b, 20) == data_len
            &&& bytes::le32(b, 24) == error_code
            &&& bytes::le32(b, 28) == invoke_id
            &&& b.skip(32) == data
            &&& b.len() == 32 + data.len()
        }),
{
    reveal(ams_packet);
    let t9 = data;
    let t8 = bytes::le32_bytes(invoke_id) + t9;
    let t7 = bytes::le32_bytes(error_code) + t8;
    let t6 = bytes::le32_bytes(data_len) + t7;
    let t5 = bytes::le16_bytes(flags) + t6;
    let t4 = bytes::le16_bytes(command) + t5;
    let t3 = bytes::le16_bytes(source_port) + t4;
    let t2 = source + t3;
    let t1 = bytes::le16_bytes(target_port) + t2;
    let t0 = target + t1;
    let b = t0;
    assert(b.skip(0) =~= t0);
    bytes::next_part(b, 0, target, t1);
    bytes::next_le(b, 6, target_port, 0, 0, t2);
    bytes::next_part(b, 8, source, t3);
    bytes::next_le(b, 14, source_port, 0, 0, t4);
    bytes::next_le(b, 16, command, 0, 0, t5);
    bytes::next_le(b, 18, flags, 0, 0, t6);
    bytes::next_le(b, 20, 0, data_len, 0, t7);
    bytes::next_le(b, 24, 0, error_code, 0, t8);
    bytes::next_le(b, 28, 0, invoke_id, 0, t9);
}


/// What a transaction says of an AMS packet: both ends, each by its net id and port, the invoke
/// id, the error and the state flags.
pub open spec fn says_both_ends(
    m: Map<Seq<char>, Seq<char>>,
    target: Seq<u8>,
    target_port: u16,
    source: Seq<u8>,
    source_port: u16,
    flags: u16,
    error_code: u32,
    invoke_id: u32,
) -> bool {
    &&& m["target_netid"@] == netid(target)
    &&& m["target_port"@] == text::dec(target_port as nat)
    &&& m["source_netid"@] == netid(source)
    &&& m["source_port"@] == text::dec(source_port as nat)
    &&& m["invoke_id"@] == text::dec(invoke_id as nat)
    &&& m["error_code"@] == text::dec(error_code as nat)
    &&& m["state_flags_hex"@] == "0x"@ + text::hex(flags as nat, 4)
}

proof fn attributes_say_both_ends(
    target: Seq<u8>,
    target_port: u16,
    source: Seq<u8>,
    source_port: u16,
    command: u16,
    flags: u16,
    data_len: u32,
    error_code: u32,
    invoke_id: u32,
    data: Seq<u8>,
)
    requires
        target.len() == 6,
        source.len() == 6,
    ensures
        says_both_ends(
            attrs_of(ams_packet(target, target_port, source, source_port,
                command, flags, data_len, error_code, invoke_id, data)),
            target,
            target_port,
            source,
            source_port,
            flags,
            error_code,
            invoke_id,
        ),
{
    ams_packet_parts(target, target_port, source, source_port, command, flags, data_len, error_code,
        invoke_id, data);
    reveal_strlit("target_netid");
    reveal_strlit("target_port");
    reveal_strlit("source_netid");
    reveal_strlit("source_port");
    reveal_strlit("invoke_id");
    reveal_strlit("error_code");
    reveal_strlit("state_flags_hex");
    assert({
        &&& "target_netid"@.len() == 12
        &&& "target_port"@.len() == 11
        &&& "source_netid"@.len() == 12
        &&& "source_port"@.len() == 11
        &&& "invoke_id"@.len() == 9
        &&& "error_code"@.len() == 10
        &&& "state_flags_hex"@.len() == 15
    });
    assert("target_netid"@[0] != "source_netid"@[0]);
    assert("target_port"@[0] != "source_port"@[0]);
}

/// A request waits under the session, the net id of its source and its invoke id, and what waits
/// names its ends as the packet does: the target is the end that it is addressed to, the source
/// the one that it comes from.
pub proof fn request_waits_for_its_source(
    s: AdsState,
    target: Seq<u8>,
    target_port: u16,
    source: Seq<u8>,
    source_port: u16,
    command: u16,
    flags: u16,
    data_len: u32,
    error_code: u32,
    invoke_id: u32,
    data: Seq<u8>,
    frame: Seq<u8>,
    c: ChunkView,
)
    requires
        target.len() == 6,
        source.len() == 6,
        flags % 2 == 0,
    ensures
        ({
            let r = packet_step(s, ams_packet(target, target_port,
                source, source_port, command, flags, data_len, error_code,
                invoke_id, data), frame, c);
            let key = c.session_key + "|"@ + netid(source) + "|"@ + text::dec(invoke_id as nat);
            match collections::find(r.0.pending, key) {
                Some(p) => says_both_ends(
                    p.attributes,
                    target,
                    target_port,
                    source,
                    source_port,
                    flags,
                    error_code,
                    invoke_id,
                ) && p.capture_id == c.capture_id && p.envelope == env(c),
                None => false,
            }
        }),
{
    let h = ams_packet(target, target_port, source, source_port,
        command, flags, data_len, error_code, invoke_id, data);
    ams_packet_parts(target, target_port, source, source_port, command, flags, data_len, error_code,
        invoke_id, data);
    attributes_say_both_ends(target, target_port, source, source_port,
        command, flags, data_len, error_code, invoke_id, data);
    response_flag(flags);
    let key = key_of(c.session_key, netid(source), invoke_id);
    let this = PendingView {
        capture_id: c.capture_id,
        envelope: env(c),
        operation: operation_of(command),
        attributes: attrs_of(h),
    };
    collections::put_facts(s.pending, key, this);
    collections::put_facts(s.pending.drop_first(), key, this);
}

proof fn response_flag(flags: u16)
    ensures
        (flags & 0x0001 != 0) == (flags % 2 == 1),
{
    assert((flags & 0x0001 != 0) == (flags % 2 == 1)) by (bit_vector);
}

/// An answer is for the end that it is addressed to: it takes the request that waits under the
/// net id of its target, and with error zero the request was answered well. Where none waits, the
/// answer is a transaction of its own, which names its ends as the packet does.
pub proof fn answer_is_for_its_target(
    s: AdsState,
    target: Seq<u8>,
    target_port: u16,
    source: Seq<u8>,
    source_port: u16,
    command: u16,
    flags: u16,
    data_len: u32,
    error_code: u32,
    invoke_id: u32,
    data: Seq<u8>,
    frame: Seq<u8>,
    c: ChunkView,
)
    requires
        target.len() == 6,
        source.len() == 6,
        flags % 2 == 1,
    ensures
        ({
            let r = packet_step(s, ams_packet(target, target_port,
                source, source_port, command, flags, data_len, error_code,
                invoke_id, data), frame, c);
            let key = c.session_key + "|"@ + netid(target) + "|"@ + text::dec(invoke_id as nat);
            match collections::find(s.pending, key) {
                Some(p) => r.1.last() == events::tx_view(
                    p.capture_id,
                    p.envelope,
                    events::plain_tx(
                        p.operation,
                        if error_code == 0 {
                            "ok"@
                        } else {
                            "ads_error_0x"@ + text::hex(error_code as nat, 8)
                        },
                        None,
                        p.attributes,
                    ),
                ),
                None => {
                    &&& r.1.last().family is ProtocolTransaction
                    &&& r.1.last().family->ProtocolTransaction_0.status == "response_only"@
                    &&& says_both_ends(
                        r.1.last().family->ProtocolTransaction_0.attributes,
                        target,
                        target_port,
                        source,
                        source_port,
                        flags,
                        error_code,
                        invoke_id,
                    )
                },
            }
        }),
{
    ams_packet_parts(target, target_port, source, source_port, command, flags, data_len, error_code,
        invoke_id, data);
    attributes_say_both_ends(target, target_port, source, source_port,
        command, flags, data_len, error_code, invoke_id, data);
    response_flag(flags);
}

/// The runtime that a packet shows is the one that it comes from. It is seen from then on.
pub proof fn runtime_is_the_source(
    s: AdsState,
    target: Seq<u8>,
    target_port: u16,
    source: Seq<u8>,
    source_port: u16,
    command: u16,
    flags: u16,
    data_len: u32,
    error_code: u32,
    invoke_id: u32,
    data: Seq<u8>,
    frame: Seq<u8>,
    c: ChunkView,
)
    requires
        target.len() == 6,
        source.len() == 6,
    ensures
        ({
            let r = packet_step(s, ams_packet(target, target_port,
                source, source_port, command, flags, data_len, error_code,
                invoke_id, data), frame, c);
            &&& forall|i: int|
                0 <= i < r.1.len() && (#[trigger] r.1[i]).family is AssetObservation ==> {
                    let a = r.1[i].family->AssetObservation_0;
                    &&& a.asset_key == netid(source)
                    &&& a.role == Some("beckhoff_runtime"@)
                    &&& a.protocols == seq!["ads"@]
                    &&& a.identifiers["ams_netid"@] == netid(source)
                }
            &&& r.0.seen.contains(netid(source))
        }),
{
    ams_packet_parts(target, target_port, source, source_port, command, flags, data_len, error_code,
        invoke_id, data);
}

/// The operation of a packet is that of its command; a command beyond the nine known ones is
/// reported as an anomaly of low severity, with its frame.
pub proof fn command_is_the_operation(
    s: AdsState,
    target: Seq<u8>,
    target_port: u16,
    source: Seq<u8>,
    source_port: u16,
    command: u16,
    flags: u16,
    data_len: u32,
    error_code: u32,
    invoke_id: u32,
    data: Seq<u8>,
    frame: Seq<u8>,
    c: ChunkView,
)
    requires
        target.len() == 6,
        source.len() == 6,
        flags % 2 == 1,
        collections::find(
            s.pending,
            c.session_key + "|"@ + netid(target) + "|"@ + text::dec(invoke_id as nat),
        ) is None,
    ensures
        ({
            let r = packet_step(s, ams_packet(target, target_port,
                source, source_port, command, flags, data_len, error_code,
                invoke_id, data), frame, c).1;
            let operation = r.last().family->ProtocolTransaction_0.operation;
            &&& command == 1 ==> operation == "ads_read_device_info"@
            &&& command == 2 ==> operation == "ads_read"@
            &&& command == 3 ==> operation == "ads_write"@
            &&& command == 4 ==> operation == "ads_read_state"@
            &&& command == 5 ==> operation == "ads_write_control"@
            &&& command == 6 ==> operation == "ads_add_device_notification"@
            &&& command == 7 ==> operation == "ads_delete_device_notification"@
            &&& command == 8 ==> operation == "ads_device_notification"@
            &&& command == 9 ==> operation == "ads_read_write"@
            &&& command == 0 || command > 9 ==> operation == "ads_unknown_"@ + text::dec(
                command as nat,
            ) && r[0].family == FamilyView::ParseAnomaly(
                events::AnomalyView {
                    decoder: "ads"@,
                    severity: "low"@,
                    reason: "unknown ADS command ID 0x"@ + text::hex(command as nat, 4),
                    raw: frame,
                },
            )
            &&& 1 <= command <= 9 ==> forall|i: int|
                0 <= i < r.len() ==> !((#[trigger] r[i]).family is ParseAnomaly)
        }),
{
    ams_packet_parts(target, target_port, source, source_port, command, flags, data_len, error_code,
        invoke_id, data);
    response_flag(flags);
}

/// A frame on the wire: a reserved field, the length of the packet, and the packet.
#[verifier::opaque]
pub open spec fn ams_frame(
    reserved: u16,
    length: u32,
    packet: Seq<u8>,
    rest: Seq<u8>,
) -> Seq<u8> {
    bytes::le16_bytes(reserved) + (bytes::le32_bytes(length) + (packet + rest))
}

proof fn ams_frame_parts(
    reserved: u16,
    length: u32,
    packet: Seq<u8>,
    rest: Seq<u8>,
)
    ensures
        ({
            let b = ams_frame(reserved, length, packet, rest);
            &&& bytes::le16(b, 0) == reserved
            &&& bytes::le32(b, 2) == length
            &&& b.subrange(6, 6int + packet.len()) == packet
            &&& b.skip(6int + packet.len()) == rest
            &&& b.len() == 6int + packet.len() + rest.len()
        }),
{
    reveal(ams_frame);
    let t3 = rest;
    let t2 = packet + t3;
    let t1 = bytes::le32_bytes(length) + t2;
    let t0 = bytes::le16_bytes(reserved) + t1;
    let b = t0;
    assert(b.skip(0) =~= t0);
    bytes::next_le(b, 0, reserved, 0, 0, t1);
    bytes::next_le(b, 2, 0, length, 0, t2);
    bytes::next_part(b, 6, packet, t3);
}

/// A frame is its length and a packet of that length: what stands behind it is the next frame.
pub proof fn frames_are_cut_by_their_length(s: AdsState, packet: Seq<u8>, rest: Seq<u8>)
    requires
        32 <= packet.len() <= 0xFFFF_FFFF,
    ensures
        ({
            let b = ams_frame(0, packet.len() as u32, packet, rest);
            &&& whole_frame(b) == Some(6int + packet.len())
            &&& b.take((6 + packet.len()) as int).skip(6) == packet
            &&& b.skip((6 + packet.len()) as int) == rest
        }),
{
    let b = ams_frame(0, packet.len() as u32, packet, rest);
    ams_frame_parts(0, packet.len() as u32, packet, rest);
    assert(b.take((6 + packet.len()) as int).skip(6) =~= b.subrange(6, (6 + packet.len()) as int));
}

/// A frame whose data is said to be longer than sixteen megabytes is an anomaly of high severity
/// and changes nothing; one with something in its reserved field is reported, and read.
pub proof fn odd_frames_are_reported(
    s: AdsState,
    reserved: u16,
    target: Seq<u8>,
    target_port: u16,
    source: Seq<u8>,
    source_port: u16,
    command: u16,
    flags: u16,
    data_len: u32,
    error_code: u32,
    invoke_id: u32,
    data: Seq<u8>,
    head: Seq<u8>,
    c: ChunkView,
)
    requires
        head.len() == 6,
        target.len() == 6,
        source.len() == 6,
    ensures
        ({
            let h = ams_packet(target, target_port, source, source_port,
                command, flags, data_len, error_code, invoke_id, data);
            let r = frame_step(s, head + h, reserved, c);
            &&& reserved != 0 ==> r.1[0].family == FamilyView::ParseAnomaly(
                events::AnomalyView {
                    decoder: "ads"@,
                    severity: "medium"@,
                    reason: "AMS/TCP reserved field non-zero"@,
                    raw: head + h,
                },
            )
            &&& data_len > 16_777_216 ==> r.0 == s && r.1.last().family
                == FamilyView::ParseAnomaly(
                events::AnomalyView {
                    decoder: "ads"@,
                    severity: "high"@,
                    reason: "AMS data_len exceeds 16 MiB — likely malformed"@,
                    raw: head + h,
                },
            )
            &&& data_len <= 16_777_216 ==> r.0 == packet_step(s, h, head + h, c).0
            &&& data_len <= 16_777_216 && reserved == 0 ==> r.1 == packet_step(
                s,
                h,
                head + h,
                c,
            ).1
        }),
{
    let h = ams_packet(target, target_port, source, source_port,
        command, flags, data_len, error_code, invoke_id, data);
    ams_packet_parts(target, target_port, source, source_port, command, flags, data_len, error_code,
        invoke_id, data);
    assert((head + h).skip(6) =~= h);
}

} // verus!
