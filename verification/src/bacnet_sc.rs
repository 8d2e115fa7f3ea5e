//! BACnet/SC (BACnet Secure Connect), TCP ports 47808 and 4843.
//!
//! BACnet/SC runs inside a TLS-wrapped WebSocket, which a passive sensor cannot look into:
//! of such a session only its existence and its endpoint are reported, once. Plaintext
//! BVLC-SC headers occur on test benches; of those every frame is reported. A BVLC-SC
//! header is a function byte, a control byte and a big-endian message id, then the
//! originating and the destination virtual MAC as far as the control byte declares them.
//! Reserved control bits of a known function are an anomaly; the frame is read all the same.

use vstd::prelude::*;

use crate::bytes;
use crate::bytes::{cut, get_be16};
use crate::collections;
use crate::collections::Attributes;
use crate::events;
use crate::events::{
    asset_event, asset_observation, chunk_envelope, emit, emit_all, no_events, parse_anomaly_event,
    plain_transaction, transaction_event, BronzeEvent, EnvelopeView, EventEnvelope, EventView,
};
use crate::packet;
use crate::packet::{
    context_remote_asset_key, ChunkView, DecoderInterest, PacketContext, StreamChunk,
    TransportProtocol,
};
use crate::text;
use crate::text::{cat, hex0x_text, hex_encode, opt_copy};

verus! {

pub const BVLC_RESULT: u8 = 0x00;

pub const BVLC_ENCAPSULATED_NPDU: u8 = 0x01;

pub const BVLC_ADDRESS_RESOLUTION: u8 = 0x02;

pub const BVLC_ADDRESS_RESOLUTION_ACK: u8 = 0x03;

pub const BVLC_ADVERTISEMENT: u8 = 0x04;

pub const BVLC_ADVERTISEMENT_SOLICITATION: u8 = 0x05;

pub const BVLC_CONNECT_REQUEST: u8 = 0x06;

pub const BVLC_CONNECT_ACCEPT: u8 = 0x07;

pub const BVLC_DISCONNECT_REQUEST: u8 = 0x08;

pub const BVLC_DISCONNECT_ACK: u8 = 0x09;

pub const BVLC_HEARTBEAT_REQUEST: u8 = 0x0A;

pub const BVLC_HEARTBEAT_ACK: u8 = 0x0B;

pub const BVLC_PROPRIETARY_MESSAGE: u8 = 0x0C;

/// The highest function code that is defined.
pub const BVLC_MAX_KNOWN: u8 = 0x0C;

/// The destination virtual MAC is present.
pub const FLAG_DST_VMAC: u8 = 0x01;

/// The originating virtual MAC is present.
pub const FLAG_ORIG_VMAC: u8 = 0x02;

/// The control bits without a meaning: the low four say which optional parts are present.
pub const RESERVED_FLAGS_MASK: u8 = 0xF0;

pub const TLS_CHANGE_CIPHER_SPEC: u8 = 0x14;

pub const TLS_ALERT: u8 = 0x15;

pub const TLS_HANDSHAKE: u8 = 0x16;

pub const TLS_APPLICATION_DATA: u8 = 0x17;

/// The length of a virtual MAC.
pub const VMAC_LEN: usize = 6;

/// The operation label of a BVLC-SC function.
pub open spec fn operation_of(function: u8) -> Seq<char> {
    if function == BVLC_RESULT {
        "bacnet_sc_result"@
    } else if function == BVLC_ENCAPSULATED_NPDU {
        "bacnet_sc_encapsulated_npdu"@
    } else if function == BVLC_ADDRESS_RESOLUTION {
        "bacnet_sc_address_resolution"@
    } else if function == BVLC_ADDRESS_RESOLUTION_ACK {
        "bacnet_sc_address_resolution_ack"@
    } else if function == BVLC_ADVERTISEMENT {
        "bacnet_sc_advertisement"@
    } else if function == BVLC_ADVERTISEMENT_SOLICITATION {
        "bacnet_sc_advertisement_solicitation"@
    } else if function == BVLC_CONNECT_REQUEST {
        "bacnet_sc_connect_request"@
    } else if function == BVLC_CONNECT_ACCEPT {
        "bacnet_sc_connect_accept"@
    } else if function == BVLC_DISCONNECT_REQUEST {
        "bacnet_sc_disconnect_request"@
    } else if function == BVLC_DISCONNECT_ACK {
        "bacnet_sc_disconnect_ack"@
    } else if function == BVLC_HEARTBEAT_REQUEST {
        "bacnet_sc_heartbeat_request"@
    } else if function == BVLC_HEARTBEAT_ACK {
        "bacnet_sc_heartbeat_ack"@
    } else if function == BVLC_PROPRIETARY_MESSAGE {
        "bacnet_sc_proprietary_message"@
    } else {
        "bacnet_sc_unknown_"@ + text::hex0x(function as nat, 2)
    }
}

/// The operation label of a BVLC-SC function.
pub fn bvlc_operation_name(function: u8) -> (r: String)
    ensures
        r@ == operation_of(function),
{
    match function {
        BVLC_RESULT => "bacnet_sc_result".to_owned(),
        BVLC_ENCAPSULATED_NPDU => "bacnet_sc_encapsulated_npdu".to_owned(),
        BVLC_ADDRESS_RESOLUTION => "bacnet_sc_address_resolution".to_owned(),
        BVLC_ADDRESS_RESOLUTION_ACK => "bacnet_sc_address_resolution_ack".to_owned(),
        BVLC_ADVERTISEMENT => "bacnet_sc_advertisement".to_owned(),
        BVLC_ADVERTISEMENT_SOLICITATION => "bacnet_sc_advertisement_solicitation".to_owned(),
        BVLC_CONNECT_REQUEST => "bacnet_sc_connect_request".to_owned(),
        BVLC_CONNECT_ACCEPT => "bacnet_sc_connect_accept".to_owned(),
        BVLC_DISCONNECT_REQUEST => "bacnet_sc_disconnect_request".to_owned(),
        BVLC_DISCONNECT_ACK => "bacnet_sc_disconnect_ack".to_owned(),
        BVLC_HEARTBEAT_REQUEST => "bacnet_sc_heartbeat_request".to_owned(),
        BVLC_HEARTBEAT_ACK => "bacnet_sc_heartbeat_ack".to_owned(),
        BVLC_PROPRIETARY_MESSAGE => "bacnet_sc_proprietary_message".to_owned(),
        other => cat("bacnet_sc_unknown_", hex0x_text(other, 2).as_str()),
    }
}

/// The text of a virtual MAC: its bytes as lower-case hexadecimal digits.
pub fn format_vmac(mac: &[u8]) -> (r: String)
    ensures
        r@ == text::hex_bytes(mac@),
{
    hex_encode(mac)
}

/// The key of the destination asset.
pub fn dst_asset_key(context: &PacketContext) -> (r: String)
    ensures
        r@ == packet::asset_key(context@.dst_ip, context@.dst_mac),
{
    context_remote_asset_key(context)
}

/// The envelope of a chunk.
pub open spec fn env(c: ChunkView) -> EnvelopeView {
    events::chunk_env(c, TransportProtocol::Tcp, "bacnet_sc"@)
}

fn envelope(chunk: &StreamChunk<'_>) -> (r: EventEnvelope)
    ensures
        r@ == env(chunk@),
{
    chunk_envelope(chunk, TransportProtocol::Tcp, "bacnet_sc")
}

/// A low-severity anomaly in a chunk.
pub open spec fn anomaly_of(c: ChunkView, reason: Seq<char>) -> EventView {
    events::anomaly_view(c.capture_id, env(c), "bacnet_sc"@, "low"@, reason, c.payload)
}

fn anomaly(chunk: &StreamChunk<'_>, reason: &str) -> (r: BronzeEvent)
    ensures
        r@ == anomaly_of(chunk@, reason@),
{
    parse_anomaly_event(chunk.capture_id, envelope(chunk), "bacnet_sc", "low", reason, chunk.payload)
}

/// Whether a byte is the type of a TLS record.
pub open spec fn is_tls(b: u8) -> bool {
    TLS_CHANGE_CIPHER_SPEC <= b <= TLS_APPLICATION_DATA
}

/// The events of the first TLS record of a session: the session, and its endpoint.
pub open spec fn tls_events(c: ChunkView) -> Seq<EventView> {
    Seq::<EventView>::empty().push(
        events::tx_view(
            c.capture_id,
            env(c),
            events::plain_tx(
                "bacnet_sc_tls_session"@,
                "observed"@,
                None,
                Map::empty().insert("note"@, "TLS-wrapped WebSocket; payload opaque"@),
            ),
        ),
    ).push(
        events::asset_event_view(
            c.capture_id,
            env(c),
            events::asset_view(
                packet::asset_key(c.context.dst_ip, c.context.dst_mac),
                Some("bacnet_sc_endpoint"@),
                None,
                None,
                None,
                "bacnet_sc"@,
                Map::empty().insert("port"@, text::dec(c.context.dst_port as nat)),
            ),
        ),
    )
}

/// Where the destination virtual MAC stands.
pub open spec fn dst_offset(control: u8) -> int {
    if control & FLAG_ORIG_VMAC != 0 {
        10
    } else {
        4
    }
}

/// The originating virtual MAC of a frame that is long enough.
pub open spec fn orig_vmac(p: Seq<u8>) -> Option<Seq<char>> {
    if p[1] & FLAG_ORIG_VMAC != 0 {
        Some(text::hex_bytes(p.subrange(4, 10)))
    } else {
        None
    }
}

/// The destination virtual MAC of a frame that is long enough.
pub open spec fn dst_vmac(p: Seq<u8>) -> Option<Seq<char>> {
    let o = dst_offset(p[1]);
    if p[1] & FLAG_DST_VMAC != 0 {
        Some(text::hex_bytes(p.subrange(o, o + 6)))
    } else {
        None
    }
}

/// The node that a frame comes from.
pub open spec fn node_seen(c: ChunkView, vmac: Seq<char>) -> EventView {
    events::asset_event_view(
        c.capture_id,
        env(c),
        events::asset_view(
            vmac,
            Some("bacnet_sc_node"@),
            None,
            None,
            None,
            "bacnet_sc"@,
            Map::empty().insert("vmac"@, vmac),
        ),
    )
}

/// Whether a frame of a known function has reserved control bits set.
pub open spec fn reserved_bits(p: Seq<u8>) -> bool {
    p[1] & RESERVED_FLAGS_MASK != 0 && p[0] <= BVLC_MAX_KNOWN
}

/// The events of a plaintext frame.
pub open spec fn frame_events(c: ChunkView) -> Seq<EventView> {
    let p = c.payload;
    let none = Seq::<EventView>::empty();
    let bits = events::push_if(
        none,
        reserved_bits(p),
        anomaly_of(c, "BVLC-SC reserved control bits set"@),
    );
    if p.len() < 4 {
        none.push(anomaly_of(c, "BVLC-SC header truncated (< 4 bytes)"@))
    } else if p[1] & FLAG_ORIG_VMAC != 0 && p.len() < 10 {
        bits.push(anomaly_of(c, "BVLC-SC originating VMAC declared but not enough bytes"@))
    } else if p[1] & FLAG_DST_VMAC != 0 && p.len() < dst_offset(p[1]) + 6 {
        bits.push(anomaly_of(c, "BVLC-SC destination VMAC declared but not enough bytes"@))
    } else {
        let attrs = Map::empty().insert("function_code"@, text::hex0x(p[0] as nat, 2)).insert(
            "control_flags_hex"@,
            text::hex0x(p[1] as nat, 2),
        ).insert("message_id"@, text::dec(bytes::be16(p, 2) as nat));
        let attrs = collections::insert_opt(attrs, "originating_vmac"@, orig_vmac(p));
        let attrs = collections::insert_opt(attrs, "destination_vmac"@, dst_vmac(p));
        let a = events::push_if(
            bits,
            p[0] > BVLC_MAX_KNOWN,
            anomaly_of(c, "unknown BVLC-SC function code "@ + text::hex0x(p[0] as nat, 2)),
        );
        let t = a.push(
            events::tx_view(
                c.capture_id,
                env(c),
                events::plain_tx(operation_of(p[0]), "observed"@, None, attrs),
            ),
        );
        match orig_vmac(p) {
            Some(vmac) => t.push(node_seen(c, vmac)),
            None => t,
        }
    }
}

/// What a chunk does: `reported` says whether the session's TLS was already reported.
pub open spec fn step(reported: bool, c: ChunkView) -> (bool, Seq<EventView>) {
    if c.payload.len() == 0 {
        (reported, Seq::empty())
    } else if is_tls(c.payload[0]) {
        (
            true,
            if reported {
                Seq::empty()
            } else {
                tls_events(c)
            },
        )
    } else {
        (reported, frame_events(c))
    }
}

/// The BACnet/SC decoder of one session.
#[derive(Debug)]
pub struct BacnetScDecoder {
    /// Whether the TLS session was already reported.
    pub tls_session_emitted: bool,
}

impl View for BacnetScDecoder {
    type V = bool;

    open spec fn view(&self) -> bool {
        self.tls_session_emitted
    }
}

impl Default for BacnetScDecoder {
    fn default() -> (r: Self)
        ensures
            r@ == false,
    {
        BacnetScDecoder { tls_session_emitted: false }
    }
}

impl BacnetScDecoder {
    /// The name of the decoder.
    pub fn name(&self) -> (r: &'static str)
        ensures
            r@ == "bacnet_sc"@,
    {
        "bacnet_sc"
    }

    /// The traffic that the decoder asks for: the BACnet/IP port number reused for TCP, and
    /// the hub-direct port of some deployments.
    pub fn interest(&self) -> (r: &'static [DecoderInterest])
        ensures
            r@ == seq![DecoderInterest::TcpPort(47808), DecoderInterest::TcpPort(4843)],
    {
        &[DecoderInterest::TcpPort(47808), DecoderInterest::TcpPort(4843)]
    }

    /// Takes in a chunk of a TCP stream.
    pub fn on_stream_chunk(&mut self, chunk: &StreamChunk<'_>, out: &mut Vec<BronzeEvent>)
        ensures
            final(self)@ == step(old(self)@, chunk@).0,
            events::events(final(out)@) == events::events(old(out)@) + step(
                old(self)@,
                chunk@,
            ).1,
    {
        let mut ev = no_events();
        let payload = chunk.payload;
        if payload.len() == 0 {
            emit_all(out, ev);
            return;
        }
        let is_tls = matches!(
            payload[0],
            TLS_CHANGE_CIPHER_SPEC | TLS_ALERT | TLS_HANDSHAKE | TLS_APPLICATION_DATA
        );
        if is_tls {
            if !self.tls_session_emitted {
                self.tls_session_emitted = true;
                let mut attrs = Attributes::new();
                attrs.put("note", "TLS-wrapped WebSocket; payload opaque");
                emit(
                    &mut ev,
                    transaction_event(
                        chunk.capture_id,
                        envelope(chunk),
                        plain_transaction("bacnet_sc_tls_session".to_owned(), "observed", None, attrs),
                    ),
                );
                let mut identifiers = Attributes::new();
                identifiers.put_dec("port", chunk.context.dst_port);
                emit(
                    &mut ev,
                    asset_event(
                        chunk.capture_id,
                        envelope(chunk),
                        asset_observation(
                            dst_asset_key(&chunk.context),
                            Some("bacnet_sc_endpoint"),
                            None,
                            None,
                            None,
                            "bacnet_sc",
                            identifiers,
                        ),
                    ),
                );
            }
            emit_all(out, ev);
            return;
        }
        if payload.len() < 4 {
            emit(&mut ev, anomaly(chunk, "BVLC-SC header truncated (< 4 bytes)"));
            emit_all(out, ev);
            return;
        }
        let function = payload[0];
        let control = payload[1];
        let message_id = get_be16(payload, 2);
        if control & RESERVED_FLAGS_MASK != 0 && function <= BVLC_MAX_KNOWN {
            emit(&mut ev, anomaly(chunk, "BVLC-SC reserved control bits set"));
        }
        let mut cursor: usize = 4;
        let mut orig: Option<String> = None;
        let mut dst: Option<String> = None;
        if control & FLAG_ORIG_VMAC != 0 {
            if cursor + VMAC_LEN > payload.len() {
                emit(
                    &mut ev,
                    anomaly(chunk, "BVLC-SC originating VMAC declared but not enough bytes"),
                );
                emit_all(out, ev);
                return;
            }
            orig = Some(format_vmac(cut(payload, cursor, cursor + VMAC_LEN)));
            cursor = cursor + VMAC_LEN;
        }
        if control & FLAG_DST_VMAC != 0 {
            if cursor + VMAC_LEN > payload.len() {
                emit(
                    &mut ev,
                    anomaly(chunk, "BVLC-SC destination VMAC declared but not enough bytes"),
                );
                emit_all(out, ev);
                return;
            }
            dst = Some(format_vmac(cut(payload, cursor, cursor + VMAC_LEN)));
        }
        let operation = bvlc_operation_name(function);
        let mut attrs = Attributes::new();
        attrs.put_hex("function_code", function, 2);
        attrs.put_hex("control_flags_hex", control, 2);
        attrs.put_dec("message_id", message_id);
        attrs.insert_some("originating_vmac", opt_copy(&orig));
        attrs.insert_some("destination_vmac", dst);
        if function > BVLC_MAX_KNOWN {
            let reason = cat("unknown BVLC-SC function code ", hex0x_text(function, 2).as_str());
            emit(&mut ev, anomaly(chunk, reason.as_str()));
        }
        emit(
            &mut ev,
            transaction_event(
                chunk.capture_id,
                envelope(chunk),
                plain_transaction(operation, "observed", None, attrs),
            ),
        );
        match orig {
            Some(vmac) => {
                let mut identifiers = Attributes::new();
                identifiers.put("vmac", vmac.as_str());
                emit(
                    &mut ev,
                    asset_event(
                        chunk.capture_id,
                        envelope(chunk),
                        asset_observation(
                            vmac,
                            Some("bacnet_sc_node"),
                            None,
                            None,
                            None,
                            "bacnet_sc",
                            identifiers,
                        ),
                    ),
                );
            },
            None => {},
        }
        emit_all(out, ev);
    }
}

/// Whether the session's TLS was reported, after a run of chunks.
pub open spec fn after(reported: bool, run: Seq<ChunkView>) -> bool
    decreases run.len(),
{
    if run.len() == 0 {
        reported
    } else {
        after(step(reported, run[0]).0, run.drop_first())
    }
}

proof fn reported_stays(run: Seq<ChunkView>)
    ensures
        after(true, run),
    decreases run.len(),
{
    if run.len() > 0 {
        reported_stays(run.drop_first());
    }
}

/// After a TLS record, no later TLS record of the session gives an event, whatever came
/// between.
pub proof fn tls_session_is_reported_once(
    reported: bool,
    first: ChunkView,
    between: Seq<ChunkView>,
    next: ChunkView,
)
    requires
        first.payload.len() > 0,
        is_tls(first.payload[0]),
        next.payload.len() > 0,
        is_tls(next.payload[0]),
    ensures
        step(after(step(reported, first).0, between), next).1.len() == 0,
{
    reported_stays(between);
}

/// Whether a frame holds its header and every virtual MAC that it declares.
pub open spec fn is_whole(p: Seq<u8>) -> bool {
    &&& p.len() >= 4
    &&& p[1] & FLAG_ORIG_VMAC != 0 ==> p.len() >= 10
    &&& p[1] & FLAG_DST_VMAC != 0 ==> p.len() >= dst_offset(p[1]) + 6
}

/// A whole plaintext frame gives one transaction, a node exactly where it names its origin, and
/// an anomaly exactly where its function is unknown or its control byte has reserved bits set.
pub proof fn every_whole_frame_is_one_transaction(c: ChunkView)
    requires
        is_whole(c.payload),
    ensures
        events::tx_count(frame_events(c)) == 1,
        events::asset_count(frame_events(c)) == (if orig_vmac(c.payload) is Some {
            1nat
        } else {
            0nat
        }),
        events::anomaly_count(frame_events(c)) == (if c.payload[0] > BVLC_MAX_KNOWN || c.payload[1]
            & RESERVED_FLAGS_MASK != 0 {
            1nat
        } else {
            0nat
        }),
{
    let p = c.payload;
    let none = Seq::<EventView>::empty();
    let e = frame_events(c);
    let bits = events::push_if(
        none,
        reserved_bits(p),
        anomaly_of(c, "BVLC-SC reserved control bits set"@),
    );
    let a = events::push_if(
        bits,
        p[0] > BVLC_MAX_KNOWN,
        anomaly_of(c, "unknown BVLC-SC function code "@ + text::hex0x(p[0] as nat, 2)),
    );
    let t = a.push(e[a.len() as int]);
    events::counts_push_if(
        none,
        reserved_bits(p),
        anomaly_of(c, "BVLC-SC reserved control bits set"@),
    );
    events::counts_push_if(
        bits,
        p[0] > BVLC_MAX_KNOWN,
        anomaly_of(c, "unknown BVLC-SC function code "@ + text::hex0x(p[0] as nat, 2)),
    );
    events::counts_push_if(a, true, e[a.len() as int]);
    events::counts_push_if(t, orig_vmac(p) is Some, e.last());
    assert(e =~= events::push_if(t, orig_vmac(p) is Some, e.last()));
}

/// A frame: function, control flags, message id, the originating and the destination VMAC, and the
/// data.
#[verifier::opaque]
pub open spec fn sc_frame(
    function: u8,
    control: u8,
    message_id: u16,
    origin: Seq<u8>,
    destination: Seq<u8>,
    data: Seq<u8>,
) -> Seq<u8> {
    seq![function] + (seq![control] + (bytes::be16_bytes(message_id) + (origin
        + (destination + data))))
}

proof fn sc_frame_parts(
    function: u8,
    control: u8,
    message_id: u16,
    origin: Seq<u8>,
    destination: Seq<u8>,
    data: Seq<u8>,
)
    requires
        origin.len() == 6,
        destination.len() == 6,
    ensures
        ({
            let b = sc_frame(function, control, message_id, origin, destination, data);
            &&& b[0] == function
            &&& b[1] == control
            &&& bytes::be16(b, 2) == message_id
            &&& b.subrange(4, 10) == origin
            &&& b.subrange(10, 16) == destination
            &&& b.skip(16) == data
            &&& b.len() == 16 + data.len()
        }),
{
    reveal(sc_frame);
    let t5 = data;
    let t4 = destination + t5;
    let t3 = origin + t4;
    let t2 = bytes::be16_bytes(message_id) + t3;
    let t1 = seq![control] + t2;
    let t0 = seq![function] + t1;
    let b = t0;
    assert(b.skip(0) =~= t0);
    bytes::next_part(b, 0, seq![function], t1);
    assert(seq![function][0] == function);
    bytes::next_part(b, 1, seq![control], t2);
    assert(seq![control][0] == control);
    bytes::next_be(b, 2, message_id, 0, 0, t3);
    bytes::next_part(b, 4, origin, t4);
    bytes::next_part(b, 10, destination, t5);
}

/// A frame with both addresses is read back: the originating VMAC stands before the destination,
/// and its node is shown.
pub proof fn frames_read_back(
    reported: bool,
    c: ChunkView,
    function: u8,
    message_id: u16,
    origin: Seq<u8>,
    destination: Seq<u8>,
    data: Seq<u8>,
)
    requires
        origin.len() == 6,
        destination.len() == 6,
        function < 0x14,
        c.payload == sc_frame(function, 3, message_id, origin, destination, data),
    ensures
        ({
            let e = step(reported, c).1;
            let n = e.len() as int;
            let tx = e[n - 2].family->ProtocolTransaction_0;
            let a = e[n - 1].family->AssetObservation_0;
            let m = tx.attributes;
            &&& n == (if function > 0x0C {
                3int
            } else {
                2
            })
            &&& e[n - 2].family is ProtocolTransaction
            &&& e[n - 1].family is AssetObservation
            &&& tx.status == "observed"@
            &&& m["function_code"@] == "0x"@ + text::hex(function as nat, 2)
            &&& m["control_flags_hex"@] == "0x"@ + text::hex(3 as nat, 2)
            &&& m["message_id"@] == text::dec(message_id as nat)
            &&& m["originating_vmac"@] == text::hex_bytes(origin)
            &&& m["destination_vmac"@] == text::hex_bytes(destination)
            &&& a.asset_key == text::hex_bytes(origin)
            &&& a.role == Some("bacnet_sc_node"@)
            &&& a.identifiers["vmac"@] == text::hex_bytes(origin)
            &&& function == 0x00 ==> tx.operation == "bacnet_sc_result"@
            &&& function == 0x01 ==> tx.operation == "bacnet_sc_encapsulated_npdu"@
            &&& function == 0x02 ==> tx.operation == "bacnet_sc_address_resolution"@
            &&& function == 0x03 ==> tx.operation == "bacnet_sc_address_resolution_ack"@
            &&& function == 0x04 ==> tx.operation == "bacnet_sc_advertisement"@
            &&& function == 0x05 ==> tx.operation == "bacnet_sc_advertisement_solicitation"@
            &&& function == 0x06 ==> tx.operation == "bacnet_sc_connect_request"@
            &&& function == 0x07 ==> tx.operation == "bacnet_sc_connect_accept"@
            &&& function == 0x08 ==> tx.operation == "bacnet_sc_disconnect_request"@
            &&& function == 0x09 ==> tx.operation == "bacnet_sc_disconnect_ack"@
            &&& function == 0x0A ==> tx.operation == "bacnet_sc_heartbeat_request"@
            &&& function == 0x0B ==> tx.operation == "bacnet_sc_heartbeat_ack"@
            &&& function == 0x0C ==> tx.operation == "bacnet_sc_proprietary_message"@
            &&& function != 0x00 && function != 0x01 && function != 0x02 && function != 0x03
                && function != 0x04 && function != 0x05 && function != 0x06 && function != 0x07
                && function != 0x08 && function != 0x09 && function != 0x0A && function != 0x0B
                && function != 0x0C ==> tx.operation == "bacnet_sc_unknown_"@
                + text::hex0x(function as nat, 2)
        }),
{
    sc_frame_parts(function, 3, message_id, origin, destination, data);
    assert(3u8 & 0x01 != 0 && 3u8 & 0x02 != 0 && 3u8 & 0xF0 == 0) by (bit_vector);
    reveal_strlit("function_code");
    reveal_strlit("control_flags_hex");
    reveal_strlit("message_id");
    reveal_strlit("originating_vmac");
    reveal_strlit("destination_vmac");
    assert({
        &&& "function_code"@.len() == 13
        &&& "control_flags_hex"@.len() == 17
        &&& "message_id"@.len() == 10
        &&& "originating_vmac"@.len() == 16
        &&& "destination_vmac"@.len() == 16
    });
    assert("originating_vmac"@[0] != "destination_vmac"@[0]);
}

/// A frame with the destination alone has it right behind the message id, and shows no node.
pub proof fn destination_alone_reads_back(
    reported: bool,
    c: ChunkView,
    function: u8,
    message_id: u16,
    destination: Seq<u8>,
    more: Seq<u8>,
    data: Seq<u8>,
)
    requires
        destination.len() == 6,
        more.len() == 6,
        function <= 0x0C,
        c.payload == sc_frame(function, 1, message_id, destination, more, data),
    ensures
        ({
            let e = step(reported, c).1;
            let m = e[0].family->ProtocolTransaction_0.attributes;
            &&& e.len() == 1
            &&& m["destination_vmac"@] == text::hex_bytes(destination)
            &&& !m.contains_key("originating_vmac"@)
        }),
{
    sc_frame_parts(function, 1, message_id, destination, more, data);
    assert(1u8 & 0x01 != 0 && 1u8 & 0x02 == 0 && 1u8 & 0xF0 == 0) by (bit_vector);
    reveal_strlit("function_code");
    reveal_strlit("control_flags_hex");
    reveal_strlit("message_id");
    reveal_strlit("originating_vmac");
    reveal_strlit("destination_vmac");
    assert({
        &&& "function_code"@.len() == 13
        &&& "control_flags_hex"@.len() == 17
        &&& "message_id"@.len() == 10
        &&& "originating_vmac"@.len() == 16
        &&& "destination_vmac"@.len() == 16
    });
    assert("originating_vmac"@[0] != "destination_vmac"@[0]);
}

/// A TLS record shows the end that it goes to, once.
pub proof fn tls_endpoint_is_the_destination(c: ChunkView)
    requires
        c.payload.len() > 0,
        0x14 <= c.payload[0] <= 0x17,
    ensures
        ({
            let e = step(false, c).1;
            let a = e[1].family->AssetObservation_0;
            &&& step(true, c).1.len() == 0
            &&& e.len() == 2
            &&& e[0].family->ProtocolTransaction_0.operation == "bacnet_sc_tls_session"@
            &&& a.asset_key == packet::asset_key(c.context.dst_ip, c.context.dst_mac)
            &&& a.role == Some("bacnet_sc_endpoint"@)
            &&& a.identifiers["port"@] == text::dec(c.context.dst_port as nat)
        }),
{
}

} // verus!
