//! DNP3 Secure Authentication v5, recognised in DNP3 frames on TCP port 20000.
//!
//! A DNP3 link header has ten bytes: `05 64`, length, control, destination and source
//! address (little-endian), CRC. Authentication messages are the objects of group 120, which
//! are looked for as the byte pair `78 VV`, `VV` from 1 to 15, anywhere after the header.
//!
//! A frame with such objects gives a transaction and its source as an asset, and an authentication
//! error (variation 7) an anomaly of high severity. A corrupt start sequence, and a length below
//! the minimum, give an anomaly of low severity.

use vstd::prelude::*;

use crate::bytes;
use crate::bytes::{contains_byte, cut, get_le16};
use crate::collections::Attributes;
use crate::events;
use crate::events::{
    asset_event, asset_observation, chunk_envelope, emit, emit_all, no_events, no_values,
    parse_anomaly_event, transaction_event, BronzeEvent, EnvelopeView, EventView,
    ProtocolTransaction, TransactionView,
};
use crate::packet::{ChunkView, DecoderInterest, StreamChunk, TransportProtocol};
use crate::text;
use crate::text::{cat, dec_text, join_texts, no_texts, one_text, push_text};

verus! {

pub const DNP3_START_BYTE_0: u8 = 0x05;

pub const DNP3_START_BYTE_1: u8 = 0x64;

pub const DNP3_LINK_HEADER_LEN: usize = 10;

/// Object group 120.
pub const G120_GROUP: u8 = 0x78;

/// The group 120 variations whose byte pair starts before index `n`, in order.
pub open spec fn variations_before(data: Seq<u8>, n: int) -> Seq<u8>
    decreases n,
{
    if n <= 0 {
        Seq::empty()
    } else {
        let p = variations_before(data, n - 1);
        if data[n - 1] == G120_GROUP && 0x01 <= data[n] <= 0x0F {
            p.push(data[n])
        } else {
            p
        }
    }
}

/// The group 120 variations in the data, in order of appearance.
pub open spec fn variations(data: Seq<u8>) -> Seq<u8> {
    variations_before(data, data.len() - 1)
}

/// The group 120 variations in the data, in order of appearance; one that occurs more than
/// once is listed as often.
pub fn find_g120_variations(data: &[u8]) -> (r: Vec<u8>)
    ensures
        r@ == variations(data@),
{
    let mut result: Vec<u8> = Vec::new();
    if data.len() < 2 {
        return result;
    }
    let mut i: usize = 0;
    while i < data.len() - 1
        invariant
            data.len() >= 2,
            i <= data.len() - 1,
            result@ == variations_before(data@, i as int),
        decreases data.len() - i,
    {
        if data[i] == G120_GROUP {
            let var = data[i + 1];
            if 0x01 <= var && var <= 0x0F {
                result.push(var);
            }
        }
        i = i + 1;
    }
    result
}

/// The operation label of a group 120 variation.
pub open spec fn operation_of(var: u8) -> Seq<char> {
    if var == 1 {
        "dnp3_sav5_challenge"@
    } else if var == 2 {
        "dnp3_sav5_reply"@
    } else if var == 3 {
        "dnp3_sav5_aggressive_request"@
    } else if var == 4 {
        "dnp3_sav5_session_key_status_request"@
    } else if var == 5 {
        "dnp3_sav5_session_key_status"@
    } else if var == 6 {
        "dnp3_sav5_session_key_change"@
    } else if var == 7 {
        "dnp3_sav5_error"@
    } else if var == 8 {
        "dnp3_sav5_user_cert"@
    } else if var == 9 {
        "dnp3_sav5_mac"@
    } else if var == 10 {
        "dnp3_sav5_user_status_change"@
    } else if var == 11 {
        "dnp3_sav5_update_key_change_req"@
    } else if var == 12 {
        "dnp3_sav5_update_key_change_reply"@
    } else if var == 13 {
        "dnp3_sav5_update_key_change"@
    } else if var == 14 {
        "dnp3_sav5_update_key_signature"@
    } else if var == 15 {
        "dnp3_sav5_update_key_confirmation"@
    } else {
        "dnp3_sav5_unknown_var"@
    }
}

/// The operation label of a group 120 variation.
pub fn g120_variation_name(var: u8) -> (r: &'static str)
    ensures
        r@ == operation_of(var),
{
    match var {
        1 => "dnp3_sav5_challenge",
        2 => "dnp3_sav5_reply",
        3 => "dnp3_sav5_aggressive_request",
        4 => "dnp3_sav5_session_key_status_request",
        5 => "dnp3_sav5_session_key_status",
        6 => "dnp3_sav5_session_key_change",
        7 => "dnp3_sav5_error",
        8 => "dnp3_sav5_user_cert",
        9 => "dnp3_sav5_mac",
        10 => "dnp3_sav5_user_status_change",
        11 => "dnp3_sav5_update_key_change_req",
        12 => "dnp3_sav5_update_key_change_reply",
        13 => "dnp3_sav5_update_key_change",
        14 => "dnp3_sav5_update_key_signature",
        15 => "dnp3_sav5_update_key_confirmation",
        _ => "dnp3_sav5_unknown_var",
    }
}

/// The values of a list, each once, in the order in which they first appear.
pub open spec fn deduped(s: Seq<u8>) -> Seq<u8>
    decreases s.len(),
{
    if s.len() == 0 {
        Seq::empty()
    } else if deduped(s.drop_last()).contains(s.last()) {
        deduped(s.drop_last())
    } else {
        deduped(s.drop_last()).push(s.last())
    }
}

fn dedup(v: &Vec<u8>) -> (r: Vec<u8>)
    ensures
        r@ == deduped(v@),
{
    let mut r: Vec<u8> = Vec::new();
    let mut i: usize = 0;
    while i < v.len()
        invariant
            i <= v.len(),
            r@ == deduped(v@.take(i as int)),
        decreases v.len() - i,
    {
        assert(v@.take(i + 1).drop_last() =~= v@.take(i as int));
        if !contains_byte(r.as_slice(), v[i]) {
            r.push(v[i]);
        }
        i = i + 1;
    }
    assert(v@.take(i as int) =~= v@);
    r
}

/// The labels of a list of variations.
pub open spec fn labels(s: Seq<u8>) -> Seq<Seq<char>> {
    Seq::new(s.len(), |i: int| operation_of(s[i]))
}

fn label_texts(v: &Vec<u8>) -> (r: Vec<String>)
    ensures
        text::texts(r@) == labels(v@),
{
    let mut r = no_texts();
    let mut i: usize = 0;
    assert(labels(v@.take(0)) =~= Seq::<Seq<char>>::empty());
    while i < v.len()
        invariant
            i <= v.len(),
            text::texts(r@) == labels(v@.take(i as int)),
        decreases v.len() - i,
    {
        push_text(&mut r, g120_variation_name(v[i]).to_owned());
        assert(labels(v@.take(i + 1)) =~= labels(v@.take(i as int)).push(operation_of(v@[i as int])));
        i = i + 1;
    }
    assert(v@.take(i as int) =~= v@);
    r
}

/// The envelope of a chunk.
pub open spec fn env(c: ChunkView) -> EnvelopeView {
    events::chunk_env(c, TransportProtocol::Tcp, "dnp3_sav5"@)
}

/// The events of a frame that holds the given group 120 variations, at least one. The first
/// variation gives the operation.
pub open spec fn auth_events(c: ChunkView, found: Seq<u8>) -> Seq<EventView> {
    let p = c.payload;
    let src = text::dec(bytes::le16(p, 6) as nat);
    let dst = text::dec(bytes::le16(p, 4) as nat);
    let first = found[0];
    let t = Seq::<EventView>::empty().push(
        events::tx_view(
            c.capture_id,
            env(c),
            TransactionView {
                object_refs: seq!["dnp3:g120v"@ + text::dec(first as nat)],
                ..events::plain_tx(
                    operation_of(first),
                    "observed"@,
                    Some(operation_of(first) + " src="@ + src + " dst="@ + dst),
                    Map::empty().insert("dnp3_source_addr"@, src).insert(
                        "dnp3_dest_addr"@,
                        dst,
                    ).insert("g120_variation"@, text::dec(first as nat)).insert(
                        "variations_seen"@,
                        text::joined(labels(deduped(found)), ","@),
                    ),
                )
            },
        ),
    ).push(
        events::asset_event_view(
            c.capture_id,
            env(c),
            events::asset_view(
                c.context.src_ip.text(),
                Some("dnp3_sav5_capable"@),
                None,
                None,
                None,
                "dnp3_sav5"@,
                Map::empty().insert("dnp3_addr"@, src),
            ),
        ),
    );
    events::push_if(
        t,
        found.contains(7),
        events::anomaly_view(
            c.capture_id,
            env(c),
            "dnp3_sav5"@,
            "high"@,
            "DNP3-SAv5 Authentication Error — auth failure on the wire"@,
            p,
        ),
    )
}

/// The events of a chunk. What is too short for a link header, and a frame without group 120
/// objects, gives none; a header whose start bytes are wrong, or whose length field is below the
/// minimum of five, gives an anomaly.
pub open spec fn chunk_events(c: ChunkView) -> Seq<EventView> {
    let p = c.payload;
    if p.len() < DNP3_LINK_HEADER_LEN {
        Seq::empty()
    } else if p[0] != DNP3_START_BYTE_0 || p[1] != DNP3_START_BYTE_1 {
        Seq::<EventView>::empty().push(
            events::anomaly_view(
                c.capture_id,
                env(c),
                "dnp3_sav5"@,
                "low"@,
                "DNP3-SAv5: corrupt DNP3 link-layer start sequence"@,
                p,
            ),
        )
    } else if p[2] < 5 {
        Seq::<EventView>::empty().push(
            events::anomaly_view(
                c.capture_id,
                env(c),
                "dnp3_sav5"@,
                "low"@,
                "DNP3-SAv5: corrupted DNP3 link header (length field below minimum)"@,
                p,
            ),
        )
    } else {
        let found = variations(p.subrange(10, p.len() as int));
        if found.len() == 0 {
            Seq::empty()
        } else {
            auth_events(c, found)
        }
    }
}

/// The DNP3 secure authentication decoder.
#[derive(Debug, Default)]
pub struct Dnp3Sav5Decoder;

impl Dnp3Sav5Decoder {
    /// The name of the decoder.
    pub fn name(&self) -> (r: &'static str)
        ensures
            r@ == "dnp3_sav5"@,
    {
        "dnp3_sav5"
    }

    /// The traffic that the decoder asks for.
    pub fn interest(&self) -> (r: &'static [DecoderInterest])
        ensures
            r@ == seq![DecoderInterest::TcpPort(20000)],
    {
        &[DecoderInterest::TcpPort(20000)]
    }

    /// Takes in a chunk of a TCP stream.
    pub fn on_stream_chunk(&mut self, chunk: &StreamChunk<'_>, out: &mut Vec<BronzeEvent>)
        ensures
            events::events(final(out)@) == events::events(old(out)@) + chunk_events(chunk@),
    {
        let mut ev = no_events();
        let buf = chunk.payload;
        if buf.len() < DNP3_LINK_HEADER_LEN {
            emit_all(out, ev);
            return;
        }
        let envelope = chunk_envelope(chunk, TransportProtocol::Tcp, "dnp3_sav5");
        if buf[0] != DNP3_START_BYTE_0 || buf[1] != DNP3_START_BYTE_1 {
            emit(
                &mut ev,
                parse_anomaly_event(
                    chunk.capture_id,
                    envelope,
                    "dnp3_sav5",
                    "low",
                    "DNP3-SAv5: corrupt DNP3 link-layer start sequence",
                    buf,
                ),
            );
            emit_all(out, ev);
            return;
        }
        if buf[2] < 5 {
            emit(
                &mut ev,
                parse_anomaly_event(
                    chunk.capture_id,
                    envelope,
                    "dnp3_sav5",
                    "low",
                    "DNP3-SAv5: corrupted DNP3 link header (length field below minimum)",
                    buf,
                ),
            );
            emit_all(out, ev);
            return;
        }
        let dest_addr = get_le16(buf, 4);
        let src_addr = get_le16(buf, 6);
        let variations = find_g120_variations(cut(buf, 10, buf.len()));
        if variations.len() == 0 {
            emit_all(out, ev);
            return;
        }
        let seen = dedup(&variations);
        let primary_var = variations[0];
        let operation = g120_variation_name(primary_var);
        let mut attributes = Attributes::new();
        attributes.put_dec("dnp3_source_addr", src_addr);
        attributes.put_dec("dnp3_dest_addr", dest_addr);
        attributes.put_dec("g120_variation", primary_var);
        attributes.insert("variations_seen", join_texts(&label_texts(&seen), ","));
        let summary = cat(cat(operation, " src=").as_str(), dec_text(src_addr).as_str());
        let summary = cat(cat(summary.as_str(), " dst=").as_str(), dec_text(dest_addr).as_str());
        emit(
            &mut ev,
            transaction_event(
                chunk.capture_id,
                envelope.copy(),
                ProtocolTransaction {
                    operation: operation.to_owned(),
                    status: "observed".to_owned(),
                    request_summary: Some(summary),
                    response_summary: None,
                    object_refs: one_text(cat("dnp3:g120v", dec_text(primary_var).as_str())),
                    values: no_values(),
                    attributes,
                    modbus: None,
                    protocol_fields: None,
                },
            ),
        );
        let mut identifiers = Attributes::new();
        identifiers.put_dec("dnp3_addr", src_addr);
        emit(
            &mut ev,
            asset_event(
                chunk.capture_id,
                envelope.copy(),
                asset_observation(
                    chunk.context.src_ip.text(),
                    Some("dnp3_sav5_capable"),
                    None,
                    None,
                    None,
                    "dnp3_sav5",
                    identifiers,
                ),
            ),
        );
        if contains_byte(variations.as_slice(), 7) {
            emit(
                &mut ev,
                parse_anomaly_event(
                    chunk.capture_id,
                    envelope,
                    "dnp3_sav5",
                    "high",
                    "DNP3-SAv5 Authentication Error — auth failure on the wire",
                    buf,
                ),
            );
        }
        emit_all(out, ev);
    }
}

// ---------------------------------------------------------------------------
// Laws
// ---------------------------------------------------------------------------

proof fn variations_before_facts(data: Seq<u8>, n: int)
    requires
        n < data.len(),
    ensures
        forall|k: int|
            0 <= k < variations_before(data, n).len() ==> 1 <= #[trigger] variations_before(
                data,
                n,
            )[k] <= 15,
        variations_before(data, n).len() == 0 <==> forall|i: int|
            0 <= i < n ==> !(#[trigger] data[i] == G120_GROUP && 1 <= data[i + 1] <= 15),
    decreases n,
{
    if n > 0 {
        variations_before_facts(data, n - 1);
        if data[n - 1] == G120_GROUP && 1 <= data[n] <= 15 {
            assert(variations_before(data, n).len() > 0);
        }
    }
}

/// Every variation found lies between 1 and 15, and none is found exactly where the byte
/// pair does not occur.
pub proof fn variations_are_the_byte_pairs(data: Seq<u8>)
    ensures
        forall|k: int|
            0 <= k < variations(data).len() ==> 1 <= #[trigger] variations(data)[k] <= 15,
        variations(data).len() == 0 <==> forall|i: int|
            0 <= i < data.len() - 1 ==> !(#[trigger] data[i] == G120_GROUP && 1 <= data[i + 1]
                <= 15),
{
    variations_before_facts(data, data.len() - 1);
}

proof fn deduped_facts(s: Seq<u8>)
    ensures
        s.len() > 0 ==> deduped(s).len() > 0 && deduped(s)[0] == s[0],
        forall|x: u8| deduped(s).contains(x) <==> s.contains(x),
        deduped(s).no_duplicates(),
    decreases s.len(),
{
    if s.len() > 0 {
        let d = s.drop_last();
        let u = deduped(d);
        deduped_facts(d);
        assert(s =~= d.push(s.last()));
        assert forall|x: u8| deduped(s).contains(x) <==> s.contains(x) by {
            if s.contains(x) {
                let k = choose|k: int| 0 <= k < s.len() && s[k] == x;
                if k < d.len() {
                    assert(d[k] == x);
                    assert(d.contains(x));
                    assert(u.contains(x));
                    let m = choose|m: int| 0 <= m < u.len() && u[m] == x;
                    assert(deduped(s)[m] == x);
                } else if !u.contains(x) {
                    assert(deduped(s)[u.len() as int] == x);
                }
            }
            if deduped(s).contains(x) {
                let k = choose|k: int| 0 <= k < deduped(s).len() && deduped(s)[k] == x;
                if k < u.len() {
                    assert(u[k] == x);
                    assert(d.contains(x));
                    let m = choose|m: int| 0 <= m < d.len() && d[m] == x;
                    assert(s[m] == x);
                } else {
                    assert(s[s.len() - 1] == x);
                }
            }
        }
    }
}

/// The list of variations seen names every variation that was found and no other, each once,
/// and starts with the one that gives the operation.
pub proof fn variations_seen_are_those_found(found: Seq<u8>)
    requires
        found.len() > 0,
    ensures
        deduped(found)[0] == found[0],
        forall|x: u8| deduped(found).contains(x) <==> found.contains(x),
        deduped(found).no_duplicates(),
{
    deduped_facts(found);
}

/// A frame with the start bytes and a sound length gives one transaction and one asset exactly
/// where it holds a group 120 object, and then an anomaly exactly where one of them is an
/// authentication error; without such an object it gives nothing. Wrong start bytes, and a length
/// below the minimum, give an anomaly and nothing else.
pub proof fn reports_what_a_frame_holds(c: ChunkView)
    requires
        c.payload.len() >= DNP3_LINK_HEADER_LEN,
    ensures
        ({
            let found = variations(c.payload.subrange(10, c.payload.len() as int));
            let sound = c.payload[0] == DNP3_START_BYTE_0 && c.payload[1] == DNP3_START_BYTE_1
                && c.payload[2] >= 5;
            let e = chunk_events(c);
            &&& events::tx_count(e) == (if sound && found.len() > 0 {
                1nat
            } else {
                0nat
            })
            &&& events::asset_count(e) == events::tx_count(e)
            &&& events::anomaly_count(e) == (if !sound || found.contains(7) {
                1nat
            } else {
                0nat
            })
            &&& e.len() == events::tx_count(e) + events::asset_count(e) + events::anomaly_count(e)
            &&& !sound ==> e[0].family->ParseAnomaly_0.severity == "low"@
        }),
{
    let none = Seq::<EventView>::empty();
    let e = chunk_events(c);
    let found = variations(c.payload.subrange(10, c.payload.len() as int));
    events::counts_push_if(none, true, e[0]);
    events::counts_push_if(none.push(e[0]), true, e[1]);
    events::counts_push_if(none.push(e[0]).push(e[1]), found.contains(7), e[2]);
    if e.len() == 1 {
        assert(e =~= none.push(e[0]));
    } else if found.len() > 0 {
        assert(e =~= events::push_if(none.push(e[0]).push(e[1]), found.contains(7), e[2]));
    }
}

/// A link frame: the start bytes, the length, the control byte, destination and source, a checksum
/// and the user data.
#[verifier::opaque]
pub open spec fn link_frame(
    start: Seq<u8>,
    length: u8,
    control: u8,
    destination: u16,
    source: u16,
    checksum: Seq<u8>,
    data: Seq<u8>,
) -> Seq<u8> {
    start + (seq![length] + (seq![control] + (bytes::le16_bytes(destination)
        + (bytes::le16_bytes(source) + (checksum + data)))))
}

proof fn link_frame_parts(
    start: Seq<u8>,
    length: u8,
    control: u8,
    destination: u16,
    source: u16,
    checksum: Seq<u8>,
    data: Seq<u8>,
)
    requires
        start.len() == 2,
        checksum.len() == 2,
    ensures
        ({
            let b = link_frame(start, length, control, destination, source, checksum, data);
            &&& b.subrange(0, 2) == start
            &&& b[2] == length
            &&& b[3] == control
            &&& bytes::le16(b, 4) == destination
            &&& bytes::le16(b, 6) == source
            &&& b.subrange(8, 10) == checksum
            &&& b.skip(10) == data
            &&& b.len() == 10 + data.len()
        }),
{
    reveal(link_frame);
    let t6 = data;
    let t5 = checksum + t6;
    let t4 = bytes::le16_bytes(source) + t5;
    let t3 = bytes::le16_bytes(destination) + t4;
    let t2 = seq![control] + t3;
    let t1 = seq![length] + t2;
    let t0 = start + t1;
    let b = t0;
    assert(b.skip(0) =~= t0);
    bytes::next_part(b, 0, start, t1);
    bytes::next_part(b, 2, seq![length], t2);
    assert(seq![length][0] == length);
    bytes::next_part(b, 3, seq![control], t3);
    assert(seq![control][0] == control);
    bytes::next_le(b, 4, destination, 0, 0, t4);
    bytes::next_le(b, 6, source, 0, 0, t5);
    bytes::next_part(b, 8, checksum, t6);
}

/// A frame that holds an authentication object names the link addresses, the destination before
/// the source, the first variation and its operation; the source is shown as capable of it, and an
/// authentication error is of high severity.
pub proof fn authentication_reads_back(
    c: ChunkView,
    length: u8,
    control: u8,
    destination: u16,
    source: u16,
    checksum: Seq<u8>,
    data: Seq<u8>,
)
    requires
        checksum.len() == 2,
        length >= 5,
        variations(data).len() > 0,
        c.payload == link_frame(
            seq![0x05u8, 0x64u8],
            length,
            control,
            destination,
            source,
            checksum,
            data,
        ),
    ensures
        ({
            let e = chunk_events(c);
            let v = variations(data)[0];
            let tx = e[0].family->ProtocolTransaction_0;
            let a = e[1].family->AssetObservation_0;
            let m = tx.attributes;
            &&& m["dnp3_source_addr"@] == text::dec(source as nat)
            &&& m["dnp3_dest_addr"@] == text::dec(destination as nat)
            &&& m["g120_variation"@] == text::dec(v as nat)
            &&& tx.object_refs == seq!["dnp3:g120v"@ + text::dec(v as nat)]
            &&& a.asset_key == c.context.src_ip.text()
            &&& a.role == Some("dnp3_sav5_capable"@)
            &&& a.identifiers["dnp3_addr"@] == text::dec(source as nat)
            &&& e.len() == (if variations(data).contains(7) {
                3nat
            } else {
                2
            })
            &&& variations(data).contains(7) ==> e[2].family is ParseAnomaly
                && e[2].family->ParseAnomaly_0.severity == "high"@
            &&& v == 1 ==> tx.operation == "dnp3_sav5_challenge"@
            &&& v == 2 ==> tx.operation == "dnp3_sav5_reply"@
            &&& v == 3 ==> tx.operation == "dnp3_sav5_aggressive_request"@
            &&& v == 4 ==> tx.operation == "dnp3_sav5_session_key_status_request"@
            &&& v == 5 ==> tx.operation == "dnp3_sav5_session_key_status"@
            &&& v == 6 ==> tx.operation == "dnp3_sav5_session_key_change"@
            &&& v == 7 ==> tx.operation == "dnp3_sav5_error"@
            &&& v == 8 ==> tx.operation == "dnp3_sav5_user_cert"@
            &&& v == 9 ==> tx.operation == "dnp3_sav5_mac"@
            &&& v == 10 ==> tx.operation == "dnp3_sav5_user_status_change"@
            &&& v == 11 ==> tx.operation == "dnp3_sav5_update_key_change_req"@
            &&& v == 12 ==> tx.operation == "dnp3_sav5_update_key_change_reply"@
            &&& v == 13 ==> tx.operation == "dnp3_sav5_update_key_change"@
            &&& v == 14 ==> tx.operation == "dnp3_sav5_update_key_signature"@
            &&& v == 15 ==> tx.operation == "dnp3_sav5_update_key_confirmation"@
            &&& v != 1 && v != 2 && v != 3 && v != 4 && v != 5 && v != 6 && v != 7 && v != 8
                && v != 9 && v != 10 && v != 11 && v != 12 && v != 13 && v != 14 && v != 15
                ==> tx.operation == "dnp3_sav5_unknown_var"@
        }),
{
    let start = seq![0x05u8, 0x64u8];
    link_frame_parts(start, length, control, destination, source, checksum, data);
    let p = c.payload;
    assert(p.subrange(0, 2)[0] == p[0] && p.subrange(0, 2)[1] == p[1]);
    assert(start[0] == 0x05 && start[1] == 0x64);
    assert(p.subrange(10, p.len() as int) =~= data);
    reveal_strlit("dnp3_source_addr");
    reveal_strlit("dnp3_dest_addr");
    reveal_strlit("g120_variation");
    reveal_strlit("variations_seen");
    assert({
        &&& "dnp3_source_addr"@.len() == 16
        &&& "dnp3_dest_addr"@.len() == 14
        &&& "g120_variation"@.len() == 14
        &&& "variations_seen"@.len() == 15
    });
    assert("dnp3_dest_addr"@[0] != "g120_variation"@[0]);
}

} // verus!
