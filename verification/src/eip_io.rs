//! EtherNet/IP class 1 cyclic I/O on UDP port 2222.
//!
//! Class 1 datagrams carry a bare common packet, without the encapsulation header of the
//! explicit messages:
//!
//! ```text
//! item_count u16, then items: type u16, length u16, data (all little-endian)
//! 0x8002 sequenced address: connection_id u32, sequence_number u32
//! 0x00A1 connected address: connection_id u32
//! 0x00B1 connected data:    cip_sequence_count u16, I/O bytes
//! ```
//!
//! An axis sends thousands of datagrams a second, so of a connection only the first datagram
//! and every 1000th are reported, and at once any datagram whose sequence number is not the
//! one after the last.

use vstd::prelude::*;

use crate::bytes;
use crate::bytes::{cut, get_le16, get_le32};
use crate::collections;
use crate::collections::{Attributes, KeyedMap};
use crate::events;
use crate::events::{
    asset_event, chunk_envelope, emit, emit_all, no_events, parse_anomaly_event, plain_transaction,
    transaction_event, AssetObservation, AssetView, BronzeEvent, EnvelopeView, EventEnvelope,
    EventView,
};
use crate::packet::{ChunkView, DecoderInterest, StreamChunk, TransportProtocol};
use crate::text;
use crate::text::{cat, dec_text, hex0x_text, no_texts, one_text, push_text};

verus! {

pub const ITEM_SEQUENCED_ADDR: u16 = 0x8002;

pub const ITEM_CONNECTED_ADDR: u16 = 0x00A1;

pub const ITEM_CONNECTED_DATA: u16 = 0x00B1;

/// How many datagrams of a connection lie between two samples.
pub const PERIODIC_INTERVAL: u64 = 1000;

// ---------------------------------------------------------------------------
// Common packet
// ---------------------------------------------------------------------------

/// The content of a common packet.
#[derive(Debug)]
pub struct ParsedCpf<'a> {
    pub item_count: u16,
    pub connection_id: u32,
    pub sequence_number: u32,
    /// The bytes after the CIP sequence count.
    pub io_data: &'a [u8],
}

/// A common packet as contracts speak of it.
pub struct CpfView {
    pub item_count: u16,
    pub connection_id: u32,
    pub sequence_number: u32,
    pub io_data: Seq<u8>,
}

impl<'a> View for ParsedCpf<'a> {
    type V = CpfView;

    open spec fn view(&self) -> CpfView {
        CpfView {
            item_count: self.item_count,
            connection_id: self.connection_id,
            sequence_number: self.sequence_number,
            io_data: self.io_data@,
        }
    }
}

/// What the items read so far have said: connection, sequence number and the place of the
/// I/O bytes.
pub struct Found {
    pub connection_id: Option<u32>,
    pub sequence_number: Option<u32>,
    pub io: Option<(int, int)>,
}

/// What one item adds. A sequenced address sets connection and sequence number; a connected
/// address and a CIP sequence count stand in only where nothing was set before.
pub open spec fn with_item(data: Seq<u8>, start: int, end: int, item_type: u16, f: Found) -> Result<
    Found,
    Seq<char>,
> {
    if item_type == ITEM_SEQUENCED_ADDR {
        if end - start < 8 {
            Err("Sequenced Address Item too short"@)
        } else {
            Ok(
                Found {
                    connection_id: Some(bytes::le32(data, start)),
                    sequence_number: Some(bytes::le32(data, start + 4)),
                    ..f
                },
            )
        }
    } else if item_type == ITEM_CONNECTED_ADDR {
        if end - start < 4 {
            Err("Connected Address Item too short"@)
        } else if f.connection_id is Some {
            Ok(f)
        } else {
            Ok(Found { connection_id: Some(bytes::le32(data, start)), ..f })
        }
    } else if item_type == ITEM_CONNECTED_DATA {
        if end - start < 2 {
            Err("Connected Data Item too short for CIP seq count"@)
        } else {
            Ok(
                Found {
                    sequence_number: if f.sequence_number is Some {
                        f.sequence_number
                    } else {
                        Some(bytes::le16(data, start) as u32)
                    },
                    io: Some((start + 2, end)),
                    ..f
                },
            )
        }
    } else {
        Ok(f)
    }
}

/// What the `n` items from `off` on add.
pub open spec fn with_items(data: Seq<u8>, off: int, n: nat, f: Found) -> Result<Found, Seq<char>>
    decreases n,
{
    if n == 0 {
        Ok(f)
    } else if off + 4 > data.len() {
        Err("CPF item header truncated"@)
    } else {
        let end = off + 4 + bytes::le16(data, off + 2);
        if end > data.len() {
            Err("CPF item data truncated"@)
        } else {
            match with_item(data, off + 4, end, bytes::le16(data, off), f) {
                Err(e) => Err(e),
                Ok(g) => with_items(data, end, (n - 1) as nat, g),
            }
        }
    }
}

/// The content of a common packet, or why it has none.
pub open spec fn cpf(data: Seq<u8>) -> Result<CpfView, Seq<char>> {
    if data.len() < 2 {
        Err("CPF datagram too short for item_count"@)
    } else {
        let n = bytes::le16(data, 0);
        if n > (data.len() - 2) / 4 {
            Err("CPF item_count exceeds available datagram space"@)
        } else {
            match with_items(
                data,
                2,
                n as nat,
                Found { connection_id: None, sequence_number: None, io: None },
            ) {
                Err(e) => Err(e),
                Ok(f) => match f.connection_id {
                    None => Err("CPF: no Address Item found"@),
                    Some(connection_id) => match f.sequence_number {
                        None => Err("CPF: no sequence number found"@),
                        Some(sequence_number) => Ok(
                            CpfView {
                                item_count: n,
                                connection_id,
                                sequence_number,
                                io_data: match f.io {
                                    Some((s, e)) => data.subrange(s, e),
                                    None => Seq::empty(),
                                },
                            },
                        ),
                    },
                },
            }
        }
    }
}

/// The view of a parse result.
pub open spec fn cpf_view(r: Result<ParsedCpf<'_>, &str>) -> Result<CpfView, Seq<char>> {
    match r {
        Ok(c) => Ok(c@),
        Err(e) => Err(e@),
    }
}

/// The content of a common packet, or why it has none.
pub fn parse_cpf(data: &[u8]) -> (r: Result<ParsedCpf<'_>, &'static str>)
    ensures
        cpf_view(r) == cpf(data@),
{
    if data.len() < 2 {
        return Err("CPF datagram too short for item_count");
    }
    let item_count = get_le16(data, 0);
    if item_count as usize > (data.len() - 2) / 4 {
        return Err("CPF item_count exceeds available datagram space");
    }
    let mut left: u16 = item_count;
    let mut offset: usize = 2;
    let mut connection_id: Option<u32> = None;
    let mut sequence_number: Option<u32> = None;
    let mut io: Option<(usize, usize)> = None;
    let ghost whole = with_items(
        data@,
        2,
        item_count as nat,
        Found { connection_id: None, sequence_number: None, io: None },
    );
    while left > 0
        invariant
            offset <= data.len(),
            io matches Some((s, e)) ==> s <= e <= data.len(),
            whole == with_items(
                data@,
                offset as int,
                left as nat,
                Found { connection_id, sequence_number, io: place(io) },
            ),
            data.len() >= 2,
            item_count == bytes::le16(data@, 0),
            item_count <= (data.len() - 2) / 4,
            whole == with_items(
                data@,
                2,
                item_count as nat,
                Found { connection_id: None, sequence_number: None, io: None },
            ),
        decreases left,
    {
        if data.len() - offset < 4 {
            return Err("CPF item header truncated");
        }
        let item_type = get_le16(data, offset);
        let item_len = get_le16(data, offset + 2) as usize;
        if data.len() - offset - 4 < item_len {
            return Err("CPF item data truncated");
        }
        let start: usize = offset + 4;
        let end: usize = start + item_len;
        match item_type {
            ITEM_SEQUENCED_ADDR => {
                if item_len < 8 {
                    return Err("Sequenced Address Item too short");
                }
                connection_id = Some(get_le32(data, start));
                sequence_number = Some(get_le32(data, start + 4));
            },
            ITEM_CONNECTED_ADDR => {
                if item_len < 4 {
                    return Err("Connected Address Item too short");
                }
                if connection_id.is_none() {
                    connection_id = Some(get_le32(data, start));
                }
            },
            ITEM_CONNECTED_DATA => {
                if item_len < 2 {
                    return Err("Connected Data Item too short for CIP seq count");
                }
                if sequence_number.is_none() {
                    sequence_number = Some(get_le16(data, start) as u32);
                }
                io = Some((start + 2, end));
            },
            _ => {},
        }
        offset = end;
        left = left - 1;
    }
    let connection_id = match connection_id {
        Some(n) => n,
        None => {
            return Err("CPF: no Address Item found");
        },
    };
    let sequence_number = match sequence_number {
        Some(n) => n,
        None => {
            return Err("CPF: no sequence number found");
        },
    };
    let io_data = match io {
        Some((s, e)) => cut(data, s, e),
        None => cut(data, 0, 0),
    };
    assert(io is None ==> io_data@ =~= Seq::<u8>::empty());
    Ok(ParsedCpf { item_count, connection_id, sequence_number, io_data })
}

/// A place in a buffer, in mathematical integers.
pub open spec fn place(io: Option<(usize, usize)>) -> Option<(int, int)> {
    match io {
        Some((s, e)) => Some((s as int, e as int)),
        None => None,
    }
}

/// The run state in the first I/O byte: bit 0 is set while the controller runs.
pub open spec fn run_idle(io_data: Seq<u8>) -> Seq<char> {
    if io_data.len() == 0 {
        "unknown"@
    } else if io_data[0] & 0x01 != 0 {
        "run"@
    } else {
        "idle"@
    }
}

/// The run state in the first I/O byte.
pub fn decode_run_idle(io_data: &[u8]) -> (r: &'static str)
    ensures
        r@ == run_idle(io_data@),
{
    if io_data.len() == 0 {
        "unknown"
    } else if io_data[0] & 0x01 != 0 {
        "run"
    } else {
        "idle"
    }
}

// ---------------------------------------------------------------------------
// State
// ---------------------------------------------------------------------------

/// What is known of a connection.
#[derive(Debug, Clone, Copy, PartialEq, Eq, Structural)]
pub struct ConnectionState {
    pub seq_last: u32,
    pub packet_count: u64,
}

impl View for ConnectionState {
    type V = ConnectionState;

    open spec fn view(&self) -> ConnectionState {
        *self
    }
}

/// The class 1 I/O decoder.
#[derive(Debug)]
pub struct EipIoDecoder {
    /// Connections by session key and connection id.
    pub connections: KeyedMap<(String, u32), ConnectionState>,
}

/// The connections as contracts speak of them.
pub type Connections = Seq<((Seq<char>, u32), ConnectionState)>;

impl View for EipIoDecoder {
    type V = Connections;

    open spec fn view(&self) -> Connections {
        self.connections@
    }
}

// ---------------------------------------------------------------------------
// Events
// ---------------------------------------------------------------------------

/// The envelope of a chunk.
pub open spec fn env(c: ChunkView) -> EnvelopeView {
    events::chunk_env(c, TransportProtocol::Udp, "eip_io"@)
}

fn envelope(chunk: &StreamChunk<'_>) -> (r: EventEnvelope)
    ensures
        r@ == env(chunk@),
{
    chunk_envelope(chunk, TransportProtocol::Udp, "eip_io")
}

/// An anomaly in a datagram.
pub open spec fn anomaly_of(c: ChunkView, severity: Seq<char>, reason: Seq<char>) -> EventView {
    events::anomaly_view(c.capture_id, env(c), "eip_io"@, severity, reason, c.payload)
}

/// The report of a connection.
pub open spec fn report(
    c: ChunkView,
    operation: Seq<char>,
    summary: Seq<char>,
    attributes: Map<Seq<char>, Seq<char>>,
) -> EventView {
    events::tx_view(
        c.capture_id,
        env(c),
        events::plain_tx(operation, "observed"@, Some(summary), attributes),
    )
}

/// The attributes of a known connection.
pub open spec fn counted(id: Seq<char>, count: u64) -> Map<Seq<char>, Seq<char>> {
    Map::empty().insert("connection_id"@, id).insert(
        "packet_count_observed"@,
        text::dec(count as nat),
    )
}

/// One end of a connection.
pub open spec fn endpoint_seen(c: ChunkView, ip: Seq<char>, id: Seq<char>) -> EventView {
    events::asset_event_view(
        c.capture_id,
        env(c),
        AssetView {
            asset_key: ip,
            role: Some("eip_io_endpoint"@),
            vendor: None,
            model: None,
            firmware: None,
            hostnames: Seq::empty(),
            protocols: seq!["ethernet_ip"@].push("cip"@),
            identifiers: Map::empty().insert("ip"@, ip).insert("connection_id"@, id),
        },
    )
}

fn endpoint_event(chunk: &StreamChunk<'_>, ip: String, id: &str) -> (r: BronzeEvent)
    ensures
        r@ == endpoint_seen(chunk@, ip@, id@),
{
    let mut ids = Attributes::new();
    ids.put("ip", ip.as_str());
    ids.put("connection_id", id);
    let mut protocols = one_text("ethernet_ip".to_owned());
    push_text(&mut protocols, "cip".to_owned());
    asset_event(
        chunk.capture_id,
        envelope(chunk),
        AssetObservation {
            asset_key: ip,
            role: Some("eip_io_endpoint".to_owned()),
            vendor: None,
            model: None,
            firmware: None,
            hostnames: no_texts(),
            protocols,
            identifiers: ids,
        },
    )
}

/// The events of the first datagram of a connection: the connection, and its two ends.
pub open spec fn open_events(c: ChunkView, p: CpfView) -> Seq<EventView> {
    let id = text::hex0x(p.connection_id as nat, 8);
    Seq::<EventView>::empty().push(
        report(
            c,
            "eip_io_class1_open"@,
            "EIP Class 1 connection opened conn="@ + id,
            Map::empty().insert("connection_id"@, id).insert(
                "payload_length"@,
                text::dec(p.io_data.len()),
            ).insert("cpf_item_count"@, text::dec(p.item_count as nat)).insert(
                "sequence_number_initial"@,
                text::dec(p.sequence_number as nat),
            ).insert("run_idle"@, run_idle(p.io_data)),
        ),
    ).push(endpoint_seen(c, c.context.src_ip.text(), id)).push(
        endpoint_seen(c, c.context.dst_ip.text(), id),
    )
}

/// The events of a further datagram: `expected` is the sequence number that was due, and
/// `count` the number of datagrams with this one.
pub open spec fn further_events(c: ChunkView, p: CpfView, expected: u32, count: u64) -> Seq<
    EventView,
> {
    let id = text::hex0x(p.connection_id as nat, 8);
    let none = Seq::<EventView>::empty();
    if p.sequence_number != expected {
        none.push(
            report(
                c,
                "eip_io_class1_sequence_gap"@,
                "EIP Class 1 seq gap conn="@ + id + " expected="@ + text::dec(expected as nat)
                    + " got="@ + text::dec(p.sequence_number as nat),
                counted(id, count),
            ),
        ).push(anomaly_of(c, "low"@, "EIP Class 1 sequence number gap"@))
    } else {
        events::push_if(
            none,
            count % PERIODIC_INTERVAL == 0,
            report(
                c,
                "eip_io_class1_periodic"@,
                "EIP Class 1 periodic sample: "@ + text::dec(count as nat) + " packets"@,
                counted(id, count),
            ),
        )
    }
}

/// What a datagram does.
pub open spec fn step(s: Connections, c: ChunkView) -> (Connections, Seq<EventView>) {
    match cpf(c.payload) {
        Err(reason) => (s, Seq::<EventView>::empty().push(anomaly_of(c, "medium"@, reason))),
        Ok(p) => {
            let key = (c.session_key, p.connection_id);
            match collections::find(s, key) {
                Some(state) => {
                    let count = state.packet_count.wrapping_add(1);
                    (
                        collections::put(
                            s,
                            key,
                            ConnectionState { seq_last: p.sequence_number, packet_count: count },
                        ),
                        further_events(c, p, state.seq_last.wrapping_add(1), count),
                    )
                },
                None => (
                    collections::put(
                        s,
                        key,
                        ConnectionState { seq_last: p.sequence_number, packet_count: 1 },
                    ),
                    open_events(c, p),
                ),
            }
        },
    }
}

impl Default for EipIoDecoder {
    fn default() -> (r: Self)
        ensures
            r@ == Connections::empty(),
    {
        EipIoDecoder { connections: KeyedMap::new() }
    }
}

impl EipIoDecoder {
    /// The name of the decoder.
    pub fn name(&self) -> (r: &'static str)
        ensures
            r@ == "eip_io"@,
    {
        "eip_io"
    }

    /// The traffic that the decoder asks for.
    pub fn interest(&self) -> (r: &'static [DecoderInterest])
        ensures
            r@ == seq![DecoderInterest::UdpPort(2222)],
    {
        &[DecoderInterest::UdpPort(2222)]
    }

    /// Takes in a datagram.
    pub fn on_datagram(&mut self, chunk: &StreamChunk<'_>, out: &mut Vec<BronzeEvent>)
        ensures
            final(self)@ == step(old(self)@, chunk@).0,
            events::events(final(out)@) == events::events(old(out)@) + step(
                old(self)@,
                chunk@,
            ).1,
    {
        let mut ev = no_events();
        let cpf = match parse_cpf(chunk.payload) {
            Ok(c) => c,
            Err(reason) => {
                emit(
                    &mut ev,
                    parse_anomaly_event(
                        chunk.capture_id,
                        envelope(chunk),
                        "eip_io",
                        "medium",
                        reason,
                        chunk.payload,
                    ),
                );
                emit_all(out, ev);
                return;
            },
        };
        let key = (chunk.session_key.as_str().to_owned(), cpf.connection_id);
        let conn_id_hex = hex0x_text(cpf.connection_id, 8);
        let known: Option<ConnectionState> = match self.connections.get(&key) {
            Some(s) => Some(*s),
            None => None,
        };
        match known {
            Some(state) => {
                let expected: u32 = state.seq_last.wrapping_add(1);
                let count: u64 = state.packet_count.wrapping_add(1);
                self.connections.insert(
                    key,
                    ConnectionState { seq_last: cpf.sequence_number, packet_count: count },
                );
                let mut attrs = Attributes::new();
                attrs.put("connection_id", conn_id_hex.as_str());
                attrs.put_dec("packet_count_observed", count);
                if cpf.sequence_number != expected {
                    let summary = cat("EIP Class 1 seq gap conn=", conn_id_hex.as_str());
                    let summary = cat(
                        cat(summary.as_str(), " expected=").as_str(),
                        dec_text(expected).as_str(),
                    );
                    let summary = cat(
                        cat(summary.as_str(), " got=").as_str(),
                        dec_text(cpf.sequence_number).as_str(),
                    );
                    emit(
                        &mut ev,
                        transaction_event(
                            chunk.capture_id,
                            envelope(chunk),
                            plain_transaction(
                                "eip_io_class1_sequence_gap".to_owned(),
                                "observed",
                                Some(summary),
                                attrs,
                            ),
                        ),
                    );
                    emit(
                        &mut ev,
                        parse_anomaly_event(
                            chunk.capture_id,
                            envelope(chunk),
                            "eip_io",
                            "low",
                            "EIP Class 1 sequence number gap",
                            chunk.payload,
                        ),
                    );
                } else if count % PERIODIC_INTERVAL == 0 {
                    let summary = cat("EIP Class 1 periodic sample: ", dec_text(count).as_str());
                    let summary = cat(summary.as_str(), " packets");
                    emit(
                        &mut ev,
                        transaction_event(
                            chunk.capture_id,
                            envelope(chunk),
                            plain_transaction(
                                "eip_io_class1_periodic".to_owned(),
                                "observed",
                                Some(summary),
                                attrs,
                            ),
                        ),
                    );
                }
            },
            None => {
                let mut attrs = Attributes::new();
                attrs.put("connection_id", conn_id_hex.as_str());
                attrs.put_dec("payload_length", cpf.io_data.len());
                attrs.put_dec("cpf_item_count", cpf.item_count);
                attrs.put_dec("sequence_number_initial", cpf.sequence_number);
                attrs.put("run_idle", decode_run_idle(cpf.io_data));
                let summary = cat("EIP Class 1 connection opened conn=", conn_id_hex.as_str());
                emit(
                    &mut ev,
                    transaction_event(
                        chunk.capture_id,
                        envelope(chunk),
                        plain_transaction(
                            "eip_io_class1_open".to_owned(),
                            "observed",
                            Some(summary),
                            attrs,
                        ),
                    ),
                );
                emit(
                    &mut ev,
                    endpoint_event(chunk, chunk.context.src_ip.text(), conn_id_hex.as_str()),
                );
                emit(
                    &mut ev,
                    endpoint_event(chunk, chunk.context.dst_ip.text(), conn_id_hex.as_str()),
                );
                self.connections.insert(
                    key,
                    ConnectionState { seq_last: cpf.sequence_number, packet_count: 1 },
                );
            },
        }
        emit_all(out, ev);
    }
}

// ---------------------------------------------------------------------------
// Laws
// ---------------------------------------------------------------------------

/// After a datagram of a connection, the next one of the same connection is reported as a
/// gap exactly when its sequence number is not the one after, counted modulo two to the
/// power of 32; the report of a gap is one transaction and one anomaly.
pub proof fn gap_is_a_sequence_number_out_of_turn(
    s: Connections,
    a: ChunkView,
    b: ChunkView,
    p: CpfView,
    q: CpfView,
)
    requires
        cpf(a.payload) == Ok::<CpfView, Seq<char>>(p),
        cpf(b.payload) == Ok::<CpfView, Seq<char>>(q),
        a.session_key == b.session_key,
        p.connection_id == q.connection_id,
    ensures
        q.sequence_number != p.sequence_number.wrapping_add(1) ==> step(
            step(s, a).0,
            b,
        ).1.len() == 2 && step(step(s, a).0, b).1[0].family is ProtocolTransaction && step(
            step(s, a).0,
            b,
        ).1[1].family is ParseAnomaly,
        q.sequence_number == p.sequence_number.wrapping_add(1) ==> step(
            step(s, a).0,
            b,
        ).1.len() <= 1,
{
    let key = (a.session_key, p.connection_id);
    let st = match collections::find(s, key) {
        Some(x) => ConnectionState {
            seq_last: p.sequence_number,
            packet_count: x.packet_count.wrapping_add(1),
        },
        None => ConnectionState { seq_last: p.sequence_number, packet_count: 1 },
    };
    collections::put_facts(s, key, st);
}

/// The first datagram of a connection is reported, by one transaction and its two ends, and the
/// connection's count starts with it.
pub proof fn first_datagram_opens_the_connection(s: Connections, c: ChunkView, p: CpfView)
    requires
        cpf(c.payload) == Ok::<CpfView, Seq<char>>(p),
        collections::find(s, (c.session_key, p.connection_id)) is None,
    ensures
        events::tx_count(step(s, c).1) == 1,
        events::asset_count(step(s, c).1) == 2,
        step(s, c).1.len() == 3,
        collections::find(step(s, c).0, (c.session_key, p.connection_id)) == Some(
            ConnectionState { seq_last: p.sequence_number, packet_count: 1 },
        ),
{
    let st = ConnectionState { seq_last: p.sequence_number, packet_count: 1 };
    collections::put_facts(s, (c.session_key, p.connection_id), st);
    let ev = step(s, c).1;
    reveal_with_fuel(events::tx_count, 4);
    reveal_with_fuel(events::asset_count, 4);
    assert(ev.len() == 3);
    assert(ev.drop_last().last() == ev[1]);
    assert(ev.drop_last().drop_last().last() == ev[0]);
}

/// A datagram in sequence is reported exactly when its number in the connection is a
/// multiple of 1000, and the connection's count grows by one with each datagram.
pub proof fn in_sequence_only_every_thousandth(
    s: Connections,
    c: ChunkView,
    p: CpfView,
    state: ConnectionState,
)
    requires
        cpf(c.payload) == Ok::<CpfView, Seq<char>>(p),
        collections::find(s, (c.session_key, p.connection_id)) == Some(state),
        p.sequence_number == state.seq_last.wrapping_add(1),
        state.packet_count < u64::MAX,
    ensures
        step(s, c).1.len() == (if (state.packet_count + 1) % 1000 == 0 {
            1nat
        } else {
            0nat
        }),
        collections::find(step(s, c).0, (c.session_key, p.connection_id)) == Some(
            ConnectionState {
                seq_last: p.sequence_number,
                packet_count: (state.packet_count + 1) as u64,
            },
        ),
{
    collections::put_facts(
        s,
        (c.session_key, p.connection_id),
        ConnectionState {
            seq_last: p.sequence_number,
            packet_count: state.packet_count.wrapping_add(1),
        },
    );
}

/// A Class 1 datagram: two items, the sequenced address with connection id and sequence number, and
/// the data behind a sequence count.
#[verifier::opaque]
pub open spec fn io_datagram(
    count: u16,
    first: u16,
    first_len: u16,
    connection: u32,
    sequence: u32,
    second: u16,
    second_len: u16,
    cip_count: u16,
    io: Seq<u8>,
    rest: Seq<u8>,
) -> Seq<u8> {
    bytes::le16_bytes(count) + (bytes::le16_bytes(first) + (bytes::le16_bytes(first_len)
        + (bytes::le32_bytes(connection) + (bytes::le32_bytes(sequence)
        + (bytes::le16_bytes(second) + (bytes::le16_bytes(second_len)
        + (bytes::le16_bytes(cip_count) + (io + rest))))))))
}

proof fn io_datagram_parts(
    count: u16,
    first: u16,
    first_len: u16,
    connection: u32,
    sequence: u32,
    second: u16,
    second_len: u16,
    cip_count: u16,
    io: Seq<u8>,
    rest: Seq<u8>,
)
    ensures
        ({
            let b = io_datagram(count, first, first_len, connection, sequence,
                second, second_len, cip_count, io, rest);
            &&& bytes::le16(b, 0) == count
            &&& bytes::le16(b, 2) == first
            &&& bytes::le16(b, 4) == first_len
            &&& bytes::le32(b, 6) == connection
            &&& bytes::le32(b, 10) == sequence
            &&& bytes::le16(b, 14) == second
            &&& bytes::le16(b, 16) == second_len
            &&& bytes::le16(b, 18) == cip_count
            &&& b.subrange(20, 20int + io.len()) == io
            &&& b.skip(20int + io.len()) == rest
            &&& b.len() == 20int + io.len() + rest.len()
        }),
{
    reveal(io_datagram);
    let t9 = rest;
    let t8 = io + t9;
    let t7 = bytes::le16_bytes(cip_count) + t8;
    let t6 = bytes::le16_bytes(second_len) + t7;
    let t5 = bytes::le16_bytes(second) + t6;
    let t4 = bytes::le32_bytes(sequence) + t5;
    let t3 = bytes::le32_bytes(connection) + t4;
    let t2 = bytes::le16_bytes(first_len) + t3;
    let t1 = bytes::le16_bytes(first) + t2;
    let t0 = bytes::le16_bytes(count) + t1;
    let b = t0;
    assert(b.skip(0) =~= t0);
    bytes::next_le(b, 0, count, 0, 0, t1);
    bytes::next_le(b, 2, first, 0, 0, t2);
    bytes::next_le(b, 4, first_len, 0, 0, t3);
    bytes::next_le(b, 6, 0, connection, 0, t4);
    bytes::next_le(b, 10, 0, sequence, 0, t5);
    bytes::next_le(b, 14, second, 0, 0, t6);
    bytes::next_le(b, 16, second_len, 0, 0, t7);
    bytes::next_le(b, 18, cip_count, 0, 0, t8);
    bytes::next_part(b, 20, io, t9);
}

/// A datagram with a sequenced address and connected data is read back: the connection and the
/// sequence number from the address, and the data behind its own count.
pub proof fn datagram_reads_back(connection: u32, sequence: u32, cip_count: u16, io: Seq<u8>)
    requires
        io.len() <= 0xFFFD,
    ensures
        cpf(
            io_datagram(
                2,
                0x8002,
                8,
                connection,
                sequence,
                0x00B1,
                (io.len() + 2) as u16,
                cip_count,
                io,
                Seq::empty(),
            ),
        ) == Ok::<CpfView, Seq<char>>(
            CpfView {
                item_count: 2,
                connection_id: connection,
                sequence_number: sequence,
                io_data: io,
            },
        ),
{
    let n = (io.len() + 2) as u16;
    let b = io_datagram(2, 0x8002, 8, connection, sequence, 0x00B1, n, cip_count, io, Seq::empty());
    io_datagram_parts(2, 0x8002, 8, connection, sequence, 0x00B1, n, cip_count, io, Seq::empty());
    let none = Found { connection_id: None, sequence_number: None, io: None };
    let one = Found { connection_id: Some(connection), sequence_number: Some(sequence), io: None };
    let two = Found { io: Some((20int, 20int + io.len())), ..one };
    assert(with_items(b, 2, 2, none) == with_items(b, 14, 1, one));
    assert(with_items(b, 14, 1, one) == with_items(b, 20int + io.len(), 0, two));
}

/// A connection that opens is told with its first sequence number, the size of its data and its
/// run state, and both ends are shown by their own addresses.
pub proof fn open_is_told_as_read(s: Connections, c: ChunkView, p: CpfView)
    requires
        cpf(c.payload) == Ok::<CpfView, Seq<char>>(p),
        collections::find(s, (c.session_key, p.connection_id)) is None,
    ensures
        ({
            let e = step(s, c).1;
            let tx = e[0].family->ProtocolTransaction_0;
            let m = tx.attributes;
            let id = text::hex0x(p.connection_id as nat, 8);
            &&& e.len() == 3
            &&& tx.operation == "eip_io_class1_open"@
            &&& m["connection_id"@] == id
            &&& m["payload_length"@] == text::dec(p.io_data.len())
            &&& m["cpf_item_count"@] == text::dec(p.item_count as nat)
            &&& m["sequence_number_initial"@] == text::dec(p.sequence_number as nat)
            &&& m["run_idle"@] == (if p.io_data.len() == 0 {
                "unknown"@
            } else if p.io_data[0] % 2 == 1 {
                "run"@
            } else {
                "idle"@
            })
            &&& e[1].family->AssetObservation_0.asset_key == c.context.src_ip.text()
            &&& e[2].family->AssetObservation_0.asset_key == c.context.dst_ip.text()
            &&& e[1].family->AssetObservation_0.role == Some("eip_io_endpoint"@)
            &&& e[2].family->AssetObservation_0.role == Some("eip_io_endpoint"@)
            &&& e[1].family->AssetObservation_0.identifiers["connection_id"@] == id
            &&& e[2].family->AssetObservation_0.identifiers["connection_id"@] == id
        }),
{
    let x = p.io_data[0];
    assert((x & 0x01 != 0) == (x % 2 == 1)) by (bit_vector);
    reveal_strlit("connection_id");
    reveal_strlit("payload_length");
    reveal_strlit("cpf_item_count");
    reveal_strlit("sequence_number_initial");
    reveal_strlit("run_idle");
    reveal_strlit("ip");
    assert({
        &&& "connection_id"@.len() == 13
        &&& "payload_length"@.len() == 14
        &&& "cpf_item_count"@.len() == 14
        &&& "sequence_number_initial"@.len() == 23
        &&& "run_idle"@.len() == 8
        &&& "ip"@.len() == 2
    });
    assert("payload_length"@[0] != "cpf_item_count"@[0]);
}

} // verus!
