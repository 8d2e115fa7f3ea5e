//! Foundation Fieldbus HSE (High Speed Ethernet), by its ports.
//!
//! The wire format is not public. What is reported is the port (1089 annunciation, 1090 FMS,
//! 1091 system management), the first four bytes (version, message type, declared length)
//! and a magic string near the start: one transaction for a session and one asset for a
//! server, and never an anomaly.

use vstd::prelude::*;

use crate::bytes;
use crate::bytes::{contains_ascii, cut, get_be16};
use crate::collections;
use crate::collections::{Attributes, KeySet};
use crate::events;
use crate::events::{
    asset_event, asset_observation, chunk_envelope, emit, emit_all, no_events, plain_transaction,
    transaction_event, BronzeEvent, EventView,
};
use crate::packet::{
    AddressView, ChunkView, DecoderInterest, IpAddress, StreamChunk, TransportProtocol,
};
use crate::text;
use crate::text::{cat, dec_text, opt_owned};

verus! {

/// The bytes that a header takes.
pub const HSE_HEADER_MIN: usize = 4;

/// How far into a payload a magic string is looked for.
pub const MAGIC_SEARCH_LIMIT: usize = 16;

pub const PORT_ANNUNCIATION: u16 = 1089;

pub const PORT_FMS: u16 = 1090;

pub const PORT_SYSTEM_MGMT: u16 = 1091;

/// The function behind a port.
pub open spec fn function_of(port: u16) -> Seq<char> {
    if port == 1089 {
        "annunciation"@
    } else if port == 1090 {
        "fms"@
    } else if port == 1091 {
        "system_management"@
    } else {
        "unknown"@
    }
}

/// The function behind a port.
pub fn ff_function(port: u16) -> (r: &'static str)
    ensures
        r@ == function_of(port),
{
    match port {
        PORT_ANNUNCIATION => "annunciation",
        PORT_FMS => "fms",
        PORT_SYSTEM_MGMT => "system_management",
        _ => "unknown",
    }
}

/// The operation of a session on a port.
pub open spec fn operation_of(port: u16) -> Seq<char> {
    if port == 1089 {
        "ff_hse_annunciation"@
    } else if port == 1090 {
        "ff_hse_fms"@
    } else if port == 1091 {
        "ff_hse_system_management"@
    } else {
        "ff_hse_session"@
    }
}

/// The operation of a session on a port.
pub fn operation_for_port(port: u16) -> (r: &'static str)
    ensures
        r@ == operation_of(port),
{
    match port {
        PORT_ANNUNCIATION => "ff_hse_annunciation",
        PORT_FMS => "ff_hse_fms",
        PORT_SYSTEM_MGMT => "ff_hse_system_management",
        _ => "ff_hse_session",
    }
}

/// The start of a payload, as far as a magic string is looked for.
pub open spec fn window(b: Seq<u8>) -> Seq<u8> {
    if b.len() > 16 {
        b.take(16)
    } else {
        b
    }
}

/// The magic string at the start of a payload.
pub open spec fn magic_of(b: Seq<u8>) -> Option<Seq<char>> {
    if text::occurs(window(b), bytes::ascii("FOUNDATION"@)) {
        Some("FOUNDATION"@)
    } else if text::occurs(window(b), bytes::ascii("FF-HSE"@)) {
        Some("FF-HSE"@)
    } else {
        None
    }
}

/// The magic string in the first sixteen bytes of a payload.
pub fn find_magic(haystack: &[u8]) -> (r: Option<&'static str>)
    ensures
        text::opt_str(r) == magic_of(haystack@),
{
    let w = if haystack.len() > MAGIC_SEARCH_LIMIT {
        cut(haystack, 0, MAGIC_SEARCH_LIMIT)
    } else {
        haystack
    };
    assert(w@ =~= window(haystack@));
    if contains_ascii(w, "FOUNDATION") {
        Some("FOUNDATION")
    } else if contains_ascii(w, "FF-HSE") {
        Some("FF-HSE")
    } else {
        None
    }
}

/// Whether a port is one of the three of HSE.
pub open spec fn hse_port(port: u16) -> bool {
    port == 1089 || port == 1090 || port == 1091
}

/// Port and address of the server: the destination where its port is one of HSE, else the
/// source.
pub open spec fn server_of(c: ChunkView) -> (u16, AddressView) {
    if hse_port(c.context.dst_port) {
        (c.context.dst_port, c.context.dst_ip)
    } else {
        (c.context.src_port, c.context.src_ip)
    }
}

/// Port and address of the server.
pub fn hse_server(chunk: &StreamChunk<'_>) -> (r: (u16, IpAddress))
    ensures
        (r.0, r.1@) == server_of(chunk@),
{
    let port = chunk.context.dst_port;
    if port == PORT_ANNUNCIATION || port == PORT_FMS || port == PORT_SYSTEM_MGMT {
        (port, chunk.context.dst_ip.copy())
    } else {
        (chunk.context.src_port, chunk.context.src_ip.copy())
    }
}

/// What has been reported: sessions by their key, servers by address and port.
pub struct Seen {
    pub sessions: Set<Seq<char>>,
    pub assets: Set<(Seq<char>, u16)>,
}

/// The server of a chunk as it is remembered.
pub open spec fn server_key(c: ChunkView) -> (Seq<char>, u16) {
    (server_of(c).1.text(), server_of(c).0)
}

/// The server of a chunk as an asset.
pub open spec fn server_seen(
    c: ChunkView,
    transport: TransportProtocol,
    server_ip: Seq<char>,
    port: u16,
) -> EventView {
    events::asset_event_view(
        c.capture_id,
        events::chunk_env(c, transport, "ff_hse"@),
        events::asset_view(
            server_ip,
            Some("foundation_fieldbus_hse_node"@),
            None,
            None,
            None,
            "ff_hse"@,
            Map::empty().insert("port"@, text::dec(port as nat)).insert(
                "ff_function"@,
                function_of(port),
            ),
        ),
    )
}

/// The server of a chunk as an asset.
pub fn hse_asset_observation(
    chunk: &StreamChunk<'_>,
    transport: TransportProtocol,
    server_ip: &str,
    port: u16,
) -> (r: BronzeEvent)
    ensures
        r@ == server_seen(chunk@, transport, server_ip@, port),
{
    let mut ids = Attributes::new();
    ids.put_dec("port", port);
    ids.put("ff_function", ff_function(port));
    asset_event(
        chunk.capture_id,
        chunk_envelope(chunk, transport, "ff_hse"),
        asset_observation(
            server_ip.to_owned(),
            Some("foundation_fieldbus_hse_node"),
            None,
            None,
            None,
            "ff_hse",
            ids,
        ),
    )
}

/// The attributes of a session, from its first payload.
pub open spec fn session_attrs(p: Seq<u8>, transport: TransportProtocol, port: u16) -> Map<
    Seq<char>,
    Seq<char>,
> {
    let m = Map::empty().insert("port"@, text::dec(port as nat)).insert(
        "transport"@,
        transport.name(),
    );
    let m = if p.len() > 0 {
        m.insert("version_byte"@, text::dec(p[0] as nat))
    } else {
        m
    };
    let m = if p.len() > 1 {
        m.insert("message_type_byte"@, text::dec(p[1] as nat))
    } else {
        m
    };
    let m = if p.len() >= 4 {
        m.insert("declared_length"@, text::dec(bytes::be16(p, 2) as nat))
    } else {
        m
    };
    collections::insert_opt(m, "magic_seen"@, magic_of(p))
}

/// The transaction of a session.
pub open spec fn session_seen(c: ChunkView, transport: TransportProtocol) -> EventView {
    let port = server_of(c).0;
    events::tx_view(
        c.capture_id,
        events::chunk_env(c, transport, "ff_hse"@),
        events::plain_tx(
            operation_of(port),
            "observed"@,
            Some("FF HSE "@ + function_of(port) + " on port "@ + text::dec(port as nat)),
            session_attrs(c.payload, transport, port),
        ),
    )
}

/// What a chunk adds to what has been reported, and the events for it.
pub open spec fn step(s: Seen, c: ChunkView, transport: TransportProtocol) -> (Seen, Seq<
    EventView,
>) {
    let key = server_key(c);
    let ev = events::push_if(
        Seq::empty(),
        !s.assets.contains(key),
        server_seen(c, transport, key.0, key.1),
    );
    (
        Seen { sessions: s.sessions.insert(c.session_key), assets: s.assets.insert(key) },
        events::push_if(ev, !s.sessions.contains(c.session_key), session_seen(c, transport)),
    )
}

/// The HSE decoder.
pub struct FfHseDecoder {
    pub seen_sessions: KeySet<String>,
    pub seen_assets: KeySet<(String, u16)>,
}

impl View for FfHseDecoder {
    type V = Seen;

    open spec fn view(&self) -> Seen {
        Seen { sessions: self.seen_sessions@, assets: self.seen_assets@ }
    }
}

impl Default for FfHseDecoder {
    fn default() -> (r: Self)
        ensures
            r@ == (Seen { sessions: Set::empty(), assets: Set::empty() }),
    {
        FfHseDecoder { seen_sessions: KeySet::new(), seen_assets: KeySet::new() }
    }
}

impl FfHseDecoder {
    /// The name of the decoder.
    pub fn name(&self) -> (r: &'static str)
        ensures
            r@ == "ff_hse"@,
    {
        "ff_hse"
    }

    /// The traffic that the decoder asks for.
    pub fn interest(&self) -> (r: &'static [DecoderInterest])
        ensures
            r@ == seq![
                DecoderInterest::TcpPort(1089),
                DecoderInterest::TcpPort(1090),
                DecoderInterest::TcpPort(1091),
                DecoderInterest::UdpPort(1089),
                DecoderInterest::UdpPort(1090),
                DecoderInterest::UdpPort(1091),
            ],
    {
        &[
            DecoderInterest::TcpPort(1089),
            DecoderInterest::TcpPort(1090),
            DecoderInterest::TcpPort(1091),
            DecoderInterest::UdpPort(1089),
            DecoderInterest::UdpPort(1090),
            DecoderInterest::UdpPort(1091),
        ]
    }

    /// Takes in a chunk of a TCP stream.
    pub fn on_stream_chunk(&mut self, chunk: &StreamChunk<'_>, out: &mut Vec<BronzeEvent>)
        ensures
            final(self)@ == step(old(self)@, chunk@, TransportProtocol::Tcp).0,
            events::events(final(out)@) == events::events(old(out)@) + step(
                old(self)@,
                chunk@,
                TransportProtocol::Tcp,
            ).1,
    {
        self.handle(chunk, TransportProtocol::Tcp, out);
    }

    /// Takes in a datagram.
    pub fn on_datagram(&mut self, chunk: &StreamChunk<'_>, out: &mut Vec<BronzeEvent>)
        ensures
            final(self)@ == step(old(self)@, chunk@, TransportProtocol::Udp).0,
            events::events(final(out)@) == events::events(old(out)@) + step(
                old(self)@,
                chunk@,
                TransportProtocol::Udp,
            ).1,
    {
        self.handle(chunk, TransportProtocol::Udp, out);
    }

    /// Takes in a chunk that came over `transport`.
    pub fn handle(
        &mut self,
        chunk: &StreamChunk<'_>,
        transport: TransportProtocol,
        out: &mut Vec<BronzeEvent>,
    )
        ensures
            final(self)@ == step(old(self)@, chunk@, transport).0,
            events::events(final(out)@) == events::events(old(out)@) + step(
                old(self)@,
                chunk@,
                transport,
            ).1,
    {
        let mut ev = no_events();
        let (port, server_ip) = hse_server(chunk);
        let server_text = server_ip.text();
        if self.seen_assets.insert((server_text.as_str().to_owned(), port)) {
            emit(&mut ev, hse_asset_observation(chunk, transport, server_text.as_str(), port));
        }
        if self.seen_sessions.insert(chunk.session_key.as_str().to_owned()) {
            let p = chunk.payload;
            let mut attributes = Attributes::new();
            attributes.put_dec("port", port);
            attributes.put("transport", transport.as_str());
            if p.len() > 0 {
                attributes.put_dec("version_byte", p[0]);
            }
            if p.len() > 1 {
                attributes.put_dec("message_type_byte", p[1]);
            }
            if p.len() >= HSE_HEADER_MIN {
                attributes.put_dec("declared_length", get_be16(p, 2));
            }
            attributes.insert_some("magic_seen", opt_owned(find_magic(p)));
            let summary = cat(cat("FF HSE ", ff_function(port)).as_str(), " on port ");
            let summary = cat(summary.as_str(), dec_text(port).as_str());
            emit(
                &mut ev,
                transaction_event(
                    chunk.capture_id,
                    chunk_envelope(chunk, transport, "ff_hse"),
                    plain_transaction(
                        operation_for_port(port).to_owned(),
                        "observed",
                        Some(summary),
                        attributes,
                    ),
                ),
            );
        }
        emit_all(out, ev);
    }
}

// ---------------------------------------------------------------------------
// Laws
// ---------------------------------------------------------------------------

/// What has been reported after a run of chunks, each with the transport that it came over.
pub open spec fn after(s: Seen, run: Seq<(ChunkView, TransportProtocol)>) -> Seen
    decreases run.len(),
{
    if run.len() == 0 {
        s
    } else {
        after(step(s, run[0].0, run[0].1).0, run.drop_first())
    }
}

proof fn seen_grows(s: Seen, run: Seq<(ChunkView, TransportProtocol)>)
    ensures
        s.sessions.subset_of(after(s, run).sessions),
        s.assets.subset_of(after(s, run).assets),
    decreases run.len(),
{
    if run.len() > 0 {
        seen_grows(step(s, run[0].0, run[0].1).0, run.drop_first());
    }
}

/// A session is reported once and a server is reported once: after a chunk and whatever
/// follows it, a chunk of the same session gives no transaction, and a chunk of the same
/// server no asset.
pub proof fn reported_once(
    s: Seen,
    first: ChunkView,
    t: TransportProtocol,
    between: Seq<(ChunkView, TransportProtocol)>,
    again: ChunkView,
    u: TransportProtocol,
)
    ensures
        first.session_key == again.session_key ==> events::tx_count(
            step(after(step(s, first, t).0, between), again, u).1,
        ) == 0,
        server_key(first) == server_key(again) ==> events::asset_count(
            step(after(step(s, first, t).0, between), again, u).1,
        ) == 0,
{
    seen_grows(step(s, first, t).0, between);
    let ev = step(after(step(s, first, t).0, between), again, u).1;
    reveal_with_fuel(events::tx_count, 3);
    reveal_with_fuel(events::asset_count, 3);
    assert(ev.len() == 2 ==> ev.drop_last().len() == 1);
    assert(ev.len() >= 1 ==> ev.drop_last().len() == ev.len() - 1);
}

/// A chunk gives a transaction exactly when its session is new and an asset exactly when its
/// server is, and never anything else.
pub proof fn reports_what_is_new(s: Seen, c: ChunkView, t: TransportProtocol)
    ensures
        events::tx_count(step(s, c, t).1) == (if s.sessions.contains(c.session_key) {
            0nat
        } else {
            1nat
        }),
        events::asset_count(step(s, c, t).1) == (if s.assets.contains(server_key(c)) {
            0nat
        } else {
            1nat
        }),
        step(s, c, t).1.len() == events::tx_count(step(s, c, t).1) + events::asset_count(
            step(s, c, t).1,
        ),
{
    let ev = step(s, c, t).1;
    reveal_with_fuel(events::tx_count, 3);
    reveal_with_fuel(events::asset_count, 3);
    assert(ev.len() >= 1 ==> ev.drop_last().len() == ev.len() - 1);
    if ev.len() == 2 {
        assert(ev.drop_last()[0] == ev[0]);
    }
}

/// The server is the end on one of the ports 1089, 1090 and 1091, the destination first; both the
/// session and the node are named by the function of that port.
pub proof fn server_is_on_the_port(s: Seen, c: ChunkView, transport: TransportProtocol)
    requires
        !s.assets.contains(server_key(c)),
        !s.sessions.contains(c.session_key),
    ensures
        ({
            let e = step(s, c, transport).1;
            let a = e[0].family->AssetObservation_0;
            let tx = e[1].family->ProtocolTransaction_0;
            let m = tx.attributes;
            let d = c.context.dst_port;
            let at_destination = d == 1089 || d == 1090 || d == 1091;
            let port = if at_destination {
                d
            } else {
                c.context.src_port
            };
            &&& e.len() == 2
            &&& e[0].family is AssetObservation
            &&& e[1].family is ProtocolTransaction
            &&& at_destination ==> a.asset_key == c.context.dst_ip.text()
            &&& !at_destination ==> a.asset_key == c.context.src_ip.text()
            &&& a.role == Some("foundation_fieldbus_hse_node"@)
            &&& a.protocols == seq!["ff_hse"@]
            &&& a.identifiers["port"@] == text::dec(port as nat)
            &&& tx.status == "observed"@
            &&& m["port"@] == text::dec(port as nat)
            &&& c.payload.len() >= 4 ==> m["version_byte"@] == text::dec(c.payload[0] as nat)
                && m["message_type_byte"@] == text::dec(c.payload[1] as nat)
                && m["declared_length"@] == text::dec(
                (0x100 * c.payload[2] + c.payload[3]) as nat,
            )
            &&& c.payload.len() < 4 ==> !m.contains_key("declared_length"@)
            &&& port == 1089 ==> a.identifiers["ff_function"@] == "annunciation"@
            &&& port == 1090 ==> a.identifiers["ff_function"@] == "fms"@
            &&& port == 1091 ==> a.identifiers["ff_function"@] == "system_management"@
            &&& port != 1089 && port != 1090 && port != 1091 ==> a.identifiers["ff_function"@]
                == "unknown"@
            &&& port == 1089 ==> tx.operation == "ff_hse_annunciation"@
            &&& port == 1090 ==> tx.operation == "ff_hse_fms"@
            &&& port == 1091 ==> tx.operation == "ff_hse_system_management"@
            &&& port != 1089 && port != 1090 && port != 1091 ==> tx.operation == "ff_hse_session"@
        }),
{
    reveal_strlit("port");
    reveal_strlit("ff_function");
    reveal_strlit("transport");
    reveal_strlit("version_byte");
    reveal_strlit("message_type_byte");
    reveal_strlit("declared_length");
    reveal_strlit("magic_seen");
    assert({
        &&& "port"@.len() == 4
        &&& "ff_function"@.len() == 11
        &&& "transport"@.len() == 9
        &&& "version_byte"@.len() == 12
        &&& "message_type_byte"@.len() == 17
        &&& "declared_length"@.len() == 15
        &&& "magic_seen"@.len() == 10
    });
}

} // verus!
