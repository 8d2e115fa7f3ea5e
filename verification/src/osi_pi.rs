//! OSIsoft PI Server and its connectors, by port and magic string.
//!
//! The protocol is proprietary. A server on one of the ports 5450 (PI Net Manager) and 5460
//! to 5462 (connectors) is reported once as an asset. A session is reported once, with the
//! first payload that holds one of the known magic strings, and with a version number of the
//! form `3.4.<digits>.<digits>` where the payload has one.

use vstd::prelude::*;

use crate::bytes;
use crate::bytes::{bytes_at, contains_ascii, cut};
use crate::collections;
use crate::collections::{Attributes, KeySet};
use crate::events;
use crate::events::{
    asset_event, asset_observation, chunk_envelope, emit, emit_all, no_events, plain_transaction,
    transaction_event, BronzeEvent, EventView,
};
use crate::packet::{
    AddressView, ChunkView, DecoderInterest, IpAddress, StreamChunk, TransportProtocol,
};
use crate::text;
use crate::text::{cat, dec_text};

verus! {

/// How far into a payload a magic string is looked for.
pub const MAGIC_SEARCH_LIMIT: usize = 256;

/// How far into a payload a version is looked for.
pub const VERSION_SEARCH_LIMIT: usize = 512;

/// The first `limit` bytes, or all where there are fewer.
pub open spec fn window(b: Seq<u8>, limit: nat) -> Seq<u8> {
    if b.len() > limit {
        b.take(limit as int)
    } else {
        b
    }
}

fn first_bytes(b: &[u8], limit: usize) -> (r: &[u8])
    ensures
        r@ == window(b@, limit as nat),
{
    if b.len() > limit {
        let r = cut(b, 0, limit);
        assert(r@ =~= b@.take(limit as int));
        r
    } else {
        b
    }
}

// ---------------------------------------------------------------------------
// Magic strings
// ---------------------------------------------------------------------------

/// The first of the magic strings that stands among the first `limit` bytes.
pub open spec fn magic_of(b: Seq<u8>, limit: nat) -> Option<Seq<char>> {
    let w = window(b, limit);
    if text::occurs(w, bytes::ascii("PINETMGR"@)) {
        Some("PINETMGR"@)
    } else if text::occurs(w, bytes::ascii("PISystem"@)) {
        Some("PISystem"@)
    } else if text::occurs(w, bytes::ascii("PI-API"@)) {
        Some("PI-API"@)
    } else if text::occurs(w, bytes::ascii("AFServer"@)) {
        Some("AFServer"@)
    } else {
        None
    }
}

/// The first of the magic strings that stands among the first `limit` bytes.
pub fn find_magic(haystack: &[u8], limit: usize) -> (r: Option<&'static str>)
    ensures
        text::opt_str(r) == magic_of(haystack@, limit as nat),
{
    let w = first_bytes(haystack, limit);
    if contains_ascii(w, "PINETMGR") {
        Some("PINETMGR")
    } else if contains_ascii(w, "PISystem") {
        Some("PISystem")
    } else if contains_ascii(w, "PI-API") {
        Some("PI-API")
    } else if contains_ascii(w, "AFServer") {
        Some("AFServer")
    } else {
        None
    }
}

// ---------------------------------------------------------------------------
// Version
// ---------------------------------------------------------------------------

/// The place after the digits from `i` on.
pub open spec fn digits_end(w: Seq<u8>, i: int) -> int
    decreases w.len() - i,
{
    if 0 <= i < w.len() && 48 <= w[i] <= 57 {
        digits_end(w, i + 1)
    } else {
        i
    }
}

/// The place after the version that starts at `start`: `3.4.`, digits, a dot and digits.
pub open spec fn version_end(w: Seq<u8>, start: int) -> Option<int> {
    if text::occurs_at(w, seq![51u8, 46, 52, 46], start) {
        let dot = digits_end(w, start + 4);
        if dot > start + 4 && dot < w.len() && w[dot] == 46 {
            let end = digits_end(w, dot + 1);
            if end > dot + 1 {
                Some(end)
            } else {
                None
            }
        } else {
            None
        }
    } else {
        None
    }
}

/// The characters of ASCII bytes.
pub open spec fn ascii_text(b: Seq<u8>) -> Seq<char> {
    Seq::new(b.len(), |i: int| b[i] as char)
}

/// The first version that starts at `i` or later.
pub open spec fn version_from(w: Seq<u8>, i: int) -> Option<Seq<char>>
    decreases w.len() - i,
{
    if i < 0 || i >= w.len() {
        None
    } else {
        match version_end(w, i) {
            Some(end) => Some(ascii_text(w.subrange(i, end))),
            None => version_from(w, i + 1),
        }
    }
}

/// The first version among the first `limit` bytes.
pub open spec fn version_of(b: Seq<u8>, limit: nat) -> Option<Seq<char>> {
    version_from(window(b, limit), 0)
}

fn skip_digits(w: &[u8], i: usize) -> (r: usize)
    requires
        i <= w.len(),
    ensures
        r == digits_end(w@, i as int),
        i <= r <= w.len(),
        forall|j: int| i <= j < r ==> 48 <= #[trigger] w@[j] <= 57,
{
    let mut p: usize = i;
    while p < w.len() && 48 <= w[p] && w[p] <= 57
        invariant
            i <= p <= w.len(),
            digits_end(w@, i as int) == digits_end(w@, p as int),
            forall|j: int| i <= j < p ==> 48 <= #[trigger] w@[j] <= 57,
        decreases w.len() - p,
    {
        p = p + 1;
    }
    p
}

fn version_at(w: &[u8], start: usize) -> (r: Option<usize>)
    requires
        start + 4 <= w.len(),
    ensures
        match r {
            Some(end) => version_end(w@, start as int) == Some(end as int) && start <= end
                <= w.len(),
            None => version_end(w@, start as int) is None,
        },
{
    let prefix: [u8; 4] = [51, 46, 52, 46];
    assert(prefix@ =~= seq![51u8, 46, 52, 46]);
    if !bytes_at(w, &prefix, start) {
        return None;
    }
    let dot = skip_digits(w, start + 4);
    if dot == start + 4 || dot >= w.len() || w[dot] != 46 {
        return None;
    }
    let end = skip_digits(w, dot + 1);
    if end == dot + 1 {
        return None;
    }
    Some(end)
}

fn text_of_ascii(b: &[u8]) -> (r: String)
    ensures
        r@ == ascii_text(b@),
{
    let mut s = String::new();
    let mut i: usize = 0;
    assert(s@ =~= ascii_text(b@.take(0)));
    while i < b.len()
        invariant
            i <= b.len(),
            s@ == ascii_text(b@.take(i as int)),
        decreases b.len() - i,
    {
        s.push(b[i] as char);
        assert(ascii_text(b@.take(i + 1)) =~= ascii_text(b@.take(i as int)).push(
            b@[i as int] as char,
        ));
        i = i + 1;
    }
    assert(b@.take(i as int) =~= b@);
    s
}

/// The first version of the form `3.4.<digits>.<digits>` among the first `limit` bytes.
pub fn find_version(haystack: &[u8], limit: usize) -> (r: Option<String>)
    ensures
        text::opt_view(r) == version_of(haystack@, limit as nat),
{
    let w = first_bytes(haystack, limit);
    let mut i: usize = 0;
    while i < w.len()
        invariant
            i <= w.len(),
            w@ == window(haystack@, limit as nat),
            version_of(haystack@, limit as nat) == version_from(w@, i as int),
        decreases w.len() - i,
    {
        if w.len() - i >= 4 {
            match version_at(w, i) {
                Some(end) => {
                    return Some(text_of_ascii(cut(w, i, end)));
                },
                None => {},
            }
        }
        i = i + 1;
    }
    None
}

// ---------------------------------------------------------------------------
// Servers
// ---------------------------------------------------------------------------

/// What listens on a port.
pub open spec fn kind_of(port: u16) -> Seq<char> {
    if port == 5450 {
        "pi_net_manager"@
    } else {
        "pi_connector"@
    }
}

/// What listens on a port.
pub fn connector_kind(port: u16) -> (r: &'static str)
    ensures
        r@ == kind_of(port),
{
    if port == 5450 {
        "pi_net_manager"
    } else {
        "pi_connector"
    }
}

/// Whether a port is one of PI.
pub open spec fn pi_port(port: u16) -> bool {
    port == 5450 || 5460 <= port <= 5462
}

/// Port and address of the server: the destination where its port is one of PI, else the
/// source.
pub open spec fn server_of(c: ChunkView) -> (u16, AddressView) {
    if pi_port(c.context.dst_port) {
        (c.context.dst_port, c.context.dst_ip)
    } else {
        (c.context.src_port, c.context.src_ip)
    }
}

/// Port and address of the server.
pub fn pi_server(chunk: &StreamChunk<'_>) -> (r: (u16, IpAddress))
    ensures
        (r.0, r.1@) == server_of(chunk@),
{
    let port = chunk.context.dst_port;
    if port == 5450 || port == 5460 || port == 5461 || port == 5462 {
        (port, chunk.context.dst_ip.copy())
    } else {
        (chunk.context.src_port, chunk.context.src_ip.copy())
    }
}

/// What has been reported: sessions by their key, servers by address and port.
pub struct Seen {
    pub sessions: Set<Seq<char>>,
    pub assets: Set<(Seq<char>, u16)>,
}

/// The server of a chunk as it is remembered.
pub open spec fn server_key(c: ChunkView) -> (Seq<char>, u16) {
    (server_of(c).1.text(), server_of(c).0)
}

/// The server of a chunk as an asset.
pub open spec fn server_seen(c: ChunkView, server_ip: Seq<char>, port: u16) -> EventView {
    events::asset_event_view(
        c.capture_id,
        events::chunk_env(c, TransportProtocol::Tcp, "osi_pi"@),
        events::asset_view(
            server_ip,
            Some("osisoft_pi_server"@),
            Some("OSIsoft"@),
            None,
            None,
            "osi_pi"@,
            Map::empty().insert("port"@, text::dec(port as nat)),
        ),
    )
}

/// The server of a chunk as an asset.
pub fn pi_asset_observation(chunk: &StreamChunk<'_>, server_ip: &str, port: u16) -> (r: BronzeEvent)
    ensures
        r@ == server_seen(chunk@, server_ip@, port),
{
    let mut ids = Attributes::new();
    ids.put_dec("port", port);
    asset_event(
        chunk.capture_id,
        chunk_envelope(chunk, TransportProtocol::Tcp, "osi_pi"),
        asset_observation(
            server_ip.to_owned(),
            Some("osisoft_pi_server"),
            Some("OSIsoft"),
            None,
            None,
            "osi_pi",
            ids,
        ),
    )
}

/// The transaction of a session whose payload holds a magic string.
pub open spec fn session_seen(c: ChunkView, magic: Seq<char>) -> EventView {
    let port = server_of(c).0;
    let m = Map::empty().insert("port"@, text::dec(port as nat)).insert("magic_seen"@, magic).insert(
        "connector_kind"@,
        kind_of(port),
    );
    events::tx_view(
        c.capture_id,
        events::chunk_env(c, TransportProtocol::Tcp, "osi_pi"@),
        events::plain_tx(
            "pi_session_observed"@,
            "observed"@,
            Some("OSIsoft PI session on port "@ + text::dec(port as nat)),
            collections::insert_opt(m, "version_string"@, version_of(c.payload, 512)),
        ),
    )
}

/// Whether a chunk gets its session reported.
pub open spec fn new_session(s: Seen, c: ChunkView) -> bool {
    !s.sessions.contains(c.session_key) && magic_of(c.payload, 256) is Some
}

/// What a chunk adds to what has been reported, and the events for it.
pub open spec fn step(s: Seen, c: ChunkView) -> (Seen, Seq<EventView>) {
    let key = server_key(c);
    let ev = events::push_if(
        Seq::empty(),
        !s.assets.contains(key),
        server_seen(c, key.0, key.1),
    );
    if new_session(s, c) {
        (
            Seen { sessions: s.sessions.insert(c.session_key), assets: s.assets.insert(key) },
            ev.push(session_seen(c, magic_of(c.payload, 256)->Some_0)),
        )
    } else {
        (Seen { sessions: s.sessions, assets: s.assets.insert(key) }, ev)
    }
}

/// The PI decoder.
pub struct OsiPiDecoder {
    pub seen_sessions: KeySet<String>,
    pub seen_assets: KeySet<(String, u16)>,
}

impl View for OsiPiDecoder {
    type V = Seen;

    open spec fn view(&self) -> Seen {
        Seen { sessions: self.seen_sessions@, assets: self.seen_assets@ }
    }
}

impl Default for OsiPiDecoder {
    fn default() -> (r: Self)
        ensures
            r@ == (Seen { sessions: Set::empty(), assets: Set::empty() }),
    {
        OsiPiDecoder { seen_sessions: KeySet::new(), seen_assets: KeySet::new() }
    }
}

impl OsiPiDecoder {
    /// The name of the decoder.
    pub fn name(&self) -> (r: &'static str)
        ensures
            r@ == "osi_pi"@,
    {
        "osi_pi"
    }

    /// The traffic that the decoder asks for.
    pub fn interest(&self) -> (r: &'static [DecoderInterest])
        ensures
            r@ == seq![
                DecoderInterest::TcpPort(5450),
                DecoderInterest::TcpPort(5460),
                DecoderInterest::TcpPort(5461),
                DecoderInterest::TcpPort(5462),
            ],
    {
        &[
            DecoderInterest::TcpPort(5450),
            DecoderInterest::TcpPort(5460),
            DecoderInterest::TcpPort(5461),
            DecoderInterest::TcpPort(5462),
        ]
    }

    /// Takes in a chunk of a TCP stream.
    pub fn on_stream_chunk(&mut self, chunk: &StreamChunk<'_>, out: &mut Vec<BronzeEvent>)
        ensures
            final(self)@ == step(old(self)@, chunk@).0,
            events::events(final(out)@) == events::events(old(out)@) + step(
                old(self)@,
                chunk@,
            ).1,
    {
        let mut ev = no_events();
        let (port, server_ip) = pi_server(chunk);
        let server_text = server_ip.text();
        if self.seen_assets.insert((server_text.as_str().to_owned(), port)) {
            emit(&mut ev, pi_asset_observation(chunk, server_text.as_str(), port));
        }
        if !self.seen_sessions.contains(&chunk.session_key) {
            match find_magic(chunk.payload, MAGIC_SEARCH_LIMIT) {
                Some(magic) => {
                    let _ = self.seen_sessions.insert(chunk.session_key.as_str().to_owned());
                    let mut attributes = Attributes::new();
                    attributes.put_dec("port", port);
                    attributes.put("magic_seen", magic);
                    attributes.put("connector_kind", connector_kind(port));
                    attributes.insert_some(
                        "version_string",
                        find_version(chunk.payload, VERSION_SEARCH_LIMIT),
                    );
                    emit(
                        &mut ev,
                        transaction_event(
                            chunk.capture_id,
                            chunk_envelope(chunk, TransportProtocol::Tcp, "osi_pi"),
                            plain_transaction(
                                "pi_session_observed".to_owned(),
                                "observed",
                                Some(cat("OSIsoft PI session on port ", dec_text(port).as_str())),
                                attributes,
                            ),
                        ),
                    );
                },
                None => {},
            }
        }
        emit_all(out, ev);
    }
}

// ---------------------------------------------------------------------------
// Laws
// ---------------------------------------------------------------------------

/// What has been reported after a run of chunks.
pub open spec fn after(s: Seen, run: Seq<ChunkView>) -> Seen
    decreases run.len(),
{
    if run.len() == 0 {
        s
    } else {
        after(step(s, run[0]).0, run.drop_first())
    }
}

proof fn seen_grows(s: Seen, run: Seq<ChunkView>)
    ensures
        s.sessions.subset_of(after(s, run).sessions),
        s.assets.subset_of(after(s, run).assets),
    decreases run.len(),
{
    if run.len() > 0 {
        seen_grows(step(s, run[0]).0, run.drop_first());
    }
}

/// A server is reported once, and a session once with the first payload that holds a magic
/// string: after such a chunk and whatever follows it, no chunk of the same session gives a
/// transaction and no chunk of the same server an asset.
pub proof fn reported_once(s: Seen, first: ChunkView, between: Seq<ChunkView>, again: ChunkView)
    ensures
        first.session_key == again.session_key && magic_of(first.payload, 256) is Some
            ==> events::tx_count(step(after(step(s, first).0, between), again).1) == 0,
        server_key(first) == server_key(again) ==> events::asset_count(
            step(after(step(s, first).0, between), again).1,
        ) == 0,
{
    seen_grows(step(s, first).0, between);
    let ev = step(after(step(s, first).0, between), again).1;
    reveal_with_fuel(events::tx_count, 3);
    reveal_with_fuel(events::asset_count, 3);
    assert(ev.len() >= 1 ==> ev.drop_last().len() == ev.len() - 1);
}

/// A chunk without a magic string never gives a transaction, whatever its ports.
pub proof fn no_transaction_from_the_port_alone(s: Seen, c: ChunkView)
    requires
        magic_of(c.payload, 256) is None,
    ensures
        events::tx_count(step(s, c).1) == 0,
        step(s, c).0.sessions == s.sessions,
{
    reveal_with_fuel(events::tx_count, 2);
    let ev = step(s, c).1;
    assert(ev.len() >= 1 ==> ev.drop_last().len() == ev.len() - 1);
}

/// The server is the end on port 5450 or 5460 to 5462, the destination first. Port 5450 is the net
/// manager, another one a connector.
pub proof fn server_is_on_the_port(s: Seen, c: ChunkView)
    requires
        !s.assets.contains(server_key(c)),
        !s.sessions.contains(c.session_key),
        magic_of(c.payload, 256) is Some,
    ensures
        ({
            let e = step(s, c).1;
            let a = e[0].family->AssetObservation_0;
            let tx = e[1].family->ProtocolTransaction_0;
            let d = c.context.dst_port;
            let at_destination = d == 5450 || d == 5460 || d == 5461 || d == 5462;
            let port = if at_destination {
                d
            } else {
                c.context.src_port
            };
            &&& e.len() == 2
            &&& at_destination ==> a.asset_key == c.context.dst_ip.text()
            &&& !at_destination ==> a.asset_key == c.context.src_ip.text()
            &&& a.role == Some("osisoft_pi_server"@)
            &&& a.vendor == Some("OSIsoft"@)
            &&& a.identifiers["port"@] == text::dec(port as nat)
            &&& tx.operation == "pi_session_observed"@
            &&& tx.status == "observed"@
            &&& tx.attributes["port"@] == text::dec(port as nat)
            &&& tx.attributes["magic_seen"@] == magic_of(c.payload, 256)->Some_0
            &&& tx.attributes["connector_kind"@] == (if port == 5450 {
                "pi_net_manager"@
            } else {
                "pi_connector"@
            })
        }),
{
    reveal_strlit("port");
    reveal_strlit("magic_seen");
    reveal_strlit("connector_kind");
    reveal_strlit("version_string");
    assert({
        &&& "port"@.len() == 4
        &&& "magic_seen"@.len() == 10
        &&& "connector_kind"@.len() == 14
        &&& "version_string"@.len() == 14
    });
    assert("connector_kind"@[0] != "version_string"@[0]);
}

} // verus!
