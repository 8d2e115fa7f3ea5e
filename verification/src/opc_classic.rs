//! OPC Classic (DA, HDA and AE), by the interfaces that a DCE/RPC client binds on TCP port 135.
//!
//! A BIND or ALTER_CONTEXT whose context list names at least one OPC interface gives a
//! transaction and the server as an asset, and an anomaly of low severity where the list breaks
//! off. One that names no OPC interface gives no event at all. What is bound on ports that the
//! endpoint mapper hands out later is not seen.
//!
//! An interface UUID on the wire has three numbers in the byte order of the sender and eight
//! bytes as they are printed: in little-endian, `39c13a4d-011e-11d0-9675-0020afd8adb3` is
//! `4D 3A C1 39 | 1E 01 | D0 11 | 96 75 00 20 AF D8 AD B3`.

use vstd::prelude::*;

use crate::bytes;
use crate::bytes::{cut, get_be16, get_be32, get_le16, get_le32};
use crate::collections::Attributes;
use crate::events;
use crate::events::{
    asset_event, asset_observation, chunk_envelope, emit, emit_all, no_events, parse_anomaly_event,
    plain_transaction, transaction_event, BronzeEvent, EnvelopeView, EventEnvelope, EventView,
};
use crate::packet::{ChunkView, DecoderInterest, StreamChunk, Timestamp, TransportProtocol};
use crate::text;
use crate::text::{cat, hex_text, join_texts, no_texts, push_text, same_text};

verus! {

/// The bytes of the common header.
pub const HDR_LEN: usize = 16;

pub const PTYPE_BIND: u8 = 0x0B;

pub const PTYPE_ALTER_CONTEXT: u8 = 0x0E;

/// Data access, historical data access, alarms and events.
#[derive(Debug, Clone, Copy, PartialEq, Eq, Structural)]
pub enum OpcFamily {
    Da,
    Hda,
    Ae,
}

/// An OPC interface.
#[derive(Debug)]
pub struct OpcIface {
    pub name: &'static str,
    pub family: OpcFamily,
}

/// An interface as contracts speak of it.
pub struct IfaceView {
    pub name: Seq<char>,
    pub family: OpcFamily,
}

impl View for OpcIface {
    type V = IfaceView;

    open spec fn view(&self) -> IfaceView {
        IfaceView { name: self.name@, family: self.family }
    }
}

/// The views of a list of interfaces.
pub open spec fn ifaces(v: Seq<OpcIface>) -> Seq<IfaceView> {
    Seq::new(v.len(), |i: int| v[i]@)
}

/// The OPC interface with a UUID.
pub open spec fn iface_of(uuid: Seq<char>) -> Option<IfaceView> {
    if uuid == "39c13a4d-011e-11d0-9675-0020afd8adb3"@ {
        Some(IfaceView { name: "IOPCServer"@, family: OpcFamily::Da })
    } else if uuid == "39c13a4e-011e-11d0-9675-0020afd8adb3"@ {
        Some(IfaceView { name: "IOPCServerPublicGroups"@, family: OpcFamily::Da })
    } else if uuid == "39c13a4f-011e-11d0-9675-0020afd8adb3"@ {
        Some(IfaceView { name: "IOPCBrowseServerAddressSpace"@, family: OpcFamily::Da })
    } else if uuid == "39c13a50-011e-11d0-9675-0020afd8adb3"@ {
        Some(IfaceView { name: "IOPCGroupStateMgt"@, family: OpcFamily::Da })
    } else if uuid == "39c13a51-011e-11d0-9675-0020afd8adb3"@ {
        Some(IfaceView { name: "IOPCPublicGroupStateMgt"@, family: OpcFamily::Da })
    } else if uuid == "39c13a52-011e-11d0-9675-0020afd8adb3"@ {
        Some(IfaceView { name: "IOPCSyncIO"@, family: OpcFamily::Da })
    } else if uuid == "39c13a53-011e-11d0-9675-0020afd8adb3"@ {
        Some(IfaceView { name: "IOPCAsyncIO"@, family: OpcFamily::Da })
    } else if uuid == "39c13a54-011e-11d0-9675-0020afd8adb3"@ {
        Some(IfaceView { name: "IOPCItemMgt"@, family: OpcFamily::Da })
    } else if uuid == "39c13a55-011e-11d0-9675-0020afd8adb3"@ {
        Some(IfaceView { name: "IEnumOPCItemAttributes"@, family: OpcFamily::Da })
    } else if uuid == "39c13a70-011e-11d0-9675-0020afd8adb3"@ {
        Some(IfaceView { name: "IOPCDataCallback"@, family: OpcFamily::Da })
    } else if uuid == "39c13a71-011e-11d0-9675-0020afd8adb3"@ {
        Some(IfaceView { name: "IOPCAsyncIO2"@, family: OpcFamily::Da })
    } else if uuid == "39c13a72-011e-11d0-9675-0020afd8adb3"@ {
        Some(IfaceView { name: "IOPCItemProperties"@, family: OpcFamily::Da })
    } else if uuid == "1f1217b1-deef-11d1-b04d-00c04fa31a86"@ {
        Some(IfaceView { name: "IOPCHDA_Server"@, family: OpcFamily::Hda })
    } else if uuid == "1f1217b2-deef-11d1-b04d-00c04fa31a86"@ {
        Some(IfaceView { name: "IOPCHDA_Browser"@, family: OpcFamily::Hda })
    } else if uuid == "65168851-5783-11d1-84a0-00608cb8a7e9"@ {
        Some(IfaceView { name: "IOPCEventServer"@, family: OpcFamily::Ae })
    } else if uuid == "65168852-5783-11d1-84a0-00608cb8a7e9"@ {
        Some(IfaceView { name: "IOPCEventSubscriptionMgt"@, family: OpcFamily::Ae })
    } else {
        None
    }
}

/// The view of an optional interface.
pub open spec fn opt_iface(i: Option<OpcIface>) -> Option<IfaceView> {
    match i {
        Some(x) => Some(x@),
        None => None,
    }
}

/// The OPC interface with a UUID.
pub fn resolve_opc(uuid: &str) -> (r: Option<OpcIface>)
    ensures
        opt_iface(r) == iface_of(uuid@),
{
    if same_text(uuid, "39c13a4d-011e-11d0-9675-0020afd8adb3") {
        Some(OpcIface { name: "IOPCServer", family: OpcFamily::Da })
    } else if same_text(uuid, "39c13a4e-011e-11d0-9675-0020afd8adb3") {
        Some(OpcIface { name: "IOPCServerPublicGroups", family: OpcFamily::Da })
    } else if same_text(uuid, "39c13a4f-011e-11d0-9675-0020afd8adb3") {
        Some(OpcIface { name: "IOPCBrowseServerAddressSpace", family: OpcFamily::Da })
    } else if same_text(uuid, "39c13a50-011e-11d0-9675-0020afd8adb3") {
        Some(OpcIface { name: "IOPCGroupStateMgt", family: OpcFamily::Da })
    } else if same_text(uuid, "39c13a51-011e-11d0-9675-0020afd8adb3") {
        Some(OpcIface { name: "IOPCPublicGroupStateMgt", family: OpcFamily::Da })
    } else if same_text(uuid, "39c13a52-011e-11d0-9675-0020afd8adb3") {
        Some(OpcIface { name: "IOPCSyncIO", family: OpcFamily::Da })
    } else if same_text(uuid, "39c13a53-011e-11d0-9675-0020afd8adb3") {
        Some(OpcIface { name: "IOPCAsyncIO", family: OpcFamily::Da })
    } else if same_text(uuid, "39c13a54-011e-11d0-9675-0020afd8adb3") {
        Some(OpcIface { name: "IOPCItemMgt", family: OpcFamily::Da })
    } else if same_text(uuid, "39c13a55-011e-11d0-9675-0020afd8adb3") {
        Some(OpcIface { name: "IEnumOPCItemAttributes", family: OpcFamily::Da })
    } else if same_text(uuid, "39c13a70-011e-11d0-9675-0020afd8adb3") {
        Some(OpcIface { name: "IOPCDataCallback", family: OpcFamily::Da })
    } else if same_text(uuid, "39c13a71-011e-11d0-9675-0020afd8adb3") {
        Some(OpcIface { name: "IOPCAsyncIO2", family: OpcFamily::Da })
    } else if same_text(uuid, "39c13a72-011e-11d0-9675-0020afd8adb3") {
        Some(OpcIface { name: "IOPCItemProperties", family: OpcFamily::Da })
    } else if same_text(uuid, "1f1217b1-deef-11d1-b04d-00c04fa31a86") {
        Some(OpcIface { name: "IOPCHDA_Server", family: OpcFamily::Hda })
    } else if same_text(uuid, "1f1217b2-deef-11d1-b04d-00c04fa31a86") {
        Some(OpcIface { name: "IOPCHDA_Browser", family: OpcFamily::Hda })
    } else if same_text(uuid, "65168851-5783-11d1-84a0-00608cb8a7e9") {
        Some(OpcIface { name: "IOPCEventServer", family: OpcFamily::Ae })
    } else if same_text(uuid, "65168852-5783-11d1-84a0-00608cb8a7e9") {
        Some(OpcIface { name: "IOPCEventSubscriptionMgt", family: OpcFamily::Ae })
    } else {
        None
    }
}

// ---------------------------------------------------------------------------
// PDUs
// ---------------------------------------------------------------------------

/// What is read of a common header.
#[derive(Debug, Clone, Copy)]
pub struct Hdr {
    pub ptype: u8,
    pub le: bool,
    pub call_id: u32,
}

/// The common header of a PDU.
pub open spec fn header_of(d: Seq<u8>) -> Option<Hdr> {
    if d.len() < 16 || d[0] != 5 {
        None
    } else {
        let le = d[4] & 0x10 != 0;
        Some(
            Hdr {
                ptype: d[2],
                le,
                call_id: if le {
                    bytes::le32(d, 12)
                } else {
                    bytes::be32(d, 12)
                },
            },
        )
    }
}

/// The common header of a PDU.
pub fn parse_hdr(d: &[u8]) -> (r: Option<Hdr>)
    ensures
        r == header_of(d@),
{
    if d.len() < HDR_LEN || d[0] != 5 {
        return None;
    }
    let le = d[4] & 0x10 != 0;
    let call_id = if le {
        get_le32(d, 12)
    } else {
        get_be32(d, 12)
    };
    Some(Hdr { ptype: d[2], le, call_id })
}

/// A UUID as it is printed, from its three numbers and the eight bytes from `i` on.
pub open spec fn uuid_text(d1: u32, d2: u16, d3: u16, b: Seq<u8>, i: int) -> Seq<char> {
    text::hex(d1 as nat, 8) + "-"@ + text::hex(d2 as nat, 4) + "-"@ + text::hex(d3 as nat, 4)
        + "-"@ + text::hex(b[i] as nat, 2) + text::hex(b[i + 1] as nat, 2) + "-"@ + text::hex(
        b[i + 2] as nat,
        2,
    ) + text::hex(b[i + 3] as nat, 2) + text::hex(b[i + 4] as nat, 2) + text::hex(
        b[i + 5] as nat,
        2,
    ) + text::hex(b[i + 6] as nat, 2) + text::hex(b[i + 7] as nat, 2)
}

fn uuid_of_parts(d1: u32, d2: u16, d3: u16, b: &[u8], i: usize) -> (r: String)
    requires
        i + 8 <= b.len(),
    ensures
        r@ == uuid_text(d1, d2, d3, b@, i as int),
{
    let s = cat(hex_text(d1, 8).as_str(), "-");
    let s = cat(cat(s.as_str(), hex_text(d2, 4).as_str()).as_str(), "-");
    let s = cat(cat(s.as_str(), hex_text(d3, 4).as_str()).as_str(), "-");
    let s = cat(s.as_str(), hex_text(b[i], 2).as_str());
    let s = cat(cat(s.as_str(), hex_text(b[i + 1], 2).as_str()).as_str(), "-");
    let s = cat(s.as_str(), hex_text(b[i + 2], 2).as_str());
    let s = cat(s.as_str(), hex_text(b[i + 3], 2).as_str());
    let s = cat(s.as_str(), hex_text(b[i + 4], 2).as_str());
    let s = cat(s.as_str(), hex_text(b[i + 5], 2).as_str());
    let s = cat(s.as_str(), hex_text(b[i + 6], 2).as_str());
    cat(s.as_str(), hex_text(b[i + 7], 2).as_str())
}

/// The UUID at `i`, in the byte order of the PDU.
pub open spec fn uuid_at(b: Seq<u8>, i: int, le: bool) -> Seq<char> {
    if le {
        uuid_text(bytes::le32(b, i), bytes::le16(b, i + 4), bytes::le16(b, i + 6), b, i + 8)
    } else {
        uuid_text(bytes::be32(b, i), bytes::be16(b, i + 4), bytes::be16(b, i + 6), b, i + 8)
    }
}

fn read_uuid(b: &[u8], i: usize, le: bool) -> (r: String)
    requires
        i + 16 <= b.len(),
    ensures
        r@ == uuid_at(b@, i as int, le),
{
    if le {
        decode_uuid_le(cut(b, i, i + 16))
    } else {
        uuid_of_parts(get_be32(b, i), get_be16(b, i + 4), get_be16(b, i + 6), b, i + 8)
    }
}

/// The UUID in sixteen little-endian bytes.
pub fn decode_uuid_le(b: &[u8]) -> (r: String)
    requires
        b@.len() >= 16,
    ensures
        r@ == uuid_at(b@, 0, true),
{
    uuid_of_parts(get_le32(b, 0), get_le16(b, 4), get_le16(b, 6), b, 8)
}

/// The OPC interfaces in the `n` contexts from `pos` on, added to those before, and whether
/// the list breaks off.
pub open spec fn contexts_from(b: Seq<u8>, pos: int, n: nat, le: bool, hits: Seq<IfaceView>) -> (
    Seq<IfaceView>,
    bool,
)
    decreases n,
{
    if n == 0 {
        (hits, false)
    } else if b.len() < pos + 24 {
        (hits, true)
    } else {
        let found = match iface_of(uuid_at(b, pos + 4, le)) {
            Some(i) => hits.push(i),
            None => hits,
        };
        contexts_from(b, pos + 24 + 20 * b[pos + 2], (n - 1) as nat, le, found)
    }
}

/// The OPC interfaces that a BIND or ALTER_CONTEXT names, and whether its context list breaks
/// off; nothing where the body is too short for its fixed part.
pub open spec fn bound_ifaces(d: Seq<u8>, le: bool) -> Option<(Seq<IfaceView>, bool)> {
    if d.len() < 28 {
        None
    } else {
        let b = d.subrange(16, d.len() as int);
        Some(contexts_from(b, 12, b[8] as nat, le, Seq::empty()))
    }
}

/// The view of what a context list says.
pub open spec fn bound_view(r: Option<(Vec<OpcIface>, bool)>) -> Option<(Seq<IfaceView>, bool)> {
    match r {
        Some((v, t)) => Some((ifaces(v@), t)),
        None => None,
    }
}

/// The OPC interfaces that a BIND or ALTER_CONTEXT names, and whether its context list breaks
/// off; nothing where the body is too short for its fixed part.
pub fn parse_bind_opc(d: &[u8], le: bool) -> (r: Option<(Vec<OpcIface>, bool)>)
    ensures
        bound_view(r) == bound_ifaces(d@, le),
{
    if d.len() < 28 {
        return None;
    }
    let b = cut(d, HDR_LEN, d.len());
    let mut hits: Vec<OpcIface> = Vec::new();
    assert(ifaces(hits@) =~= Seq::<IfaceView>::empty());
    let mut left: u8 = b[8];
    let mut pos: usize = 12;
    while left > 0
        invariant
            b@.len() >= 12,
            pos + 5124 * left <= 12 + 5124 * 255,
            Some(contexts_from(b@, pos as int, left as nat, le, ifaces(hits@))) == bound_ifaces(
                d@,
                le,
            ),
        decreases left,
    {
        if b.len() < pos + 24 {
            return Some((hits, true));
        }
        let n_syn = b[pos + 2] as usize;
        match resolve_opc(read_uuid(b, pos + 4, le).as_str()) {
            Some(iface) => {
                let ghost before = hits@;
                hits.push(iface);
                assert(ifaces(hits@) =~= ifaces(before).push(iface@));
            },
            None => {},
        }
        pos = pos + 24 + n_syn * 20;
        left = left - 1;
    }
    Some((hits, false))
}

// ---------------------------------------------------------------------------
// Events
// ---------------------------------------------------------------------------

/// The envelope of a chunk.
pub open spec fn env(c: ChunkView) -> EnvelopeView {
    events::chunk_env(c, TransportProtocol::Tcp, "opc_classic"@)
}

/// The envelope of a chunk.
pub fn envelope(chunk: &StreamChunk<'_>) -> (r: EventEnvelope)
    ensures
        r@ == env(chunk@),
{
    chunk_envelope(chunk, TransportProtocol::Tcp, "opc_classic")
}

/// An anomaly in a chunk.
pub open spec fn anomaly_of(c: ChunkView, severity: Seq<char>, reason: Seq<char>) -> EventView {
    events::anomaly_view(c.capture_id, env(c), "opc_classic"@, severity, reason, c.payload)
}

/// An anomaly in a chunk.
pub fn anomaly(chunk: &StreamChunk<'_>, severity: &str, reason: &str) -> (r: BronzeEvent)
    ensures
        r@ == anomaly_of(chunk@, severity@, reason@),
{
    parse_anomaly_event(
        chunk.capture_id,
        envelope(chunk),
        "opc_classic",
        severity,
        reason,
        chunk.payload,
    )
}

/// Whether one of the interfaces is of a family.
pub open spec fn has_family(hits: Seq<IfaceView>, family: OpcFamily) -> bool {
    exists|i: int| 0 <= i < hits.len() && (#[trigger] hits[i]).family == family
}

fn any_of(hits: &Vec<OpcIface>, family: OpcFamily) -> (r: bool)
    ensures
        r == has_family(ifaces(hits@), family),
{
    let mut i: usize = 0;
    while i < hits.len()
        invariant
            i <= hits.len(),
            forall|j: int| 0 <= j < i ==> (#[trigger] hits@[j]).family != family,
        decreases hits.len() - i,
    {
        if hits[i].family == family {
            assert(ifaces(hits@)[i as int].family == family);
            return true;
        }
        i = i + 1;
    }
    assert forall|j: int| 0 <= j < ifaces(hits@).len() implies (#[trigger] ifaces(
        hits@,
    )[j]).family != family by {
        assert(hits@[j].family != family);
    }
    false
}

/// The families of the interfaces.
pub open spec fn families_of(hits: Seq<IfaceView>) -> Seq<Seq<char>> {
    let f = Seq::<Seq<char>>::empty();
    let f = if has_family(hits, OpcFamily::Da) {
        f.push("da"@)
    } else {
        f
    };
    let f = if has_family(hits, OpcFamily::Hda) {
        f.push("hda"@)
    } else {
        f
    };
    if has_family(hits, OpcFamily::Ae) {
        f.push("ae"@)
    } else {
        f
    }
}

/// The names of the interfaces, each where it stands first.
pub open spec fn names_of(hits: Seq<IfaceView>) -> Seq<Seq<char>>
    decreases hits.len(),
{
    if hits.len() == 0 {
        Seq::empty()
    } else {
        let names = names_of(hits.drop_last());
        if names.contains(hits.last().name) {
            names
        } else {
            names.push(hits.last().name)
        }
    }
}

fn has_text(v: &Vec<String>, s: &str) -> (r: bool)
    ensures
        r == text::texts(v@).contains(s@),
{
    let mut i: usize = 0;
    while i < v.len()
        invariant
            i <= v.len(),
            forall|j: int| 0 <= j < i ==> (#[trigger] v@[j])@ != s@,
        decreases v.len() - i,
    {
        if same_text(v[i].as_str(), s) {
            assert(text::texts(v@)[i as int] == s@);
            return true;
        }
        i = i + 1;
    }
    assert forall|j: int| 0 <= j < text::texts(v@).len() implies #[trigger] text::texts(v@)[j]
        != s@ by {
        assert(v@[j]@ != s@);
    }
    false
}

fn distinct_names(hits: &Vec<OpcIface>) -> (r: Vec<String>)
    ensures
        text::texts(r@) == names_of(ifaces(hits@)),
{
    let mut names = no_texts();
    let mut i: usize = 0;
    while i < hits.len()
        invariant
            i <= hits.len(),
            text::texts(names@) == names_of(ifaces(hits@.take(i as int))),
        decreases hits.len() - i,
    {
        proof {
            assert(ifaces(hits@.take(i + 1)).drop_last() =~= ifaces(hits@.take(i as int)));
            assert(ifaces(hits@.take(i + 1)).last() == hits@[i as int]@);
        }
        if !has_text(&names, hits[i].name) {
            push_text(&mut names, hits[i].name.to_owned());
        }
        i = i + 1;
    }
    assert(hits@.take(i as int) =~= hits@);
    names
}

/// The transaction of a PDU that names OPC interfaces.
pub open spec fn binding_seen(c: ChunkView, hdr: Hdr, hits: Seq<IfaceView>) -> EventView {
    let families = text::joined(families_of(hits), ","@);
    let names = text::joined(names_of(hits), ","@);
    events::tx_view(
        c.capture_id,
        env(c),
        events::plain_tx(
            if hdr.ptype == 0x0B {
                "opc_classic_bind"@
            } else {
                "opc_classic_alter_context"@
            },
            "observed"@,
            Some(
                "OPC BIND family=["@ + families + "] interfaces=["@ + names + "]"@,
            ),
            Map::empty().insert("opc_family"@, families).insert("opc_interfaces"@, names).insert(
                "call_id"@,
                text::dec(hdr.call_id as nat),
            ),
        ),
    )
}

/// The server that a PDU goes to.
pub open spec fn server_seen(c: ChunkView, hits: Seq<IfaceView>) -> EventView {
    let ip = c.context.dst_ip.text();
    events::asset_event_view(
        c.capture_id,
        env(c),
        events::asset_view(
            ip,
            Some("opc_classic_server"@),
            None,
            None,
            None,
            "opc_classic"@,
            Map::empty().insert("ip"@, ip).insert(
                "opc_families"@,
                text::joined(families_of(hits), ","@),
            ),
        ),
    )
}

/// The events of a BIND or ALTER_CONTEXT that names OPC interfaces: an anomaly where its list
/// breaks off, the transaction, and the server. One that names none gives nothing.
pub open spec fn binding_events(c: ChunkView, hdr: Hdr) -> Seq<EventView> {
    let none = Seq::<EventView>::empty();
    match bound_ifaces(c.payload, hdr.le) {
        None => none,
        Some((hits, truncated)) => if hits.len() == 0 {
            none
        } else {
            events::push_if(
                none,
                truncated,
                anomaly_of(c, "low"@, "opc_classic: truncated p_context_elem list"@),
            ).push(binding_seen(c, hdr, hits)).push(server_seen(c, hits))
        },
    }
}

/// The events of a chunk. What is not a BIND or ALTER_CONTEXT is passed over.
pub open spec fn chunk_events(c: ChunkView) -> Seq<EventView> {
    match header_of(c.payload) {
        None => Seq::empty(),
        Some(hdr) => if hdr.ptype == 0x0B || hdr.ptype == 0x0E {
            binding_events(c, hdr)
        } else {
            Seq::empty()
        },
    }
}

/// The OPC Classic decoder.
#[derive(Debug, Default)]
pub struct OpcClassicDecoder;

impl OpcClassicDecoder {
    /// The name of the decoder.
    pub fn name(&self) -> (r: &'static str)
        ensures
            r@ == "opc_classic"@,
    {
        "opc_classic"
    }

    /// The traffic that the decoder asks for.
    pub fn interest(&self) -> (r: &'static [DecoderInterest])
        ensures
            r@ == seq![DecoderInterest::TcpPort(135)],
    {
        &[DecoderInterest::TcpPort(135)]
    }

    /// Takes in a chunk of a TCP stream.
    pub fn on_stream_chunk(&mut self, chunk: &StreamChunk<'_>, out: &mut Vec<BronzeEvent>)
        ensures
            events::events(final(out)@) == events::events(old(out)@) + chunk_events(chunk@),
    {
        let mut ev = no_events();
        match parse_hdr(chunk.payload) {
            None => {},
            Some(hdr) => {
                if hdr.ptype == PTYPE_BIND || hdr.ptype == PTYPE_ALTER_CONTEXT {
                    self.on_binding(chunk, hdr, &mut ev);
                }
            },
        }
        emit_all(out, ev);
    }

    fn on_binding(&self, chunk: &StreamChunk<'_>, hdr: Hdr, out: &mut Vec<BronzeEvent>)
        ensures
            events::events(final(out)@) == events::events(old(out)@) + binding_events(
                chunk@,
                hdr,
            ),
    {
        let mut ev = no_events();
        match parse_bind_opc(chunk.payload, hdr.le) {
            None => {},
            Some((hits, truncated)) => {
                assert(ifaces(hits@).len() == hits@.len());
                if hits.len() > 0 {
                    if truncated {
                        emit(
                            &mut ev,
                            anomaly(chunk, "low", "opc_classic: truncated p_context_elem list"),
                        );
                    }
                    let mut families = no_texts();
                    if any_of(&hits, OpcFamily::Da) {
                        push_text(&mut families, "da".to_owned());
                    }
                    if any_of(&hits, OpcFamily::Hda) {
                        push_text(&mut families, "hda".to_owned());
                    }
                    if any_of(&hits, OpcFamily::Ae) {
                        push_text(&mut families, "ae".to_owned());
                    }
                    let opc_family = join_texts(&families, ",");
                    let opc_interfaces = join_texts(&distinct_names(&hits), ",");
                    let mut attrs = Attributes::new();
                    attrs.put("opc_family", opc_family.as_str());
                    attrs.put("opc_interfaces", opc_interfaces.as_str());
                    attrs.put_dec("call_id", hdr.call_id);
                    let op = if hdr.ptype == PTYPE_BIND {
                        "opc_classic_bind"
                    } else {
                        "opc_classic_alter_context"
                    };
                    let s = cat(cat("OPC BIND family=[", opc_family.as_str()).as_str(), "] interfaces=[");
                    let s = cat(cat(s.as_str(), opc_interfaces.as_str()).as_str(), "]");
                    emit(
                        &mut ev,
                        transaction_event(
                            chunk.capture_id,
                            envelope(chunk),
                            plain_transaction(op.to_owned(), "observed", Some(s), attrs),
                        ),
                    );
                    let server_ip = chunk.context.dst_ip.text();
                    let mut ids = Attributes::new();
                    ids.put("ip", server_ip.as_str());
                    ids.put("opc_families", opc_family.as_str());
                    emit(
                        &mut ev,
                        asset_event(
                            chunk.capture_id,
                            envelope(chunk),
                            asset_observation(
                                server_ip,
                                Some("opc_classic_server"),
                                None,
                                None,
                                None,
                                "opc_classic",
                                ids,
                            ),
                        ),
                    );
                }
            },
        }
        emit_all(out, ev);
    }

    /// Nothing waits, so an idle moment changes nothing.
    pub fn on_idle_flush(&mut self, _timestamp: Timestamp, _out: &mut Vec<BronzeEvent>)
        ensures
            *final(_out) == *old(_out),
    {
    }
}

// ---------------------------------------------------------------------------
// Laws
// ---------------------------------------------------------------------------

/// A BIND or ALTER_CONTEXT that names no OPC interface gives no event; one that names some gives
/// a transaction and an asset, and an anomaly exactly where its list breaks off.
pub proof fn reported_only_with_an_opc_interface(c: ChunkView, hdr: Hdr)
    requires
        header_of(c.payload) == Some(hdr),
        hdr.ptype == 0x0B || hdr.ptype == 0x0E,
    ensures
        ({
            let e = chunk_events(c);
            match bound_ifaces(c.payload, hdr.le) {
                Some((hits, truncated)) if hits.len() > 0 => {
                    &&& events::tx_count(e) == 1
                    &&& events::asset_count(e) == 1
                    &&& events::anomaly_count(e) == (if truncated {
                        1nat
                    } else {
                        0nat
                    })
                },
                _ => e.len() == 0,
            }
        }),
{
    if let Some((hits, truncated)) = bound_ifaces(c.payload, hdr.le) {
        let none = Seq::<EventView>::empty();
        let broken = anomaly_of(c, "low"@, "opc_classic: truncated p_context_elem list"@);
        let t = events::push_if(none, truncated, broken);
        events::counts_push_if(none, truncated, broken);
        events::counts_push_if(t, true, binding_seen(c, hdr, hits));
        events::counts_push_if(
            t.push(binding_seen(c, hdr, hits)),
            true,
            server_seen(c, hits),
        );
    }
}

/// An interface is named once, however often a PDU names it, and every interface is named.
pub proof fn names_are_distinct_and_complete(hits: Seq<IfaceView>)
    ensures
        names_of(hits).no_duplicates(),
        forall|i: int|
            0 <= i < hits.len() ==> names_of(hits).contains((#[trigger] hits[i]).name),
        forall|j: int|
            0 <= j < names_of(hits).len() ==> exists|i: int|
                0 <= i < hits.len() && (#[trigger] hits[i]).name == #[trigger] names_of(hits)[j],
    decreases hits.len(),
{
    if hits.len() > 0 {
        let less = hits.drop_last();
        names_are_distinct_and_complete(less);
        let a = names_of(less);
        let b = names_of(hits);
        assert forall|i: int| 0 <= i < hits.len() implies b.contains((#[trigger] hits[i]).name) by {
            if i < less.len() {
                assert(less[i] == hits[i]);
                let k = choose|k: int| 0 <= k < a.len() && a[k] == less[i].name;
                assert(b[k] == less[i].name);
            } else if !a.contains(hits.last().name) {
                assert(b[a.len() as int] == hits[i].name);
            }
        }
        assert forall|j: int| 0 <= j < b.len() implies exists|i: int|
            0 <= i < hits.len() && (#[trigger] hits[i]).name == #[trigger] b[j] by {
            if j < a.len() {
                assert(a[j] == b[j]);
                let i = choose|i: int| 0 <= i < less.len() && (#[trigger] less[i]).name == a[j];
                assert(hits[i].name == b[j]);
            } else {
                assert(hits[hits.len() - 1].name == b[j]);
            }
        }
    }
}

/// A DCE/RPC header: version, packet type, flags, data representation, lengths and the call id, and
/// the body.
#[verifier::opaque]
pub open spec fn rpc_header(
    version: u8,
    minor: u8,
    ptype: u8,
    flags: u8,
    order: u8,
    more: Seq<u8>,
    tail: Seq<u8>,
) -> Seq<u8> {
    seq![version] + (seq![minor] + (seq![ptype] + (seq![flags] + (seq![order] + (more + tail)))))
}

proof fn rpc_header_parts(
    version: u8,
    minor: u8,
    ptype: u8,
    flags: u8,
    order: u8,
    more: Seq<u8>,
    tail: Seq<u8>,
)
    requires
        more.len() == 7,
    ensures
        ({
            let b = rpc_header(version, minor, ptype, flags, order, more, tail);
            &&& b[0] == version
            &&& b[1] == minor
            &&& b[2] == ptype
            &&& b[3] == flags
            &&& b[4] == order
            &&& b.subrange(5, 12) == more
            &&& b.skip(12) == tail
            &&& b.len() == 12 + tail.len()
        }),
{
    reveal(rpc_header);
    let t6 = tail;
    let t5 = more + t6;
    let t4 = seq![order] + t5;
    let t3 = seq![flags] + t4;
    let t2 = seq![ptype] + t3;
    let t1 = seq![minor] + t2;
    let t0 = seq![version] + t1;
    let b = t0;
    assert(b.skip(0) =~= t0);
    bytes::next_part(b, 0, seq![version], t1);
    assert(seq![version][0] == version);
    bytes::next_part(b, 1, seq![minor], t2);
    assert(seq![minor][0] == minor);
    bytes::next_part(b, 2, seq![ptype], t3);
    assert(seq![ptype][0] == ptype);
    bytes::next_part(b, 3, seq![flags], t4);
    assert(seq![flags][0] == flags);
    bytes::next_part(b, 4, seq![order], t5);
    assert(seq![order][0] == order);
    bytes::next_part(b, 5, more, t6);
}

/// The call id is read in the byte order that the data representation gives.
pub proof fn headers_read_back(
    minor: u8,
    ptype: u8,
    flags: u8,
    order: u8,
    more: Seq<u8>,
    call: u32,
    body: Seq<u8>,
)
    requires
        more.len() == 7,
    ensures
        order / 16 % 2 == 1 ==> header_of(
            rpc_header(5, minor, ptype, flags, order, more, bytes::le32_bytes(call) + body),
        ) == Some(Hdr { ptype, le: true, call_id: call }),
        order / 16 % 2 == 0 ==> header_of(
            rpc_header(5, minor, ptype, flags, order, more, bytes::be32_bytes(call) + body),
        ) == Some(Hdr { ptype, le: false, call_id: call }),
{
    let a = rpc_header(5, minor, ptype, flags, order, more, bytes::le32_bytes(call) + body);
    let b = rpc_header(5, minor, ptype, flags, order, more, bytes::be32_bytes(call) + body);
    rpc_header_parts(5, minor, ptype, flags, order, more, bytes::le32_bytes(call) + body);
    rpc_header_parts(5, minor, ptype, flags, order, more, bytes::be32_bytes(call) + body);
    bytes::next_le(a, 12, 0, call, 0, body);
    bytes::next_be(b, 12, 0, call, 0, body);
    assert((order & 0x10 != 0) == (order / 16 % 2 == 1)) by (bit_vector);
}

/// The bytes of a UUID in little endian order.
#[verifier::opaque]
pub open spec fn uuid_le(
    before: Seq<u8>,
    d1: u32,
    d2: u16,
    d3: u16,
    d4: Seq<u8>,
    rest: Seq<u8>,
) -> Seq<u8> {
    before + (bytes::le32_bytes(d1) + (bytes::le16_bytes(d2) + (bytes::le16_bytes(d3)
        + (d4 + rest))))
}

proof fn uuid_le_parts(
    before: Seq<u8>,
    d1: u32,
    d2: u16,
    d3: u16,
    d4: Seq<u8>,
    rest: Seq<u8>,
)
    requires
        d4.len() == 8,
    ensures
        ({
            let b = uuid_le(before, d1, d2, d3, d4, rest);
            &&& b.subrange(0, 0int + before.len()) == before
            &&& bytes::le32(b, 0int + before.len()) == d1
            &&& bytes::le16(b, 4int + before.len()) == d2
            &&& bytes::le16(b, 6int + before.len()) == d3
            &&& b.subrange(8int + before.len(), 16int + before.len()) == d4
            &&& b.skip(16int + before.len()) == rest
            &&& b.len() == 16int + before.len() + rest.len()
        }),
{
    reveal(uuid_le);
    let t5 = rest;
    let t4 = d4 + t5;
    let t3 = bytes::le16_bytes(d3) + t4;
    let t2 = bytes::le16_bytes(d2) + t3;
    let t1 = bytes::le32_bytes(d1) + t2;
    let t0 = before + t1;
    let b = t0;
    assert(b.skip(0) =~= t0);
    bytes::next_part(b, 0, before, t1);
    bytes::next_le(b, 0int + before.len(), 0, d1, 0, t2);
    bytes::next_le(b, 4int + before.len(), d2, 0, 0, t3);
    bytes::next_le(b, 6int + before.len(), d3, 0, 0, t4);
    bytes::next_part(b, 8int + before.len(), d4, t5);
}

/// The bytes of a UUID in big endian order.
#[verifier::opaque]
pub open spec fn uuid_be(
    before: Seq<u8>,
    d1: u32,
    d2: u16,
    d3: u16,
    d4: Seq<u8>,
    rest: Seq<u8>,
) -> Seq<u8> {
    before + (bytes::be32_bytes(d1) + (bytes::be16_bytes(d2) + (bytes::be16_bytes(d3)
        + (d4 + rest))))
}

proof fn uuid_be_parts(
    before: Seq<u8>,
    d1: u32,
    d2: u16,
    d3: u16,
    d4: Seq<u8>,
    rest: Seq<u8>,
)
    requires
        d4.len() == 8,
    ensures
        ({
            let b = uuid_be(before, d1, d2, d3, d4, rest);
            &&& b.subrange(0, 0int + before.len()) == before
            &&& bytes::be32(b, 0int + before.len()) == d1
            &&& bytes::be16(b, 4int + before.len()) == d2
            &&& bytes::be16(b, 6int + before.len()) == d3
            &&& b.subrange(8int + before.len(), 16int + before.len()) == d4
            &&& b.skip(16int + before.len()) == rest
            &&& b.len() == 16int + before.len() + rest.len()
        }),
{
    reveal(uuid_be);
    let t5 = rest;
    let t4 = d4 + t5;
    let t3 = bytes::be16_bytes(d3) + t4;
    let t2 = bytes::be16_bytes(d2) + t3;
    let t1 = bytes::be32_bytes(d1) + t2;
    let t0 = before + t1;
    let b = t0;
    assert(b.skip(0) =~= t0);
    bytes::next_part(b, 0, before, t1);
    bytes::next_be(b, 0int + before.len(), 0, d1, 0, t2);
    bytes::next_be(b, 4int + before.len(), d2, 0, 0, t3);
    bytes::next_be(b, 6int + before.len(), d3, 0, 0, t4);
    bytes::next_part(b, 8int + before.len(), d4, t5);
}

/// A UUID is written the same in either byte order: the first three parts by their value, the last
/// eight bytes as they stand, with dashes between.
pub proof fn uuids_read_back(
    before: Seq<u8>,
    d1: u32,
    d2: u16,
    d3: u16,
    d4: Seq<u8>,
    rest: Seq<u8>,
)
    requires
        d4.len() == 8,
    ensures
        ({
            let i = before.len() as int;
            let text_of = uuid_text(d1, d2, d3, d4, 0);
            &&& uuid_at(uuid_le(before, d1, d2, d3, d4, rest), i, true) == text_of
            &&& uuid_at(uuid_be(before, d1, d2, d3, d4, rest), i, false) == text_of
        }),
{
    uuid_le_parts(before, d1, d2, d3, d4, rest);
    uuid_be_parts(before, d1, d2, d3, d4, rest);
    let i = before.len() as int;
    let a = uuid_le(before, d1, d2, d3, d4, rest);
    let b = uuid_be(before, d1, d2, d3, d4, rest);
    let x = a.subrange(i + 8, i + 16);
    let y = b.subrange(i + 8, i + 16);
    assert forall|k: int| 0 <= k < 8 implies #[trigger] d4[k] == a[i + 8 + k] && d4[k] == b[i + 8
        + k] by {
        assert(x[k] == a[i + 8 + k]);
        assert(y[k] == b[i + 8 + k]);
    }
    assert(d4[0] == a[i + 8] && d4[1] == a[i + 9] && d4[2] == a[i + 10] && d4[3] == a[i + 11]
        && d4[4] == a[i + 12] && d4[5] == a[i + 13] && d4[6] == a[i + 14] && d4[7] == a[i + 15]);
    assert(d4[0] == b[i + 8] && d4[1] == b[i + 9] && d4[2] == b[i + 10] && d4[3] == b[i + 11]
        && d4[4] == b[i + 12] && d4[5] == b[i + 13] && d4[6] == b[i + 14] && d4[7] == b[i + 15]);
}

/// The server is the end that the binding goes to, and the binding gives the call id.
pub proof fn server_is_the_destination(c: ChunkView, hdr: Hdr, hits: Seq<IfaceView>)
    ensures
        ({
            let tx = binding_seen(c, hdr, hits).family->ProtocolTransaction_0;
            let a = server_seen(c, hits).family->AssetObservation_0;
            &&& tx.operation == (if hdr.ptype == 11 {
                "opc_classic_bind"@
            } else {
                "opc_classic_alter_context"@
            })
            &&& tx.attributes["call_id"@] == text::dec(hdr.call_id as nat)
            &&& tx.attributes["opc_family"@] == text::joined(families_of(hits), ","@)
            &&& tx.attributes["opc_interfaces"@] == text::joined(names_of(hits), ","@)
            &&& a.asset_key == c.context.dst_ip.text()
            &&& a.role == Some("opc_classic_server"@)
            &&& a.identifiers["ip"@] == c.context.dst_ip.text()
            &&& a.identifiers["opc_families"@] == text::joined(families_of(hits), ","@)
        }),
{
    reveal_strlit("opc_family");
    reveal_strlit("opc_interfaces");
    reveal_strlit("call_id");
    reveal_strlit("ip");
    reveal_strlit("opc_families");
    assert({
        &&& "opc_family"@.len() == 10
        &&& "opc_interfaces"@.len() == 14
        &&& "call_id"@.len() == 7
        &&& "ip"@.len() == 2
        &&& "opc_families"@.len() == 12
    });
}

/// The interfaces of OPC are known by their UUIDs, each with its name and the family that it is of,
/// and no other UUID is one of them.
pub proof fn interfaces_are_known_by_uuid(uuid: Seq<char>)
    ensures
        uuid == "39c13a4d-011e-11d0-9675-0020afd8adb3"@ ==> iface_of(uuid) == Some(
            IfaceView { name: "IOPCServer"@, family: OpcFamily::Da },
        ),
        uuid == "39c13a4e-011e-11d0-9675-0020afd8adb3"@ ==> iface_of(uuid) == Some(
            IfaceView { name: "IOPCServerPublicGroups"@, family: OpcFamily::Da },
        ),
        uuid == "39c13a4f-011e-11d0-9675-0020afd8adb3"@ ==> iface_of(uuid) == Some(
            IfaceView { name: "IOPCBrowseServerAddressSpace"@, family: OpcFamily::Da },
        ),
        uuid == "39c13a50-011e-11d0-9675-0020afd8adb3"@ ==> iface_of(uuid) == Some(
            IfaceView { name: "IOPCGroupStateMgt"@, family: OpcFamily::Da },
        ),
        uuid == "39c13a51-011e-11d0-9675-0020afd8adb3"@ ==> iface_of(uuid) == Some(
            IfaceView { name: "IOPCPublicGroupStateMgt"@, family: OpcFamily::Da },
        ),
        uuid == "39c13a52-011e-11d0-9675-0020afd8adb3"@ ==> iface_of(uuid) == Some(
            IfaceView { name: "IOPCSyncIO"@, family: OpcFamily::Da },
        ),
        uuid == "39c13a53-011e-11d0-9675-0020afd8adb3"@ ==> iface_of(uuid) == Some(
            IfaceView { name: "IOPCAsyncIO"@, family: OpcFamily::Da },
        ),
        uuid == "39c13a54-011e-11d0-9675-0020afd8adb3"@ ==> iface_of(uuid) == Some(
            IfaceView { name: "IOPCItemMgt"@, family: OpcFamily::Da },
        ),
        uuid == "39c13a55-011e-11d0-9675-0020afd8adb3"@ ==> iface_of(uuid) == Some(
            IfaceView { name: "IEnumOPCItemAttributes"@, family: OpcFamily::Da },
        ),
        uuid == "39c13a70-011e-11d0-9675-0020afd8adb3"@ ==> iface_of(uuid) == Some(
            IfaceView { name: "IOPCDataCallback"@, family: OpcFamily::Da },
        ),
        uuid == "39c13a71-011e-11d0-9675-0020afd8adb3"@ ==> iface_of(uuid) == Some(
            IfaceView { name: "IOPCAsyncIO2"@, family: OpcFamily::Da },
        ),
        uuid == "39c13a72-011e-11d0-9675-0020afd8adb3"@ ==> iface_of(uuid) == Some(
            IfaceView { name: "IOPCItemProperties"@, family: OpcFamily::Da },
        ),
        uuid == "1f1217b1-deef-11d1-b04d-00c04fa31a86"@ ==> iface_of(uuid) == Some(
            IfaceView { name: "IOPCHDA_Server"@, family: OpcFamily::Hda },
        ),
        uuid == "1f1217b2-deef-11d1-b04d-00c04fa31a86"@ ==> iface_of(uuid) == Some(
            IfaceView { name: "IOPCHDA_Browser"@, family: OpcFamily::Hda },
        ),
        uuid == "65168851-5783-11d1-84a0-00608cb8a7e9"@ ==> iface_of(uuid) == Some(
            IfaceView { name: "IOPCEventServer"@, family: OpcFamily::Ae },
        ),
        uuid == "65168852-5783-11d1-84a0-00608cb8a7e9"@ ==> iface_of(uuid) == Some(
            IfaceView { name: "IOPCEventSubscriptionMgt"@, family: OpcFamily::Ae },
        ),
        iface_of(uuid) is Some ==> uuid.len() == 36,
{
    reveal_strlit("39c13a4d-011e-11d0-9675-0020afd8adb3");
    reveal_strlit("39c13a4e-011e-11d0-9675-0020afd8adb3");
    reveal_strlit("39c13a4f-011e-11d0-9675-0020afd8adb3");
    reveal_strlit("39c13a50-011e-11d0-9675-0020afd8adb3");
    reveal_strlit("39c13a51-011e-11d0-9675-0020afd8adb3");
    reveal_strlit("39c13a52-011e-11d0-9675-0020afd8adb3");
    reveal_strlit("39c13a53-011e-11d0-9675-0020afd8adb3");
    reveal_strlit("39c13a54-011e-11d0-9675-0020afd8adb3");
    reveal_strlit("39c13a55-011e-11d0-9675-0020afd8adb3");
    reveal_strlit("39c13a70-011e-11d0-9675-0020afd8adb3");
    reveal_strlit("39c13a71-011e-11d0-9675-0020afd8adb3");
    reveal_strlit("39c13a72-011e-11d0-9675-0020afd8adb3");
    reveal_strlit("1f1217b1-deef-11d1-b04d-00c04fa31a86");
    reveal_strlit("1f1217b2-deef-11d1-b04d-00c04fa31a86");
    reveal_strlit("65168851-5783-11d1-84a0-00608cb8a7e9");
    reveal_strlit("65168852-5783-11d1-84a0-00608cb8a7e9");
    assert("39c13a4d-011e-11d0-9675-0020afd8adb3"@.len() == 36
        && "39c13a4d-011e-11d0-9675-0020afd8adb3"@[0] == '3'
        && "39c13a4d-011e-11d0-9675-0020afd8adb3"@[6] == '4'
        && "39c13a4d-011e-11d0-9675-0020afd8adb3"@[7] == 'd');
    assert("39c13a4e-011e-11d0-9675-0020afd8adb3"@.len() == 36
        && "39c13a4e-011e-11d0-9675-0020afd8adb3"@[0] == '3'
        && "39c13a4e-011e-11d0-9675-0020afd8adb3"@[6] == '4'
        && "39c13a4e-011e-11d0-9675-0020afd8adb3"@[7] == 'e');
    assert("39c13a4f-011e-11d0-9675-0020afd8adb3"@.len() == 36
        && "39c13a4f-011e-11d0-9675-0020afd8adb3"@[0] == '3'
        && "39c13a4f-011e-11d0-9675-0020afd8adb3"@[6] == '4'
        && "39c13a4f-011e-11d0-9675-0020afd8adb3"@[7] == 'f');
    assert("39c13a50-011e-11d0-9675-0020afd8adb3"@.len() == 36
        && "39c13a50-011e-11d0-9675-0020afd8adb3"@[0] == '3'
        && "39c13a50-011e-11d0-9675-0020afd8adb3"@[6] == '5'
        && "39c13a50-011e-11d0-9675-0020afd8adb3"@[7] == '0');
    assert("39c13a51-011e-11d0-9675-0020afd8adb3"@.len() == 36
        && "39c13a51-011e-11d0-9675-0020afd8adb3"@[0] == '3'
        && "39c13a51-011e-11d0-9675-0020afd8adb3"@[6] == '5'
        && "39c13a51-011e-11d0-9675-0020afd8adb3"@[7] == '1');
    assert("39c13a52-011e-11d0-9675-0020afd8adb3"@.len() == 36
        && "39c13a52-011e-11d0-9675-0020afd8adb3"@[0] == '3'
        && "39c13a52-011e-11d0-9675-0020afd8adb3"@[6] == '5'
        && "39c13a52-011e-11d0-9675-0020afd8adb3"@[7] == '2');
    assert("39c13a53-011e-11d0-9675-0020afd8adb3"@.len() == 36
        && "39c13a53-011e-11d0-9675-0020afd8adb3"@[0] == '3'
        && "39c13a53-011e-11d0-9675-0020afd8adb3"@[6] == '5'
        && "39c13a53-011e-11d0-9675-0020afd8adb3"@[7] == '3');
    assert("39c13a54-011e-11d0-9675-0020afd8adb3"@.len() == 36
        && "39c13a54-011e-11d0-9675-0020afd8adb3"@[0] == '3'
        && "39c13a54-011e-11d0-9675-0020afd8adb3"@[6] == '5'
        && "39c13a54-011e-11d0-9675-0020afd8adb3"@[7] == '4');
    assert("39c13a55-011e-11d0-9675-0020afd8adb3"@.len() == 36
        && "39c13a55-011e-11d0-9675-0020afd8adb3"@[0] == '3'
        && "39c13a55-011e-11d0-9675-0020afd8adb3"@[6] == '5'
        && "39c13a55-011e-11d0-9675-0020afd8adb3"@[7] == '5');
    assert("39c13a70-011e-11d0-9675-0020afd8adb3"@.len() == 36
        && "39c13a70-011e-11d0-9675-0020afd8adb3"@[0] == '3'
        && "39c13a70-011e-11d0-9675-0020afd8adb3"@[6] == '7'
        && "39c13a70-011e-11d0-9675-0020afd8adb3"@[7] == '0');
    assert("39c13a71-011e-11d0-9675-0020afd8adb3"@.len() == 36
        && "39c13a71-011e-11d0-9675-0020afd8adb3"@[0] == '3'
        && "39c13a71-011e-11d0-9675-0020afd8adb3"@[6] == '7'
        && "39c13a71-011e-11d0-9675-0020afd8adb3"@[7] == '1');
    assert("39c13a72-011e-11d0-9675-0020afd8adb3"@.len() == 36
        && "39c13a72-011e-11d0-9675-0020afd8adb3"@[0] == '3'
        && "39c13a72-011e-11d0-9675-0020afd8adb3"@[6] == '7'
        && "39c13a72-011e-11d0-9675-0020afd8adb3"@[7] == '2');
    assert("1f1217b1-deef-11d1-b04d-00c04fa31a86"@.len() == 36
        && "1f1217b1-deef-11d1-b04d-00c04fa31a86"@[0] == '1'
        && "1f1217b1-deef-11d1-b04d-00c04fa31a86"@[6] == 'b'
        && "1f1217b1-deef-11d1-b04d-00c04fa31a86"@[7] == '1');
    assert("1f1217b2-deef-11d1-b04d-00c04fa31a86"@.len() == 36
        && "1f1217b2-deef-11d1-b04d-00c04fa31a86"@[0] == '1'
        && "1f1217b2-deef-11d1-b04d-00c04fa31a86"@[6] == 'b'
        && "1f1217b2-deef-11d1-b04d-00c04fa31a86"@[7] == '2');
    assert("65168851-5783-11d1-84a0-00608cb8a7e9"@.len() == 36
        && "65168851-5783-11d1-84a0-00608cb8a7e9"@[0] == '6'
        && "65168851-5783-11d1-84a0-00608cb8a7e9"@[6] == '5'
        && "65168851-5783-11d1-84a0-00608cb8a7e9"@[7] == '1');
    assert("65168852-5783-11d1-84a0-00608cb8a7e9"@.len() == 36
        && "65168852-5783-11d1-84a0-00608cb8a7e9"@[0] == '6'
        && "65168852-5783-11d1-84a0-00608cb8a7e9"@[6] == '5'
        && "65168852-5783-11d1-84a0-00608cb8a7e9"@[7] == '2');
}

} // verus!
