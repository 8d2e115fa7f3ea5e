//! OMRON FINS on UDP and TCP port 9600.
//!
//! Frames are taken apart elsewhere; this decoder turns them into transactions, the two nodes
//! and the link between them, and the command payload.

use vstd::prelude::*;

use crate::collections;
use crate::collections::Attributes;
use crate::events;
use crate::events::{
    artifact_event, asset_event, asset_observation, chunk_envelope, emit, emit_all, no_events,
    no_values, parse_anomaly_event, topology_event, transaction_event, BronzeEvent, Dissection,
    EnvelopeView, EventEnvelope, EventView, ProtocolTransaction, TopologyObservation, TopologyView,
    TransactionView,
};
use crate::naming;
use crate::naming::normalize_operation_name;
use crate::packet::{
    ChunkView, ContextView, DecoderInterest, PacketContext, StreamChunk, TransportProtocol,
};
use crate::text;
use crate::text::{
    cat, dec_text, hex0x_text, hex_text, no_texts, opt_as_str, opt_copy, push_text,
};

verus! {

/// A parsed frame.
#[derive(Debug, Clone)]
pub struct OmronFinsFields {
    pub frame_variant: String,
    pub tcp_command: Option<u32>,
    pub tcp_error_code: Option<u32>,
    pub icf: Option<u8>,
    pub rsv: Option<u8>,
    pub gateway_count: Option<u8>,
    pub destination_network: Option<u8>,
    pub destination_node: Option<u8>,
    pub destination_unit: Option<u8>,
    pub source_network: Option<u8>,
    pub source_node: Option<u8>,
    pub source_unit: Option<u8>,
    pub service_id: Option<u8>,
    pub command_code: Option<u16>,
    pub command_name: Option<String>,
    pub memory_area: Option<u8>,
    pub memory_word: Option<u16>,
    pub memory_bit: Option<u8>,
    pub item_count: Option<u16>,
    pub payload: Vec<u8>,
}

// ---------------------------------------------------------------------------
// Labels
// ---------------------------------------------------------------------------

/// The operation of a frame: by its command's name, else by its code.
pub open spec fn operation_of(command_name: Option<Seq<char>>, command_code: Option<u16>) -> Seq<
    char,
> {
    match command_name {
        Some(name) => naming::normalized(name, "omron_fins"@),
        None => match command_code {
            Some(code) => "command_"@ + text::hex(code as nat, 4),
            None => "omron_fins"@,
        },
    }
}

/// The operation of a frame.
pub fn omron_fins_operation_name(command_name: Option<&str>, command_code: Option<u16>) -> (r:
    String)
    ensures
        r@ == operation_of(text::opt_str(command_name), command_code),
{
    match command_name {
        Some(name) => normalize_operation_name(name, "omron_fins"),
        None => match command_code {
            Some(code) => cat("command_", hex_text(code, 4).as_str()),
            None => "omron_fins".to_owned(),
        },
    }
}

/// Whether a packet goes to the well-known port only.
pub open spec fn to_plc(c: ContextView) -> bool {
    c.dst_port == 9600 && c.src_port != 9600
}

/// Whether a packet comes from the well-known port only.
pub open spec fn from_plc(c: ContextView) -> bool {
    c.src_port == 9600 && c.dst_port != 9600
}

/// The status of a frame, by its ports.
pub open spec fn status_of(c: ContextView) -> Seq<char> {
    if to_plc(c) {
        "request"@
    } else if from_plc(c) {
        "response"@
    } else {
        "observed"@
    }
}

/// The status of a frame, by its ports.
pub fn omron_fins_status(context: &PacketContext) -> (r: &'static str)
    ensures
        r@ == status_of(context@),
{
    if context.dst_port == 9600 && context.src_port != 9600 {
        "request"
    } else if context.src_port == 9600 && context.dst_port != 9600 {
        "response"
    } else {
        "observed"
    }
}

/// The summary of a frame: its command, and the nodes where it names both.
pub open spec fn summary_of(
    command_name: Option<Seq<char>>,
    source_node: Option<u8>,
    destination_node: Option<u8>,
) -> Seq<char> {
    let s = match command_name {
        Some(name) => name,
        None => "fins_command"@,
    };
    if source_node is Some && destination_node is Some {
        s + (" "@ + text::dec(source_node->Some_0 as nat) + "->"@ + text::dec(
            destination_node->Some_0 as nat,
        ))
    } else {
        s
    }
}

/// The summary of a frame.
pub fn omron_fins_summary(
    command_name: Option<&str>,
    source_node: Option<u8>,
    destination_node: Option<u8>,
) -> (r: String)
    ensures
        r@ == summary_of(text::opt_str(command_name), source_node, destination_node),
{
    let s = match command_name {
        Some(name) => name,
        None => "fins_command",
    };
    match (source_node, destination_node) {
        (Some(from), Some(to)) => {
            let t = cat(cat(" ", dec_text(from).as_str()).as_str(), "->");
            cat(s, cat(t.as_str(), dec_text(to).as_str()).as_str())
        },
        _ => s.to_owned(),
    }
}

/// The object references of a frame: memory area, word, bit and item count, as far as it has
/// them.
pub open spec fn refs_of(
    memory_area: Option<u8>,
    memory_word: Option<u16>,
    memory_bit: Option<u8>,
    item_count: Option<u16>,
) -> Seq<Seq<char>> {
    let refs = Seq::<Seq<char>>::empty();
    let refs = match memory_area {
        Some(n) => refs.push("memory_area:"@ + text::hex0x(n as nat, 2)),
        None => refs,
    };
    let refs = match memory_word {
        Some(n) => refs.push("memory_word:"@ + text::dec(n as nat)),
        None => refs,
    };
    let refs = match memory_bit {
        Some(n) => refs.push("memory_bit:"@ + text::dec(n as nat)),
        None => refs,
    };
    match item_count {
        Some(n) => refs.push("item_count:"@ + text::dec(n as nat)),
        None => refs,
    }
}

/// The object references of a frame.
pub fn omron_fins_object_refs(
    memory_area: Option<u8>,
    memory_word: Option<u16>,
    memory_bit: Option<u8>,
    item_count: Option<u16>,
) -> (r: Vec<String>)
    ensures
        text::texts(r@) == refs_of(memory_area, memory_word, memory_bit, item_count),
{
    let mut refs = no_texts();
    if let Some(n) = memory_area {
        push_text(&mut refs, cat("memory_area:", hex0x_text(n, 2).as_str()));
    }
    if let Some(n) = memory_word {
        push_text(&mut refs, cat("memory_word:", dec_text(n).as_str()));
    }
    if let Some(n) = memory_bit {
        push_text(&mut refs, cat("memory_bit:", dec_text(n).as_str()));
    }
    if let Some(n) = item_count {
        push_text(&mut refs, cat("item_count:", dec_text(n).as_str()));
    }
    refs
}

/// The role of the source, by its ports.
pub open spec fn source_role(c: ContextView) -> Option<Seq<char>> {
    if to_plc(c) {
        Some("controller"@)
    } else if from_plc(c) {
        Some("plc"@)
    } else {
        None
    }
}

/// The role of the source, by its ports.
pub fn omron_fins_source_role(context: &PacketContext) -> (r: Option<&'static str>)
    ensures
        text::opt_str(r) == source_role(context@),
{
    if context.dst_port == 9600 && context.src_port != 9600 {
        Some("controller")
    } else if context.src_port == 9600 && context.dst_port != 9600 {
        Some("plc")
    } else {
        None
    }
}

/// The role of the destination, by its ports.
pub open spec fn destination_role(c: ContextView) -> Option<Seq<char>> {
    if to_plc(c) {
        Some("plc"@)
    } else if from_plc(c) {
        Some("controller"@)
    } else {
        None
    }
}

/// The role of the destination, by its ports.
pub fn omron_fins_destination_role(context: &PacketContext) -> (r: Option<&'static str>)
    ensures
        text::opt_str(r) == destination_role(context@),
{
    if context.dst_port == 9600 && context.src_port != 9600 {
        Some("plc")
    } else if context.src_port == 9600 && context.dst_port != 9600 {
        Some("controller")
    } else {
        None
    }
}

// ---------------------------------------------------------------------------
// Events
// ---------------------------------------------------------------------------

/// The envelope of a chunk.
pub open spec fn env(c: ChunkView, transport: TransportProtocol) -> EnvelopeView {
    events::chunk_env(c, transport, "omron_fins"@)
}

fn envelope(chunk: &StreamChunk<'_>, transport: TransportProtocol) -> (r: EventEnvelope)
    ensures
        r@ == env(chunk@, transport),
{
    chunk_envelope(chunk, transport, "omron_fins")
}

/// The attributes of a frame.
pub open spec fn attrs_of(f: OmronFinsFields) -> Map<Seq<char>, Seq<char>> {
    let m = Map::empty().insert("frame_variant"@, f.frame_variant@);
    let m = collections::insert_opt(m, "tcp_command"@, text::opt_hex0x(f.tcp_command, 8));
    let m = collections::insert_opt(m, "tcp_error_code"@, text::opt_hex0x(f.tcp_error_code, 8));
    let m = collections::insert_opt(m, "icf"@, text::opt_hex0x(f.icf, 2));
    let m = collections::insert_opt(m, "rsv"@, text::opt_hex0x(f.rsv, 2));
    let m = collections::insert_opt(m, "gateway_count"@, text::opt_dec(f.gateway_count));
    let m = collections::insert_opt(m, "service_id"@, text::opt_hex0x(f.service_id, 2));
    let m = collections::insert_opt(m, "command_code"@, text::opt_hex0x(f.command_code, 4));
    let m = collections::insert_opt(m, "command_name"@, text::opt_view(f.command_name));
    let m = collections::insert_opt(m, "memory_area"@, text::opt_hex0x(f.memory_area, 2));
    let m = collections::insert_opt(m, "memory_word"@, text::opt_dec(f.memory_word));
    let m = collections::insert_opt(m, "memory_bit"@, text::opt_dec(f.memory_bit));
    let m = collections::insert_opt(m, "item_count"@, text::opt_dec(f.item_count));
    let m = collections::insert_opt(
        m,
        "destination_network"@,
        text::opt_dec(f.destination_network),
    );
    let m = collections::insert_opt(m, "destination_node"@, text::opt_dec(f.destination_node));
    let m = collections::insert_opt(m, "destination_unit"@, text::opt_dec(f.destination_unit));
    let m = collections::insert_opt(m, "source_network"@, text::opt_dec(f.source_network));
    let m = collections::insert_opt(m, "source_node"@, text::opt_dec(f.source_node));
    collections::insert_opt(m, "source_unit"@, text::opt_dec(f.source_unit))
}

fn frame_attrs(f: &OmronFinsFields) -> (r: Attributes)
    ensures
        r@ == attrs_of(*f),
{
    let mut m = Attributes::new();
    m.put("frame_variant", f.frame_variant.as_str());
    m.put_some_hex("tcp_command", f.tcp_command, 8);
    m.put_some_hex("tcp_error_code", f.tcp_error_code, 8);
    m.put_some_hex("icf", f.icf, 2);
    m.put_some_hex("rsv", f.rsv, 2);
    m.put_some_dec("gateway_count", f.gateway_count);
    m.put_some_hex("service_id", f.service_id, 2);
    m.put_some_hex("command_code", f.command_code, 4);
    m.insert_some("command_name", opt_copy(&f.command_name));
    m.put_some_hex("memory_area", f.memory_area, 2);
    m.put_some_dec("memory_word", f.memory_word);
    m.put_some_dec("memory_bit", f.memory_bit);
    m.put_some_dec("item_count", f.item_count);
    m.put_some_dec("destination_network", f.destination_network);
    m.put_some_dec("destination_node", f.destination_node);
    m.put_some_dec("destination_unit", f.destination_unit);
    m.put_some_dec("source_network", f.source_network);
    m.put_some_dec("source_node", f.source_node);
    m.put_some_dec("source_unit", f.source_unit);
    m
}

/// The transaction of a frame.
pub open spec fn frame_seen(
    c: ChunkView,
    transport: TransportProtocol,
    f: OmronFinsFields,
) -> EventView {
    events::tx_view(
        c.capture_id,
        env(c, transport),
        TransactionView {
            object_refs: refs_of(f.memory_area, f.memory_word, f.memory_bit, f.item_count),
            ..events::plain_tx(
                operation_of(text::opt_view(f.command_name), f.command_code),
                status_of(c.context),
                Some(
                    summary_of(
                        text::opt_view(f.command_name),
                        f.source_node,
                        f.destination_node,
                    ),
                ),
                attrs_of(f),
            )
        },
    )
}

/// One of the two nodes of a frame, with its FINS address as far as the frame gives it.
pub open spec fn node_seen(
    c: ChunkView,
    transport: TransportProtocol,
    ip: Seq<char>,
    role: Option<Seq<char>>,
    network: Option<u8>,
    node: Option<u8>,
    unit: Option<u8>,
) -> EventView {
    let m = Map::empty().insert("ip"@, ip);
    let m = collections::insert_opt(m, "fins_network"@, text::opt_dec(network));
    let m = collections::insert_opt(m, "fins_node"@, text::opt_dec(node));
    events::asset_event_view(
        c.capture_id,
        env(c, transport),
        events::asset_view(
            ip,
            role,
            Some("OMRON"@),
            None,
            None,
            "omron_fins"@,
            collections::insert_opt(m, "fins_unit"@, text::opt_dec(unit)),
        ),
    )
}

fn node_event(
    chunk: &StreamChunk<'_>,
    transport: TransportProtocol,
    ip: String,
    role: Option<&str>,
    network: Option<u8>,
    node: Option<u8>,
    unit: Option<u8>,
) -> (r: BronzeEvent)
    ensures
        r@ == node_seen(chunk@, transport, ip@, text::opt_str(role), network, node, unit),
{
    let mut m = Attributes::new();
    m.put("ip", ip.as_str());
    m.put_some_dec("fins_network", network);
    m.put_some_dec("fins_node", node);
    m.put_some_dec("fins_unit", unit);
    asset_event(
        chunk.capture_id,
        envelope(chunk, transport),
        asset_observation(ip, role, Some("OMRON"), None, None, "omron_fins", m),
    )
}

/// The link between the two nodes.
pub open spec fn link_seen(
    c: ChunkView,
    transport: TransportProtocol,
    f: OmronFinsFields,
) -> EventView {
    events::topology_event_view(
        c.capture_id,
        env(c, transport),
        TopologyView {
            observation_type: "omron_fins_transaction"@,
            local_id: c.context.src_ip.text(),
            remote_id: Some(c.context.dst_ip.text()),
            description: text::opt_view(f.command_name),
            capabilities: Seq::empty(),
            metadata: Map::empty().insert("frame_variant"@, f.frame_variant@),
        },
    )
}

/// The events of a frame: its transaction, the nodes of which it gives an address, the link,
/// and its payload.
pub open spec fn frame_events(
    c: ChunkView,
    transport: TransportProtocol,
    f: OmronFinsFields,
) -> Seq<EventView> {
    let t = Seq::<EventView>::empty().push(frame_seen(c, transport, f));
    let s = events::push_if(
        t,
        f.source_node is Some || f.source_network is Some || f.source_unit is Some,
        node_seen(
            c,
            transport,
            c.context.src_ip.text(),
            source_role(c.context),
            f.source_network,
            f.source_node,
            f.source_unit,
        ),
    );
    let d = events::push_if(
        s,
        f.destination_node is Some || f.destination_network is Some || f.destination_unit is Some,
        node_seen(
            c,
            transport,
            c.context.dst_ip.text(),
            destination_role(c.context),
            f.destination_network,
            f.destination_node,
            f.destination_unit,
        ),
    );
    events::push_if(
        d.push(link_seen(c, transport, f)),
        f.payload@.len() > 0,
        events::artifact_view(
            c.capture_id,
            env(c, transport),
            "omron_fins_payload"@,
            c.session_key + ":"@ + text::dec(c.frame_index as nat),
            Some("application/octet-stream"@),
            Some("OMRON FINS command payload"@),
            f.payload@,
        ),
    )
}

/// The events of a payload: those of its frame, an anomaly where it looks like one but is
/// not, and nothing where it is of another protocol.
pub open spec fn payload_events(
    c: ChunkView,
    transport: TransportProtocol,
    parsed: Dissection<OmronFinsFields>,
) -> Seq<EventView> {
    match parsed {
        Dissection::Foreign => Seq::empty(),
        Dissection::Malformed => Seq::<EventView>::empty().push(
            events::anomaly_view(
                c.capture_id,
                env(c, transport),
                "omron_fins"@,
                "medium"@,
                "failed to parse omron fins payload"@,
                c.payload,
            ),
        ),
        Dissection::Parsed(f) => frame_events(c, transport, f),
    }
}

/// The FINS decoder.
#[derive(Debug, Default)]
pub struct OmronFinsDecoder;

impl OmronFinsDecoder {
    /// The name of the decoder.
    pub fn name(&self) -> (r: &'static str)
        ensures
            r@ == "omron_fins"@,
    {
        "omron_fins"
    }

    /// The traffic that the decoder asks for.
    pub fn interest(&self) -> (r: &'static [DecoderInterest])
        ensures
            r@ == seq![DecoderInterest::UdpPort(9600), DecoderInterest::TcpPort(9600)],
    {
        &[DecoderInterest::UdpPort(9600), DecoderInterest::TcpPort(9600)]
    }

    /// Takes in a datagram and what was made of it.
    pub fn on_datagram(
        &mut self,
        chunk: &StreamChunk<'_>,
        parsed: Dissection<OmronFinsFields>,
        out: &mut Vec<BronzeEvent>,
    )
        ensures
            events::events(final(out)@) == events::events(old(out)@) + payload_events(
                chunk@,
                TransportProtocol::Udp,
                parsed,
            ),
    {
        self.handle(chunk, TransportProtocol::Udp, parsed, out);
    }

    /// Takes in a chunk of a TCP stream and what was made of it.
    pub fn on_stream_chunk(
        &mut self,
        chunk: &StreamChunk<'_>,
        parsed: Dissection<OmronFinsFields>,
        out: &mut Vec<BronzeEvent>,
    )
        ensures
            events::events(final(out)@) == events::events(old(out)@) + payload_events(
                chunk@,
                TransportProtocol::Tcp,
                parsed,
            ),
    {
        self.handle(chunk, TransportProtocol::Tcp, parsed, out);
    }

    /// Takes in a payload that came over `transport`, and what was made of it.
    pub fn handle(
        &mut self,
        chunk: &StreamChunk<'_>,
        transport: TransportProtocol,
        parsed: Dissection<OmronFinsFields>,
        out: &mut Vec<BronzeEvent>,
    )
        ensures
            events::events(final(out)@) == events::events(old(out)@) + payload_events(
                chunk@,
                transport,
                parsed,
            ),
    {
        let mut ev = no_events();
        match parsed {
            Dissection::Foreign => {},
            Dissection::Malformed => {
                emit(
                    &mut ev,
                    parse_anomaly_event(
                        chunk.capture_id,
                        envelope(chunk, transport),
                        "omron_fins",
                        "medium",
                        "failed to parse omron fins payload",
                        chunk.payload,
                    ),
                );
            },
            Dissection::Parsed(fields) => {
                self.emit_fields(chunk, transport, &fields, out);
                return;
            },
        }
        emit_all(out, ev);
    }

    /// Adds the events of a frame.
    pub fn emit_fields(
        &self,
        chunk: &StreamChunk<'_>,
        transport: TransportProtocol,
        f: &OmronFinsFields,
        out: &mut Vec<BronzeEvent>,
    )
        ensures
            events::events(final(out)@) == events::events(old(out)@) + frame_events(
                chunk@,
                transport,
                *f,
            ),
    {
        let mut ev = no_events();
        let command_name = opt_as_str(&f.command_name);
        emit(
            &mut ev,
            transaction_event(
                chunk.capture_id,
                envelope(chunk, transport),
                ProtocolTransaction {
                    operation: omron_fins_operation_name(command_name, f.command_code),
                    status: omron_fins_status(&chunk.context).to_owned(),
                    request_summary: Some(
                        omron_fins_summary(command_name, f.source_node, f.destination_node),
                    ),
                    response_summary: None,
                    object_refs: omron_fins_object_refs(
                        f.memory_area,
                        f.memory_word,
                        f.memory_bit,
                        f.item_count,
                    ),
                    values: no_values(),
                    attributes: frame_attrs(f),
                    modbus: None,
                    protocol_fields: None,
                },
            ),
        );
        if f.source_node.is_some() || f.source_network.is_some() || f.source_unit.is_some() {
            emit(
                &mut ev,
                node_event(
                    chunk,
                    transport,
                    chunk.context.src_ip.text(),
                    omron_fins_source_role(&chunk.context),
                    f.source_network,
                    f.source_node,
                    f.source_unit,
                ),
            );
        }
        if f.destination_node.is_some() || f.destination_network.is_some()
            || f.destination_unit.is_some() {
            emit(
                &mut ev,
                node_event(
                    chunk,
                    transport,
                    chunk.context.dst_ip.text(),
                    omron_fins_destination_role(&chunk.context),
                    f.destination_network,
                    f.destination_node,
                    f.destination_unit,
                ),
            );
        }
        let mut metadata = Attributes::new();
        metadata.put("frame_variant", f.frame_variant.as_str());
        emit(
            &mut ev,
            topology_event(
                chunk.capture_id,
                envelope(chunk, transport),
                TopologyObservation {
                    observation_type: "omron_fins_transaction".to_owned(),
                    local_id: chunk.context.src_ip.text(),
                    remote_id: Some(chunk.context.dst_ip.text()),
                    description: opt_copy(&f.command_name),
                    capabilities: no_texts(),
                    metadata,
                },
            ),
        );
        if f.payload.len() > 0 {
            let key = cat(
                cat(chunk.session_key.as_str(), ":").as_str(),
                dec_text(chunk.frame_index).as_str(),
            );
            emit(
                &mut ev,
                artifact_event(
                    chunk.capture_id,
                    envelope(chunk, transport),
                    "omron_fins_payload",
                    key.as_str(),
                    Some("application/octet-stream"),
                    Some("OMRON FINS command payload"),
                    f.payload.as_slice(),
                ),
            );
        }
        emit_all(out, ev);
    }
}

// ---------------------------------------------------------------------------
// Laws
// ---------------------------------------------------------------------------

/// Roles and status agree: the two ends of a request are controller and PLC, those of a
/// response PLC and controller, and an end has a role exactly when the other has the other.
pub proof fn roles_follow_the_status(c: ContextView)
    ensures
        to_plc(c) ==> source_role(c) == Some("controller"@) && destination_role(c) == Some(
            "plc"@,
        ) && status_of(c) == "request"@,
        from_plc(c) ==> source_role(c) == Some("plc"@) && destination_role(c) == Some(
            "controller"@,
        ) && status_of(c) == "response"@,
        source_role(c) is Some <==> destination_role(c) is Some,
        source_role(c) is Some <==> status_of(c) != "observed"@,
{
    reveal_strlit("request");
    reveal_strlit("response");
    reveal_strlit("observed");
    assert("request"@.len() != "observed"@.len());
    assert("response"@[0] != "observed"@[0]);
}

/// What a packet's source is in one direction, its destination is in the other.
pub proof fn roles_swap_with_the_direction(c: ContextView, d: ContextView)
    requires
        c.src_port == d.dst_port,
        c.dst_port == d.src_port,
    ensures
        source_role(c) == destination_role(d),
        destination_role(c) == source_role(d),
{
}

/// A payload gives one transaction where a frame was parsed, one anomaly where it only looked
/// like one, and nothing where it is of another protocol.
pub proof fn a_transaction_or_an_anomaly(
    c: ChunkView,
    transport: TransportProtocol,
    parsed: Dissection<OmronFinsFields>,
)
    ensures
        ({
            let e = payload_events(c, transport, parsed);
            &&& events::tx_count(e) == (if parsed is Parsed {
                1nat
            } else {
                0nat
            })
            &&& events::anomaly_count(e) == (if parsed is Malformed {
                1nat
            } else {
                0nat
            })
            &&& parsed is Foreign ==> e.len() == 0
        }),
{
    let none = Seq::<EventView>::empty();
    let e = payload_events(c, transport, parsed);
    match parsed {
        Dissection::Foreign => {},
        Dissection::Malformed => {
            events::counts_push_if(none, true, e[0]);
        },
        Dissection::Parsed(f) => {
            let t = none.push(frame_seen(c, transport, f));
            let from = f.source_node is Some || f.source_network is Some || f.source_unit is Some;
            let to = f.destination_node is Some || f.destination_network is Some
                || f.destination_unit is Some;
            let s = events::push_if(t, from, e[1]);
            let d = events::push_if(s, to, e[s.len() as int]);
            events::counts_push_if(none, true, frame_seen(c, transport, f));
            events::counts_push_if(t, from, e[1]);
            events::counts_push_if(s, to, e[s.len() as int]);
            events::counts_push_if(d, true, link_seen(c, transport, f));
            events::counts_push_if(
                d.push(link_seen(c, transport, f)),
                f.payload@.len() > 0,
                e.last(),
            );
            assert(e =~= events::push_if(
                d.push(link_seen(c, transport, f)),
                f.payload@.len() > 0,
                e.last(),
            ));
        },
    }
}

/// The attributes of a frame give the network, node and unit of both of its ends under their own
/// names, and none that it has not.
pub proof fn attributes_name_both_ends(
    c: ChunkView,
    transport: TransportProtocol,
    f: OmronFinsFields,
)
    ensures
        ({
            let m = frame_events(c, transport, f)[0].family->ProtocolTransaction_0.attributes;
            &&& f.item_count is Some ==> m["item_count"@] == text::dec(f.item_count->Some_0 as nat)
            &&& f.destination_network is Some
                ==> m["destination_network"@] == text::dec(f.destination_network->Some_0 as nat)
            &&& f.destination_node is Some
                ==> m["destination_node"@] == text::dec(f.destination_node->Some_0 as nat)
            &&& f.destination_unit is Some
                ==> m["destination_unit"@] == text::dec(f.destination_unit->Some_0 as nat)
            &&& f.source_network is Some
                ==> m["source_network"@] == text::dec(f.source_network->Some_0 as nat)
            &&& f.source_node is Some
                ==> m["source_node"@] == text::dec(f.source_node->Some_0 as nat)
            &&& f.source_unit is Some
                ==> m["source_unit"@] == text::dec(f.source_unit->Some_0 as nat)
        }),
{
    reveal_strlit("item_count");
    reveal_strlit("destination_network");
    reveal_strlit("destination_node");
    reveal_strlit("destination_unit");
    reveal_strlit("source_network");
    reveal_strlit("source_node");
    reveal_strlit("source_unit");
    assert({
        &&& "item_count"@.len() == 10
        &&& "destination_network"@.len() == 19
        &&& "destination_node"@.len() == 16
        &&& "destination_unit"@.len() == 16
        &&& "source_network"@.len() == 14
        &&& "source_node"@.len() == 11
        &&& "source_unit"@.len() == 11
    });
    assert("destination_node"@[12] != "destination_unit"@[12]);
    assert("source_node"@[7] != "source_unit"@[7]);
}

/// Both ends of a frame are assets of OMRON under their own addresses, each with its own network,
/// node and unit: to port 9600 the source is the controller and the destination the PLC, from
/// there the other way round.
pub proof fn ends_follow_the_port(c: ChunkView, transport: TransportProtocol, f: OmronFinsFields)
    requires
        f.source_node is Some,
        f.destination_node is Some,
    ensures
        ({
            let e = frame_events(c, transport, f);
            let tx = e[0].family->ProtocolTransaction_0;
            let s = e[1].family->AssetObservation_0;
            let d = e[2].family->AssetObservation_0;
            let link = e[3].family->TopologyObservation_0;
            let to = c.context.dst_port == 9600 && c.context.src_port != 9600;
            let from = c.context.src_port == 9600 && c.context.dst_port != 9600;
            &&& s.asset_key == c.context.src_ip.text()
            &&& d.asset_key == c.context.dst_ip.text()
            &&& s.vendor == Some("OMRON"@)
            &&& d.vendor == Some("OMRON"@)
            &&& to ==> s.role == Some("controller"@) && d.role == Some("plc"@) && tx.status
                == "request"@
            &&& from ==> s.role == Some("plc"@) && d.role == Some("controller"@) && tx.status
                == "response"@
            &&& !to && !from ==> s.role is None && d.role is None && tx.status == "observed"@
            &&& s.identifiers["ip"@] == s.asset_key
            &&& d.identifiers["ip"@] == d.asset_key
            &&& match f.source_network {
                Some(v) => s.identifiers.contains_key("fins_network"@)
                    && s.identifiers["fins_network"@] == text::dec(v as nat),
                None => !s.identifiers.contains_key("fins_network"@),
            }
            &&& match f.source_node {
                Some(v) => s.identifiers.contains_key("fins_node"@)
                    && s.identifiers["fins_node"@] == text::dec(v as nat),
                None => !s.identifiers.contains_key("fins_node"@),
            }
            &&& match f.source_unit {
                Some(v) => s.identifiers.contains_key("fins_unit"@)
                    && s.identifiers["fins_unit"@] == text::dec(v as nat),
                None => !s.identifiers.contains_key("fins_unit"@),
            }
            &&& match f.destination_network {
                Some(v) => d.identifiers.contains_key("fins_network"@)
                    && d.identifiers["fins_network"@] == text::dec(v as nat),
                None => !d.identifiers.contains_key("fins_network"@),
            }
            &&& match f.destination_node {
                Some(v) => d.identifiers.contains_key("fins_node"@)
                    && d.identifiers["fins_node"@] == text::dec(v as nat),
                None => !d.identifiers.contains_key("fins_node"@),
            }
            &&& match f.destination_unit {
                Some(v) => d.identifiers.contains_key("fins_unit"@)
                    && d.identifiers["fins_unit"@] == text::dec(v as nat),
                None => !d.identifiers.contains_key("fins_unit"@),
            }
            &&& link.local_id == s.asset_key
            &&& link.remote_id == Some(d.asset_key)
            &&& link.observation_type == "omron_fins_transaction"@
            &&& link.metadata["frame_variant"@] == f.frame_variant@
        }),
{
    reveal_strlit("ip");
    reveal_strlit("fins_network");
    reveal_strlit("fins_node");
    reveal_strlit("fins_unit");
    assert({
        &&& "ip"@.len() == 2
        &&& "fins_network"@.len() == 12
        &&& "fins_node"@.len() == 9
        &&& "fins_unit"@.len() == 9
    });
    assert("fins_node"@[5] != "fins_unit"@[5]);
}

/// The objects of a frame are the memory area, word and bit and the number of items, in this order.
pub proof fn memory_is_referenced(
    c: ChunkView,
    transport: TransportProtocol,
    f: OmronFinsFields,
    area: u8,
    word: u16,
    bit: u8,
    count: u16,
)
    requires
        f.memory_area == Some(area),
        f.memory_word == Some(word),
        f.memory_bit == Some(bit),
        f.item_count == Some(count),
    ensures
        frame_events(c, transport, f)[0].family->ProtocolTransaction_0.object_refs == seq![
            "memory_area:"@ + text::hex0x(area as nat, 2),
            "memory_word:"@ + text::dec(word as nat),
            "memory_bit:"@ + text::dec(bit as nat),
            "item_count:"@ + text::dec(count as nat),
        ],
{
}

} // verus!
