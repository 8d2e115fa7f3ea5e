//! DNP3 on TCP port 20000.
//!
//! The frame is taken apart elsewhere; this decoder turns the parsed fields into events. A
//! transaction carries them typed, in `protocol_fields`, and the addresses once more in its
//! attributes.

use vstd::prelude::*;

use crate::bytes::contains_byte;
use crate::collections::Attributes;
use crate::events;
use crate::events::{
    artifact_event, asset_event, asset_observation, chunk_envelope, emit, emit_all, no_events,
    no_values, parse_anomaly_event, topology_event, transaction_event, BronzeEvent, EnvelopeView,
    EventEnvelope, EventView, ProtocolFields, ProtocolFieldsView, ProtocolTransaction,
    TopologyObservation, TopologyView, TransactionView,
};
use crate::packet::{
    ChunkView, ContextView, DecoderInterest, PacketContext, StreamChunk, TransportProtocol,
};
use crate::text;
use crate::text::{cat, dec_text, hex0x_text, no_texts, one_text};

verus! {

/// The parsed fields of a DNP3 frame.
#[derive(Debug, Clone)]
pub struct Dnp3Fields {
    pub source_address: u16,
    pub destination_address: u16,
    pub function_code: u8,
    pub application_data: Vec<u8>,
    pub dll_control: u8,
    pub transport_seq: u8,
    pub transport_fir: bool,
    pub transport_fin: bool,
    pub app_control: u8,
    pub iin: Option<u16>,
}

/// The typed fields of a DNP3 frame.
#[derive(Debug, Clone)]
pub struct Dnp3BronzeFields {
    pub source_addr: u16,
    pub destination_addr: u16,
    pub dll_control: u8,
    pub transport_seq: u8,
    pub transport_fir: bool,
    pub transport_fin: bool,
    pub application_function_code: u8,
    pub application_function_name: String,
    pub application_seq: u8,
    pub iin_flags: Option<u16>,
    pub direction: String,
    pub object_groups: Vec<u8>,
}

/// DNP3 fields as contracts speak of them.
pub struct Dnp3FieldsView {
    pub source_addr: u16,
    pub destination_addr: u16,
    pub dll_control: u8,
    pub transport_seq: u8,
    pub transport_fir: bool,
    pub transport_fin: bool,
    pub application_function_code: u8,
    pub application_function_name: Seq<char>,
    pub application_seq: u8,
    pub iin_flags: Option<u16>,
    pub direction: Seq<char>,
    pub object_groups: Seq<u8>,
}

impl View for Dnp3BronzeFields {
    type V = Dnp3FieldsView;

    open spec fn view(&self) -> Dnp3FieldsView {
        Dnp3FieldsView {
            source_addr: self.source_addr,
            destination_addr: self.destination_addr,
            dll_control: self.dll_control,
            transport_seq: self.transport_seq,
            transport_fir: self.transport_fir,
            transport_fin: self.transport_fin,
            application_function_code: self.application_function_code,
            application_function_name: self.application_function_name@,
            application_seq: self.application_seq,
            iin_flags: self.iin_flags,
            direction: self.direction@,
            object_groups: self.object_groups@,
        }
    }
}

// ---------------------------------------------------------------------------
// Labels
// ---------------------------------------------------------------------------

/// The operation label of a function code.
pub open spec fn operation_of(code: u8) -> Seq<char> {
    if code == 0x01 {
        "read"@
    } else if code == 0x02 {
        "write"@
    } else if code == 0x03 {
        "select"@
    } else if code == 0x04 {
        "operate"@
    } else if code == 0x05 {
        "direct_operate"@
    } else if code == 0x06 {
        "direct_operate_no_ack"@
    } else if code == 0x81 {
        "response"@
    } else if code == 0x82 {
        "unsolicited_response"@
    } else {
        "dnp3_message"@
    }
}

/// The operation label of a function code.
pub fn dnp3_function_name(code: u8) -> (r: &'static str)
    ensures
        r@ == operation_of(code),
{
    match code {
        0x01 => "read",
        0x02 => "write",
        0x03 => "select",
        0x04 => "operate",
        0x05 => "direct_operate",
        0x06 => "direct_operate_no_ack",
        0x81 => "response",
        0x82 => "unsolicited_response",
        _ => "dnp3_message",
    }
}

/// Whether the payload of a function is kept: the functions that write or operate.
pub fn is_dnp3_artifact(code: u8) -> (r: bool)
    ensures
        r == (0x02 <= code <= 0x06),
{
    0x02 <= code && code <= 0x06
}

/// The name of an application function code.
pub open spec fn function_of(fc: u8) -> Seq<char> {
    if fc == 0x00 {
        "Confirm"@
    } else if fc == 0x01 {
        "Read"@
    } else if fc == 0x02 {
        "Write"@
    } else if fc == 0x03 {
        "Select"@
    } else if fc == 0x04 {
        "Operate"@
    } else if fc == 0x05 {
        "DirectOperate"@
    } else if fc == 0x06 {
        "DirectOperateNoAck"@
    } else if fc == 0x07 {
        "ImmediateFreeze"@
    } else if fc == 0x08 {
        "ImmediateFreezeNoAck"@
    } else if fc == 0x09 {
        "FreezeAndClear"@
    } else if fc == 0x0A {
        "FreezeAndClearNoAck"@
    } else if fc == 0x0B {
        "FreezeAtTime"@
    } else if fc == 0x0C {
        "FreezeAtTimeNoAck"@
    } else if fc == 0x0D {
        "ColdRestart"@
    } else if fc == 0x0E {
        "WarmRestart"@
    } else if fc == 0x0F {
        "InitializeData"@
    } else if fc == 0x10 {
        "InitializeApplication"@
    } else if fc == 0x11 {
        "StartApplication"@
    } else if fc == 0x12 {
        "StopApplication"@
    } else if fc == 0x15 {
        "EnableUnsolicited"@
    } else if fc == 0x16 {
        "DisableUnsolicited"@
    } else if fc == 0x81 {
        "Response"@
    } else if fc == 0x82 {
        "UnsolicitedResponse"@
    } else {
        "Unknown"@
    }
}

/// The name of an application function code.
pub fn dnp3_application_function_name(fc: u8) -> (r: &'static str)
    ensures
        r@ == function_of(fc),
{
    match fc {
        0x00 => "Confirm",
        0x01 => "Read",
        0x02 => "Write",
        0x03 => "Select",
        0x04 => "Operate",
        0x05 => "DirectOperate",
        0x06 => "DirectOperateNoAck",
        0x07 => "ImmediateFreeze",
        0x08 => "ImmediateFreezeNoAck",
        0x09 => "FreezeAndClear",
        0x0A => "FreezeAndClearNoAck",
        0x0B => "FreezeAtTime",
        0x0C => "FreezeAtTimeNoAck",
        0x0D => "ColdRestart",
        0x0E => "WarmRestart",
        0x0F => "InitializeData",
        0x10 => "InitializeApplication",
        0x11 => "StartApplication",
        0x12 => "StopApplication",
        0x15 => "EnableUnsolicited",
        0x16 => "DisableUnsolicited",
        0x81 => "Response",
        0x82 => "UnsolicitedResponse",
        _ => "Unknown",
    }
}

/// The direction of a frame.
pub open spec fn direction_of(fc: u8) -> Seq<char> {
    if fc == 0x82 {
        "unsolicited"@
    } else if fc >= 0x80 {
        "response"@
    } else {
        "request"@
    }
}

// ---------------------------------------------------------------------------
// Object groups
// ---------------------------------------------------------------------------

/// The length of the range part of an object header, by its qualifier; zero where the range
/// is absent or special.
pub open spec fn range_len(qualifier: u8) -> int {
    let k = qualifier & 0x70;
    if k == 0x00 || k == 0x10 {
        2
    } else if k == 0x20 || k == 0x30 {
        4
    } else if k == 0x40 || k == 0x50 {
        8
    } else {
        0
    }
}

/// The groups, each once and in order of appearance.
pub open spec fn with_group(groups: Seq<u8>, g: u8) -> Seq<u8> {
    if groups.contains(g) {
        groups
    } else {
        groups.push(g)
    }
}

/// The groups of the object headers from `i` on, joined to those found before. A header is a
/// group, a variation and a qualifier byte, then its range; the scan stops at a header
/// without a range.
pub open spec fn groups_from(data: Seq<u8>, i: int, groups: Seq<u8>) -> Seq<u8>
    decreases data.len() - i,
{
    if i < 0 || i + 2 >= data.len() {
        groups
    } else {
        let found = with_group(groups, data[i]);
        let n = range_len(data[i + 2]);
        if n == 0 || i + 3 + n >= data.len() {
            found
        } else {
            groups_from(data, i + 3 + n, found)
        }
    }
}

/// The distinct object groups that application data refers to, in order of appearance.
pub fn extract_object_groups(app_data: &[u8]) -> (r: Vec<u8>)
    ensures
        r@ == groups_from(app_data@, 0, Seq::empty()),
{
    let mut groups: Vec<u8> = Vec::new();
    let mut i: usize = 0;
    while i < app_data.len() && app_data.len() - i > 2
        invariant
            i <= app_data.len(),
            groups_from(app_data@, 0, Seq::empty()) == groups_from(app_data@, i as int, groups@),
        decreases app_data.len() - i,
    {
        let group = app_data[i];
        let qualifier = app_data[i + 2];
        if !contains_byte(groups.as_slice(), group) {
            groups.push(group);
        }
        let range_bytes: usize = match qualifier & 0x70 {
            0x00 | 0x10 => 2,
            0x20 | 0x30 => 4,
            0x40 | 0x50 => 8,
            _ => 0,
        };
        if range_bytes == 0 || app_data.len() - i <= 3 + range_bytes {
            return groups;
        }
        i = i + 3 + range_bytes;
    }
    groups
}

// ---------------------------------------------------------------------------
// Events
// ---------------------------------------------------------------------------

/// The typed fields of a frame.
pub open spec fn typed(f: Dnp3Fields) -> Dnp3FieldsView {
    Dnp3FieldsView {
        source_addr: f.source_address,
        destination_addr: f.destination_address,
        dll_control: f.dll_control,
        transport_seq: f.transport_seq,
        transport_fir: f.transport_fir,
        transport_fin: f.transport_fin,
        application_function_code: f.function_code,
        application_function_name: function_of(f.function_code),
        application_seq: f.app_control & 0x0F,
        iin_flags: f.iin,
        direction: direction_of(f.function_code),
        object_groups: groups_from(f.application_data@, 0, Seq::empty()),
    }
}

/// The typed fields of a frame.
pub fn dnp3_bronze_fields(fields: &Dnp3Fields) -> (r: Dnp3BronzeFields)
    ensures
        r@ == typed(*fields),
{
    let fc = fields.function_code;
    let direction = if fc == 0x82 {
        "unsolicited".to_owned()
    } else if fc >= 0x80 {
        "response".to_owned()
    } else {
        "request".to_owned()
    };
    Dnp3BronzeFields {
        source_addr: fields.source_address,
        destination_addr: fields.destination_address,
        dll_control: fields.dll_control,
        transport_seq: fields.transport_seq,
        transport_fir: fields.transport_fir,
        transport_fin: fields.transport_fin,
        application_function_code: fc,
        application_function_name: dnp3_application_function_name(fc).to_owned(),
        application_seq: fields.app_control & 0x0F,
        iin_flags: fields.iin,
        direction,
        object_groups: extract_object_groups(fields.application_data.as_slice()),
    }
}

/// The envelope of a chunk.
pub open spec fn env(c: ChunkView) -> EnvelopeView {
    events::chunk_env(c, TransportProtocol::Tcp, "dnp3"@)
}

/// Whether a frame goes from the outstation to the master.
pub open spec fn from_outstation(x: ContextView, function_code: u8) -> bool {
    function_code >= 0x80 || x.src_port == 20000
}

/// One end of a frame.
pub open spec fn end_seen(
    capture_id: Seq<char>,
    envelope: EnvelopeView,
    ip: Seq<char>,
    role: Seq<char>,
    address: u16,
) -> EventView {
    events::asset_event_view(
        capture_id,
        envelope,
        events::asset_view(
            ip,
            Some(role),
            None,
            None,
            None,
            "dnp3"@,
            Map::empty().insert("ip"@, ip).insert("dnp3_address"@, text::dec(address as nat)),
        ),
    )
}

fn end_event(
    capture_id: &str,
    envelope: &EventEnvelope,
    ip: String,
    role: &str,
    address: u16,
) -> (r: BronzeEvent)
    ensures
        r@ == end_seen(capture_id@, envelope@, ip@, role@, address),
{
    let mut identifiers = Attributes::new();
    identifiers.put("ip", ip.as_str());
    identifiers.put_dec("dnp3_address", address);
    asset_event(
        capture_id,
        envelope.copy(),
        asset_observation(ip, Some(role), None, None, None, "dnp3", identifiers),
    )
}

/// The two ends of a frame, and the link between them.
pub open spec fn role_events(
    capture_id: Seq<char>,
    envelope: EnvelopeView,
    x: ContextView,
    source_address: u16,
    destination_address: u16,
    function_code: u8,
) -> Seq<EventView> {
    let reply = from_outstation(x, function_code);
    let src_ip = x.src_ip.text();
    let dst_ip = x.dst_ip.text();
    Seq::<EventView>::empty().push(
        end_seen(
            capture_id,
            envelope,
            src_ip,
            if reply {
                "outstation"@
            } else {
                "master"@
            },
            source_address,
        ),
    ).push(
        end_seen(
            capture_id,
            envelope,
            dst_ip,
            if reply {
                "master"@
            } else {
                "outstation"@
            },
            destination_address,
        ),
    ).push(
        events::topology_event_view(
            capture_id,
            envelope,
            TopologyView {
                observation_type: if reply {
                    "dnp3_response"@
                } else {
                    "dnp3_request"@
                },
                local_id: text::dec(source_address as nat),
                remote_id: Some(text::dec(destination_address as nat)),
                description: Some(operation_of(function_code)),
                capabilities: Seq::empty(),
                metadata: Map::empty().insert("src_ip"@, src_ip).insert("dst_ip"@, dst_ip),
            },
        ),
    )
}

/// The two ends of a frame, and the link between them.
pub fn dnp3_role_observations(
    capture_id: &str,
    envelope: &EventEnvelope,
    context: &PacketContext,
    source_address: u16,
    destination_address: u16,
    function_code: u8,
) -> (r: Vec<BronzeEvent>)
    ensures
        events::events(r@) == role_events(
            capture_id@,
            envelope@,
            context@,
            source_address,
            destination_address,
            function_code,
        ),
{
    let mut ev = no_events();
    let reply = function_code >= 0x80 || context.src_port == 20000;
    let (src_role, dst_role, observation_type) = if reply {
        ("outstation", "master", "dnp3_response")
    } else {
        ("master", "outstation", "dnp3_request")
    };
    emit(
        &mut ev,
        end_event(capture_id, envelope, context.src_ip.text(), src_role, source_address),
    );
    emit(
        &mut ev,
        end_event(capture_id, envelope, context.dst_ip.text(), dst_role, destination_address),
    );
    let mut metadata = Attributes::new();
    metadata.insert("src_ip", context.src_ip.text());
    metadata.insert("dst_ip", context.dst_ip.text());
    emit(
        &mut ev,
        topology_event(
            capture_id,
            envelope.copy(),
            TopologyObservation {
                observation_type: observation_type.to_owned(),
                local_id: dec_text(source_address),
                remote_id: Some(dec_text(destination_address)),
                description: Some(dnp3_function_name(function_code).to_owned()),
                capabilities: no_texts(),
                metadata,
            },
        ),
    );
    ev
}

/// The transaction of a frame.
pub open spec fn frame_seen(c: ChunkView, f: Dnp3Fields) -> EventView {
    let operation = operation_of(f.function_code);
    events::tx_view(
        c.capture_id,
        env(c),
        TransactionView {
            object_refs: seq!["dnp3_fc:"@ + text::hex0x(f.function_code as nat, 2)],
            protocol_fields: Some(ProtocolFieldsView::Dnp3(typed(f))),
            ..events::plain_tx(
                operation,
                if f.function_code >= 0x80 {
                    "response"@
                } else {
                    "request"@
                },
                Some(
                    operation + " "@ + text::dec(f.source_address as nat) + "->"@ + text::dec(
                        f.destination_address as nat,
                    ),
                ),
                Map::empty().insert("source_address"@, text::dec(f.source_address as nat)).insert(
                    "destination_address"@,
                    text::dec(f.destination_address as nat),
                ),
            )
        },
    )
}

/// The events of a chunk: its transaction, its two ends and the link between them, and the
/// payload of a function that writes or operates; an anomaly where it could not be parsed.
pub open spec fn chunk_events(c: ChunkView, fields: Option<Dnp3Fields>) -> Seq<EventView> {
    let none = Seq::<EventView>::empty();
    match fields {
        Some(f) => {
            let roles = role_events(
                c.capture_id,
                env(c),
                c.context,
                f.source_address,
                f.destination_address,
                f.function_code,
            );
            events::push_if(
                none.push(frame_seen(c, f)) + roles,
                0x02 <= f.function_code <= 0x06 && f.application_data@.len() > 0,
                events::artifact_view(
                    c.capture_id,
                    env(c),
                    "dnp3_application_data"@,
                    c.session_key + ":"@ + text::hex0x(f.function_code as nat, 2),
                    Some("application/octet-stream"@),
                    Some("DNP3 application payload"@),
                    f.application_data@,
                ),
            )
        },
        None => none.push(
            events::anomaly_view(
                c.capture_id,
                env(c),
                "dnp3"@,
                "medium"@,
                "failed to parse dnp3 payload"@,
                c.payload,
            ),
        ),
    }
}

/// The DNP3 decoder.
#[derive(Debug, Default)]
pub struct Dnp3DecoderWrapper;

impl Dnp3DecoderWrapper {
    /// The name of the decoder.
    pub fn name(&self) -> (r: &'static str)
        ensures
            r@ == "dnp3"@,
    {
        "dnp3"
    }

    /// The traffic that the decoder asks for.
    pub fn interest(&self) -> (r: &'static [DecoderInterest])
        ensures
            r@ == seq![DecoderInterest::TcpPort(20000)],
    {
        &[DecoderInterest::TcpPort(20000)]
    }

    /// Takes in a chunk of a TCP stream and what was parsed from it.
    pub fn on_stream_chunk(
        &mut self,
        chunk: &StreamChunk<'_>,
        fields: Option<Dnp3Fields>,
        out: &mut Vec<BronzeEvent>,
    )
        ensures
            events::events(final(out)@) == events::events(old(out)@) + chunk_events(
                chunk@,
                fields,
            ),
    {
        let mut ev = no_events();
        let envelope = chunk_envelope(chunk, TransportProtocol::Tcp, "dnp3");
        match fields {
            Some(f) => {
                let operation = dnp3_function_name(f.function_code);
                let mut attributes = Attributes::new();
                attributes.put_dec("source_address", f.source_address);
                attributes.put_dec("destination_address", f.destination_address);
                let summary = cat(
                    cat(operation, " ").as_str(),
                    dec_text(f.source_address).as_str(),
                );
                let summary = cat(
                    cat(summary.as_str(), "->").as_str(),
                    dec_text(f.destination_address).as_str(),
                );
                let status = if f.function_code >= 0x80 {
                    "response"
                } else {
                    "request"
                };
                emit(
                    &mut ev,
                    transaction_event(
                        chunk.capture_id,
                        envelope.copy(),
                        ProtocolTransaction {
                            operation: operation.to_owned(),
                            status: status.to_owned(),
                            request_summary: Some(summary),
                            response_summary: None,
                            object_refs: one_text(
                                cat("dnp3_fc:", hex0x_text(f.function_code, 2).as_str()),
                            ),
                            values: no_values(),
                            attributes,
                            modbus: None,
                            protocol_fields: Some(ProtocolFields::Dnp3(dnp3_bronze_fields(&f))),
                        },
                    ),
                );
                let roles = dnp3_role_observations(
                    chunk.capture_id,
                    &envelope,
                    &chunk.context,
                    f.source_address,
                    f.destination_address,
                    f.function_code,
                );
                emit_all(&mut ev, roles);
                if is_dnp3_artifact(f.function_code) && f.application_data.len() > 0 {
                    let key = cat(
                        cat(chunk.session_key.as_str(), ":").as_str(),
                        hex0x_text(f.function_code, 2).as_str(),
                    );
                    emit(
                        &mut ev,
                        artifact_event(
                            chunk.capture_id,
                            envelope,
                            "dnp3_application_data",
                            key.as_str(),
                            Some("application/octet-stream"),
                            Some("DNP3 application payload"),
                            f.application_data.as_slice(),
                        ),
                    );
                }
            },
            None => {
                emit(
                    &mut ev,
                    parse_anomaly_event(
                        chunk.capture_id,
                        envelope,
                        "dnp3",
                        "medium",
                        "failed to parse dnp3 payload",
                        chunk.payload,
                    ),
                );
            },
        }
        emit_all(out, ev);
    }
}

// ---------------------------------------------------------------------------
// Laws
// ---------------------------------------------------------------------------

proof fn groups_stay_distinct(data: Seq<u8>, i: int, groups: Seq<u8>)
    requires
        groups.no_duplicates(),
        forall|g: u8| groups.contains(g) ==> data.contains(g),
    ensures
        groups_from(data, i, groups).no_duplicates(),
        forall|g: u8| groups_from(data, i, groups).contains(g) ==> data.contains(g),
    decreases data.len() - i,
{
    if 0 <= i && i + 2 < data.len() {
        let g = data[i];
        let found = with_group(groups, g);
        assert(found.no_duplicates()) by {
            if !groups.contains(g) {
                assert forall|a: int, b: int|
                    0 <= a < found.len() && 0 <= b < found.len() && a != b implies found[a]
                    != found[b] by {
                    if a == groups.len() && b < groups.len() {
                        assert(groups.contains(groups[b]));
                    }
                    if b == groups.len() && a < groups.len() {
                        assert(groups.contains(groups[a]));
                    }
                }
            }
        }
        assert forall|h: u8| found.contains(h) implies data.contains(h) by {
            let k = choose|k: int| 0 <= k < found.len() && found[k] == h;
            if k < groups.len() {
                assert(groups.contains(groups[k]));
            } else {
                assert(data[i] == h);
            }
        }
        let n = range_len(data[i + 2]);
        if n != 0 && i + 3 + n < data.len() {
            groups_stay_distinct(data, i + 3 + n, found);
        }
    }
}

/// The object groups of application data are distinct, and each of them is one of its bytes.
pub proof fn object_groups_are_distinct(data: Seq<u8>)
    ensures
        groups_from(data, 0, Seq::empty()).no_duplicates(),
        forall|g: u8| groups_from(data, 0, Seq::empty()).contains(g) ==> data.contains(g),
{
    groups_stay_distinct(data, 0, Seq::empty());
}

/// The status of a frame and the direction in its typed fields agree, except that the
/// direction also tells unsolicited responses apart.
pub proof fn direction_agrees_with_status(c: ChunkView, f: Dnp3Fields)
    ensures
        f.function_code != 0x82 ==> frame_seen(c, f).family->ProtocolTransaction_0.status == typed(
            f,
        ).direction,
        f.function_code == 0x82 ==> frame_seen(c, f).family->ProtocolTransaction_0.status
            == "response"@ && typed(f).direction == "unsolicited"@,
{
}

/// Both surfaces of a frame carry the same addressing: what the attributes spell out, the typed
/// fields hold as numbers.
pub proof fn both_surfaces_agree(c: ChunkView, f: Dnp3Fields)
    ensures
        ({
            let tx = frame_seen(c, f).family->ProtocolTransaction_0;
            let t = tx.protocol_fields->Some_0->Dnp3_0;
            &&& tx.attributes["source_address"@] == text::dec(t.source_addr as nat)
            &&& tx.attributes["destination_address"@] == text::dec(t.destination_addr as nat)
        }),
{
    reveal_strlit("source_address");
    reveal_strlit("destination_address");
    assert("source_address"@.len() != "destination_address"@.len());
}

/// A chunk gives one transaction where it could be parsed, and one anomaly where not.
pub proof fn a_transaction_or_an_anomaly(c: ChunkView, fields: Option<Dnp3Fields>)
    ensures
        events::tx_count(chunk_events(c, fields)) == (if fields is Some {
            1nat
        } else {
            0nat
        }),
        events::anomaly_count(chunk_events(c, fields)) == (if fields is None {
            1nat
        } else {
            0nat
        }),
{
    let none = Seq::<EventView>::empty();
    let all = chunk_events(c, fields);
    match fields {
        Some(f) => {
            let seen = none.push(frame_seen(c, f));
            let ends = role_events(
                c.capture_id,
                env(c),
                c.context,
                f.source_address,
                f.destination_address,
                f.function_code,
            );
            events::counts_push_if(none, true, frame_seen(c, f));
            events::counts_push_if(none, true, ends[0]);
            events::counts_push_if(none.push(ends[0]), true, ends[1]);
            events::counts_push_if(none.push(ends[0]).push(ends[1]), true, ends[2]);
            assert(ends =~= none.push(ends[0]).push(ends[1]).push(ends[2]));
            events::counts_add(seen, ends);
            events::counts_push_if(
                seen + ends,
                0x02 <= f.function_code <= 0x06 && f.application_data@.len() > 0,
                all.last(),
            );
        },
        None => {
            events::counts_push_if(none, true, all[0]);
        },
    }
}

/// A function code below 0x80 that does not come from port 20000 is sent by the master to the
/// outstation; otherwise the outstation sends to the master. Each end is an asset under its own
/// address, and the link goes from the source to the destination.
pub proof fn roles_follow_the_direction(c: ChunkView, f: Dnp3Fields)
    ensures
        ({
            let e = chunk_events(c, Some(f));
            let source = e[1].family->AssetObservation_0;
            let destination = e[2].family->AssetObservation_0;
            let link = e[3].family->TopologyObservation_0;
            &&& e[1].family is AssetObservation
            &&& e[2].family is AssetObservation
            &&& e[3].family is TopologyObservation
            &&& source.asset_key == c.context.src_ip.text()
            &&& source.identifiers["ip"@] == c.context.src_ip.text()
            &&& source.identifiers["dnp3_address"@] == text::dec(f.source_address as nat)
            &&& source.protocols == seq!["dnp3"@]
            &&& destination.asset_key == c.context.dst_ip.text()
            &&& destination.identifiers["ip"@] == c.context.dst_ip.text()
            &&& destination.identifiers["dnp3_address"@] == text::dec(f.destination_address as nat)
            &&& destination.protocols == seq!["dnp3"@]
            &&& link.local_id == text::dec(f.source_address as nat)
            &&& link.remote_id == Some(text::dec(f.destination_address as nat))
            &&& link.metadata["src_ip"@] == c.context.src_ip.text()
            &&& link.metadata["dst_ip"@] == c.context.dst_ip.text()
            &&& f.function_code < 0x80 && c.context.src_port != 20000 ==> source.role == Some(
                "master"@,
            ) && destination.role == Some("outstation"@) && link.observation_type
                == "dnp3_request"@
            &&& f.function_code >= 0x80 || c.context.src_port == 20000 ==> source.role == Some(
                "outstation"@,
            ) && destination.role == Some("master"@) && link.observation_type == "dnp3_response"@
            &&& f.function_code == 0x01 ==> link.description->Some_0 == "read"@
            &&& f.function_code == 0x02 ==> link.description->Some_0 == "write"@
            &&& f.function_code == 0x03 ==> link.description->Some_0 == "select"@
            &&& f.function_code == 0x04 ==> link.description->Some_0 == "operate"@
            &&& f.function_code == 0x05 ==> link.description->Some_0 == "direct_operate"@
            &&& f.function_code == 0x06 ==> link.description->Some_0 == "direct_operate_no_ack"@
            &&& f.function_code == 0x81 ==> link.description->Some_0 == "response"@
            &&& f.function_code == 0x82 ==> link.description->Some_0 == "unsolicited_response"@
            &&& f.function_code != 0x01 && f.function_code != 0x02 && f.function_code != 0x03
                && f.function_code != 0x04 && f.function_code != 0x05 && f.function_code != 0x06
                && f.function_code != 0x81 && f.function_code != 0x82 ==> link.description->Some_0
                == "dnp3_message"@
        }),
{
    reveal_strlit("ip");
    reveal_strlit("dnp3_address");
    reveal_strlit("src_ip");
    reveal_strlit("dst_ip");
    assert({
        &&& "ip"@.len() == 2
        &&& "dnp3_address"@.len() == 12
        &&& "src_ip"@.len() == 6
        &&& "dst_ip"@.len() == 6
    });
    assert("src_ip"@[0] != "dst_ip"@[0]);
}

/// The roles of two frames that go opposite ways, neither from port 20000, are swapped.
pub proof fn roles_swap_with_the_direction(c: ChunkView, f: Dnp3Fields, d: ChunkView, g: Dnp3Fields)
    requires
        c.context.src_port != 20000,
        d.context.src_port != 20000,
        f.function_code < 0x80,
        g.function_code >= 0x80,
    ensures
        ({
            let a = chunk_events(c, Some(f));
            let b = chunk_events(d, Some(g));
            &&& a[1].family->AssetObservation_0.role == b[2].family->AssetObservation_0.role
            &&& a[2].family->AssetObservation_0.role == b[1].family->AssetObservation_0.role
            &&& a[1].family->AssetObservation_0.role != a[2].family->AssetObservation_0.role
        }),
{
    reveal_strlit("master");
    reveal_strlit("outstation");
    assert({
        &&& "master"@.len() == 6
        &&& "outstation"@.len() == 10
    });
}

/// The transaction of a frame: its operation by the function code, a response from 0x80 on, both
/// addresses from the source to the destination, and the typed fields as they were parsed.
pub proof fn transaction_is_of_the_frame(c: ChunkView, f: Dnp3Fields)
    ensures
        ({
            let e = chunk_events(c, Some(f))[0];
            let tx = e.family->ProtocolTransaction_0;
            let t = tx.protocol_fields->Some_0->Dnp3_0;
            let from = text::dec(f.source_address as nat);
            let to = text::dec(f.destination_address as nat);
            &&& e.capture_id == c.capture_id
            &&& e.envelope == env(c)
            &&& tx.status == (if f.function_code < 0x80 {
                "request"@
            } else {
                "response"@
            })
            &&& tx.request_summary == Some(tx.operation + " "@ + from + "->"@ + to)
            &&& tx.object_refs == seq!["dnp3_fc:0x"@ + text::hex(f.function_code as nat, 2)]
            &&& tx.attributes["source_address"@] == from
            &&& tx.attributes["destination_address"@] == to
            &&& t.source_addr == f.source_address
            &&& t.destination_addr == f.destination_address
            &&& t.dll_control == f.dll_control
            &&& t.transport_seq == f.transport_seq
            &&& t.transport_fir == f.transport_fir
            &&& t.transport_fin == f.transport_fin
            &&& t.application_function_code == f.function_code
            &&& t.application_seq == f.app_control % 16
            &&& t.iin_flags == f.iin
            &&& t.direction == (if f.function_code == 0x82 {
                "unsolicited"@
            } else if f.function_code >= 0x80 {
                "response"@
            } else {
                "request"@
            })
            &&& f.function_code == 0x01 ==> tx.operation == "read"@
            &&& f.function_code == 0x02 ==> tx.operation == "write"@
            &&& f.function_code == 0x03 ==> tx.operation == "select"@
            &&& f.function_code == 0x04 ==> tx.operation == "operate"@
            &&& f.function_code == 0x05 ==> tx.operation == "direct_operate"@
            &&& f.function_code == 0x06 ==> tx.operation == "direct_operate_no_ack"@
            &&& f.function_code == 0x81 ==> tx.operation == "response"@
            &&& f.function_code == 0x82 ==> tx.operation == "unsolicited_response"@
            &&& f.function_code != 0x01 && f.function_code != 0x02 && f.function_code != 0x03
                && f.function_code != 0x04 && f.function_code != 0x05 && f.function_code != 0x06
                && f.function_code != 0x81 && f.function_code != 0x82 ==> tx.operation
                == "dnp3_message"@
            &&& f.function_code == 0x00 ==> t.application_function_name == "Confirm"@
            &&& f.function_code == 0x01 ==> t.application_function_name == "Read"@
            &&& f.function_code == 0x02 ==> t.application_function_name == "Write"@
            &&& f.function_code == 0x03 ==> t.application_function_name == "Select"@
            &&& f.function_code == 0x04 ==> t.application_function_name == "Operate"@
            &&& f.function_code == 0x05 ==> t.application_function_name == "DirectOperate"@
            &&& f.function_code == 0x06 ==> t.application_function_name == "DirectOperateNoAck"@
            &&& f.function_code == 0x07 ==> t.application_function_name == "ImmediateFreeze"@
            &&& f.function_code == 0x08 ==> t.application_function_name == "ImmediateFreezeNoAck"@
            &&& f.function_code == 0x09 ==> t.application_function_name == "FreezeAndClear"@
            &&& f.function_code == 0x0A ==> t.application_function_name == "FreezeAndClearNoAck"@
            &&& f.function_code == 0x0B ==> t.application_function_name == "FreezeAtTime"@
            &&& f.function_code == 0x0C ==> t.application_function_name == "FreezeAtTimeNoAck"@
            &&& f.function_code == 0x0D ==> t.application_function_name == "ColdRestart"@
            &&& f.function_code == 0x0E ==> t.application_function_name == "WarmRestart"@
            &&& f.function_code == 0x0F ==> t.application_function_name == "InitializeData"@
            &&& f.function_code == 0x10 ==> t.application_function_name == "InitializeApplication"@
            &&& f.function_code == 0x11 ==> t.application_function_name == "StartApplication"@
            &&& f.function_code == 0x12 ==> t.application_function_name == "StopApplication"@
            &&& f.function_code == 0x15 ==> t.application_function_name == "EnableUnsolicited"@
            &&& f.function_code == 0x16 ==> t.application_function_name == "DisableUnsolicited"@
            &&& f.function_code == 0x81 ==> t.application_function_name == "Response"@
            &&& f.function_code == 0x82 ==> t.application_function_name == "UnsolicitedResponse"@
            &&& f.function_code != 0x00 && f.function_code != 0x01 && f.function_code != 0x02
                && f.function_code != 0x03 && f.function_code != 0x04 && f.function_code != 0x05
                && f.function_code != 0x06 && f.function_code != 0x07 && f.function_code != 0x08
                && f.function_code != 0x09 && f.function_code != 0x0A && f.function_code != 0x0B
                && f.function_code != 0x0C && f.function_code != 0x0D && f.function_code != 0x0E
                && f.function_code != 0x0F && f.function_code != 0x10 && f.function_code != 0x11
                && f.function_code != 0x12 && f.function_code != 0x15 && f.function_code != 0x16
                && f.function_code != 0x81 && f.function_code != 0x82
                ==> t.application_function_name == "Unknown"@
        }),
{
    let a = f.app_control;
    assert(a & 0x0F == a % 16) by (bit_vector);
    reveal_strlit("source_address");
    reveal_strlit("destination_address");
    reveal_strlit("dnp3_fc:");
    reveal_strlit("0x");
    reveal_strlit("dnp3_fc:0x");
    assert({
        &&& "source_address"@.len() == 14
        &&& "destination_address"@.len() == 19
        &&& "dnp3_fc:"@.len() == 8
        &&& "0x"@.len() == 2
        &&& "dnp3_fc:0x"@.len() == 10
    });
    let h = text::hex(f.function_code as nat, 2);
    assert("dnp3_fc:"@ + ("0x"@ + h) =~= "dnp3_fc:0x"@ + h);
}

/// The application data of a write, a select or an operate is kept as an artifact, function codes
/// 2 to 6; that of no other function is.
pub proof fn control_data_is_kept(c: ChunkView, f: Dnp3Fields)
    ensures
        ({
            let e = chunk_events(c, Some(f));
            let n = f.function_code;
            let kept = (n == 2 || n == 3 || n == 4 || n == 5 || n == 6) && f.application_data@.len()
                > 0;
            &&& e.len() == (if kept {
                5nat
            } else {
                4
            })
            &&& kept ==> e[4].family == events::FamilyView::ExtractedArtifact(
                events::ArtifactView {
                    artifact_type: "dnp3_application_data"@,
                    artifact_key: c.session_key + ":"@ + text::hex0x(n as nat, 2),
                    mime_type: Some("application/octet-stream"@),
                    description: Some("DNP3 application payload"@),
                    content: f.application_data@,
                },
            )
        }),
{
}

/// What cannot be parsed is an anomaly of medium severity with the payload.
pub proof fn unreadable_payload_is_an_anomaly(c: ChunkView)
    ensures
        chunk_events(c, None) == seq![
            events::anomaly_view(
                c.capture_id,
                env(c),
                "dnp3"@,
                "medium"@,
                "failed to parse dnp3 payload"@,
                c.payload,
            ),
        ],
{
    assert(chunk_events(c, None) =~= seq![chunk_events(c, None)[0]]);
}

/// Behind an object header stands a range of two, four or eight bytes, by bits 4 to 6 of the
/// qualifier, and then the next header: both groups are found, in their order. A qualifier without
/// a range ends the search.
pub proof fn groups_of_two_headers(
    g: u8,
    v: u8,
    q: u8,
    range: Seq<u8>,
    h: u8,
    w: u8,
)
    requires
        range.len() == (if q / 16 % 8 < 2 {
            2nat
        } else if q / 16 % 8 < 4 {
            4
        } else if q / 16 % 8 < 6 {
            8
        } else {
            0
        }),
    ensures
        ({
            let data = seq![g, v, q] + range + seq![h, w, 0x60u8];
            let found = groups_from(data, 0, Seq::empty());
            &&& q / 16 % 8 < 6 && g != h ==> found == seq![g, h]
            &&& q / 16 % 8 < 6 && g == h ==> found == seq![g]
            &&& q / 16 % 8 >= 6 ==> found == seq![g]
        }),
{
    assert({
        let k = q & 0x70;
        &&& (k == 0x00 || k == 0x10) == (q / 16 % 8 < 2)
        &&& (k == 0x20 || k == 0x30) == (2 <= q / 16 % 8 && q / 16 % 8 < 4)
        &&& (k == 0x40 || k == 0x50) == (4 <= q / 16 % 8 && q / 16 % 8 < 6)
        &&& 0x60u8 & 0x70 == 0x60
    }) by (bit_vector);
    let data = seq![g, v, q] + range + seq![h, w, 0x60u8];
    let none = Seq::<u8>::empty();
    let i = 3 + range.len() as int;
    assert(data[0] == g && data[2] == q && data[i] == h && data[i + 2] == 0x60);
    let one = with_group(none, g);
    assert(one =~= seq![g]);
    let two = with_group(one, h);
    assert(one[0] == g);
    assert(g != h ==> two =~= seq![g, h]);
    assert(groups_from(data, 0, none) == if q / 16 % 8 < 6 {
        groups_from(data, i, one)
    } else {
        one
    });
    assert(groups_from(data, i, one) == two);
}

} // verus!
