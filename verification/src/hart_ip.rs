//! HART-IP on TCP and UDP port 5094.
//!
//! Frames are taken apart elsewhere; this decoder turns them into transactions, the field
//! devices and hosts behind them, and their payloads.

use vstd::prelude::*;

use crate::bytes::copy_bytes;
use crate::collections;
use crate::collections::Attributes;
use crate::events;
use crate::events::{
    artifact_event, asset_event, asset_observation, chunk_envelope, emit, emit_all, no_events,
    no_values, parse_anomaly_event, topology_event, transaction_event, AssetObservation, AssetView,
    BronzeEvent, Dissection, EnvelopeView, EventEnvelope, EventView, ProtocolFields,
    ProtocolFieldsView, ProtocolTransaction, TopologyObservation, TopologyView, TransactionView,
};
use crate::naming;
use crate::naming::normalize_operation_name;
use crate::packet;
use crate::packet::{
    context_asset_key, context_remote_asset_key, ChunkView, ContextView, DecoderInterest,
    PacketContext, StreamChunk, TransportProtocol,
};
use crate::text;
use crate::text::{
    cat, dec_text, hex_encode, no_texts, one_text, opt_copy, opt_dec_text, opt_owned, push_text,
    same_text,
};

verus! {

// ---------------------------------------------------------------------------
// Frames
// ---------------------------------------------------------------------------

/// What a field device says of itself.
#[derive(Debug, Clone)]
pub struct HartDeviceIdentity {
    pub manufacturer_id: Option<u16>,
    pub device_type: Option<u16>,
    pub device_id: Option<Vec<u8>>,
    pub tag: Option<String>,
    pub hart_universal_revision: Option<u8>,
    pub device_revision: Option<u8>,
    pub software_revision: Option<u8>,
    pub hardware_revision: Option<u8>,
    pub configuration_change_counter: Option<u16>,
    pub extended_device_status: Option<u8>,
}

/// A HART command carried through.
#[derive(Debug, Clone)]
pub struct HartPassThrough {
    pub frame_type: String,
    pub physical_layer_type: String,
    pub address_type: String,
    pub long_address: Option<[u8; 5]>,
    pub command: u8,
    pub device_status: Option<u8>,
    pub payload: Vec<u8>,
    pub identity: Option<HartDeviceIdentity>,
}

/// The body of a frame.
#[derive(Debug, Clone)]
pub enum HartIpBody {
    SessionInitiate { master_type: String, inactivity_close_timer: u32 },
    SessionClose,
    KeepAlive,
    Error { error_code: Option<u8> },
    PassThrough(HartPassThrough),
    Raw(Vec<u8>),
}

/// A parsed frame.
#[derive(Debug, Clone)]
pub struct HartIpFields {
    pub version: u8,
    pub message_type: String,
    pub message_id: String,
    pub status: u8,
    pub transaction_id: u16,
    pub message_length: u16,
    pub body: HartIpBody,
    pub payload: Vec<u8>,
}

/// The typed fields of a frame.
#[derive(Debug, Clone)]
pub struct HartIpBronzeFields {
    pub message_type: u8,
    pub message_type_name: String,
    pub message_id: u8,
    pub message_id_name: String,
    pub status_byte: u8,
    pub sequence_number: u16,
    pub payload_length: u16,
    pub passthrough_command: Option<u8>,
    pub passthrough_command_name: Option<String>,
    pub device_status: Option<u8>,
    pub field_device_address: Option<Vec<u8>>,
    pub direction: String,
}

/// HART-IP fields as contracts speak of them.
pub struct HartIpFieldsView {
    pub message_type: u8,
    pub message_type_name: Seq<char>,
    pub message_id: u8,
    pub message_id_name: Seq<char>,
    pub status_byte: u8,
    pub sequence_number: u16,
    pub payload_length: u16,
    pub passthrough_command: Option<u8>,
    pub passthrough_command_name: Option<Seq<char>>,
    pub device_status: Option<u8>,
    pub field_device_address: Option<Seq<u8>>,
    pub direction: Seq<char>,
}

impl View for HartIpBronzeFields {
    type V = HartIpFieldsView;

    open spec fn view(&self) -> HartIpFieldsView {
        HartIpFieldsView {
            message_type: self.message_type,
            message_type_name: self.message_type_name@,
            message_id: self.message_id,
            message_id_name: self.message_id_name@,
            status_byte: self.status_byte,
            sequence_number: self.sequence_number,
            payload_length: self.payload_length,
            passthrough_command: self.passthrough_command,
            passthrough_command_name: text::opt_view(self.passthrough_command_name),
            device_status: self.device_status,
            field_device_address: collections::opt_v(self.field_device_address),
            direction: self.direction@,
        }
    }
}

// ---------------------------------------------------------------------------
// Labels
// ---------------------------------------------------------------------------

/// The name of a command carried through.
pub open spec fn command_of(command: u8) -> Seq<char> {
    if command == 0 {
        "read_unique_identifier"@
    } else if command == 11 {
        "read_device_identity"@
    } else if command == 20 {
        "read_long_tag"@
    } else if command == 21 {
        "read_tag_descriptor"@
    } else if command == 22 {
        "read_message"@
    } else {
        "pass_through_command"@
    }
}

/// The name of a command carried through.
pub fn hart_passthrough_command_name(command: u8) -> (r: &'static str)
    ensures
        r@ == command_of(command),
{
    match command {
        0 => "read_unique_identifier",
        11 => "read_device_identity",
        20 => "read_long_tag",
        21 => "read_tag_descriptor",
        22 => "read_message",
        _ => "pass_through_command",
    }
}

/// The operation of a frame: the command that it carries through, or its message id.
pub open spec fn operation_of(f: HartIpFields) -> Seq<char> {
    match f.body {
        HartIpBody::PassThrough(p) => naming::normalized(
            command_of(p.command),
            "hart_pass_through"@,
        ),
        _ => naming::normalized(f.message_id@, "hart_ip"@),
    }
}

/// The operation of a frame.
pub fn hart_ip_operation_name(fields: &HartIpFields) -> (r: String)
    ensures
        r@ == operation_of(*fields),
{
    match &fields.body {
        HartIpBody::PassThrough(pass) => normalize_operation_name(
            hart_passthrough_command_name(pass.command),
            "hart_pass_through",
        ),
        _ => normalize_operation_name(fields.message_id.as_str(), "hart_ip"),
    }
}

/// The status of a message type.
pub open spec fn status_of(message_type: Seq<char>) -> Seq<char> {
    if message_type == "request"@ {
        "request"@
    } else if message_type == "response"@ {
        "response"@
    } else if message_type == "publish"@ {
        "publish"@
    } else if message_type == "error"@ || message_type == "nak"@ {
        "error"@
    } else {
        "observed"@
    }
}

/// The status of a frame.
pub fn hart_ip_status(fields: &HartIpFields) -> (r: &'static str)
    ensures
        r@ == status_of(fields.message_type@),
{
    let t = fields.message_type.as_str();
    if same_text(t, "request") {
        "request"
    } else if same_text(t, "response") {
        "response"
    } else if same_text(t, "publish") {
        "publish"
    } else if same_text(t, "error") || same_text(t, "nak") {
        "error"
    } else {
        "observed"
    }
}

/// The asset key of the field device: a response comes from it, everything else goes to it.
pub open spec fn device_key(c: ContextView, f: HartIpFields) -> Seq<char> {
    if status_of(f.message_type@) == "response"@ {
        packet::asset_key(c.src_ip, c.src_mac)
    } else {
        packet::asset_key(c.dst_ip, c.dst_mac)
    }
}

/// The asset key of the field device.
pub fn hart_ip_device_asset_key(context: &PacketContext, fields: &HartIpFields) -> (r: String)
    ensures
        r@ == device_key(context@, *fields),
{
    if same_text(hart_ip_status(fields), "response") {
        context_asset_key(context)
    } else {
        context_remote_asset_key(context)
    }
}

/// The number of a message type; 255 for one without a name.
pub open spec fn message_type_number(t: Seq<char>) -> u8 {
    if t == "request"@ {
        0
    } else if t == "response"@ {
        1
    } else if t == "publish"@ {
        2
    } else if t == "error"@ {
        3
    } else if t == "nak"@ {
        15
    } else {
        255
    }
}

fn message_type_raw(t: &str) -> (r: u8)
    ensures
        r == message_type_number(t@),
{
    if same_text(t, "request") {
        0
    } else if same_text(t, "response") {
        1
    } else if same_text(t, "publish") {
        2
    } else if same_text(t, "error") {
        3
    } else if same_text(t, "nak") {
        15
    } else {
        255
    }
}

/// The number of a message id; 255 for one without a name.
pub open spec fn message_id_number(t: Seq<char>) -> u8 {
    if t == "session_initiate"@ {
        0
    } else if t == "session_close"@ {
        1
    } else if t == "keep_alive"@ {
        2
    } else if t == "pass_through"@ {
        3
    } else {
        255
    }
}

fn message_id_raw(t: &str) -> (r: u8)
    ensures
        r == message_id_number(t@),
{
    if same_text(t, "session_initiate") {
        0
    } else if same_text(t, "session_close") {
        1
    } else if same_text(t, "keep_alive") {
        2
    } else if same_text(t, "pass_through") {
        3
    } else {
        255
    }
}

/// The typed fields of a frame.
pub open spec fn typed(f: HartIpFields) -> HartIpFieldsView {
    let pass = match f.body {
        HartIpBody::PassThrough(p) => Some(p),
        _ => None,
    };
    HartIpFieldsView {
        message_type: message_type_number(f.message_type@),
        message_type_name: f.message_type@,
        message_id: message_id_number(f.message_id@),
        message_id_name: f.message_id@,
        status_byte: f.status,
        sequence_number: f.transaction_id,
        payload_length: f.message_length,
        passthrough_command: match pass {
            Some(p) => Some(p.command),
            None => None,
        },
        passthrough_command_name: match pass {
            Some(p) => Some(command_of(p.command)),
            None => None,
        },
        device_status: match pass {
            Some(p) => p.device_status,
            None => None,
        },
        field_device_address: match pass {
            Some(p) => match p.long_address {
                Some(a) => Some(a@),
                None => None,
            },
            None => None,
        },
        direction: status_of(f.message_type@),
    }
}

/// The typed fields of a frame.
pub fn hart_ip_bronze_fields(fields: &HartIpFields) -> (r: HartIpBronzeFields)
    ensures
        r@ == typed(*fields),
{
    let mut passthrough_command: Option<u8> = None;
    let mut passthrough_command_name: Option<String> = None;
    let mut device_status: Option<u8> = None;
    let mut field_device_address: Option<Vec<u8>> = None;
    if let HartIpBody::PassThrough(pass) = &fields.body {
        passthrough_command = Some(pass.command);
        passthrough_command_name = Some(hart_passthrough_command_name(pass.command).to_owned());
        device_status = pass.device_status;
        if let Some(address) = &pass.long_address {
            field_device_address = Some(copy_bytes(address));
        }
    }
    HartIpBronzeFields {
        message_type: message_type_raw(fields.message_type.as_str()),
        message_type_name: fields.message_type.as_str().to_owned(),
        message_id: message_id_raw(fields.message_id.as_str()),
        message_id_name: fields.message_id.as_str().to_owned(),
        status_byte: fields.status,
        sequence_number: fields.transaction_id,
        payload_length: fields.message_length,
        passthrough_command,
        passthrough_command_name,
        device_status,
        field_device_address,
        direction: hart_ip_status(fields).to_owned(),
    }
}

// ---------------------------------------------------------------------------
// Events
// ---------------------------------------------------------------------------

/// The envelope of a chunk.
pub open spec fn env(c: ChunkView, transport: TransportProtocol) -> EnvelopeView {
    events::chunk_env(c, transport, "hart_ip"@)
}

fn envelope(chunk: &StreamChunk<'_>, transport: TransportProtocol) -> (r: EventEnvelope)
    ensures
        r@ == env(chunk@, transport),
{
    chunk_envelope(chunk, transport, "hart_ip")
}

/// The identity that a frame carries.
pub open spec fn identity_of(f: HartIpFields) -> Option<HartDeviceIdentity> {
    match f.body {
        HartIpBody::PassThrough(p) => p.identity,
        _ => None,
    }
}

/// The attributes of a frame's header.
pub open spec fn header_attrs(f: HartIpFields) -> Map<Seq<char>, Seq<char>> {
    Map::empty().insert("version"@, text::dec(f.version as nat)).insert(
        "message_type"@,
        f.message_type@,
    ).insert("message_id"@, f.message_id@).insert("status"@, text::hex0x(f.status as nat, 2)).insert(
        "transaction_id"@,
        text::dec(f.transaction_id as nat),
    ).insert("message_length"@, text::dec(f.message_length as nat))
}

/// The attributes of a frame.
pub open spec fn attrs_of(f: HartIpFields) -> Map<Seq<char>, Seq<char>> {
    let m = header_attrs(f);
    match f.body {
        HartIpBody::SessionInitiate { master_type, inactivity_close_timer } => m.insert(
            "master_type"@,
            master_type@,
        ).insert("inactivity_close_timer"@, text::dec(inactivity_close_timer as nat)),
        HartIpBody::Error { error_code } => collections::insert_opt(
            m,
            "error_code"@,
            text::opt_hex0x(error_code, 2),
        ),
        HartIpBody::PassThrough(p) => m.insert("frame_type"@, p.frame_type@).insert(
            "physical_layer_type"@,
            p.physical_layer_type@,
        ).insert("address_type"@, p.address_type@).insert(
            "command"@,
            text::dec(p.command as nat),
        ).insert("payload_length"@, text::dec(p.payload@.len())),
        _ => m,
    }
}

fn frame_attrs(f: &HartIpFields) -> (r: Attributes)
    ensures
        r@ == attrs_of(*f),
{
    let mut m = Attributes::new();
    m.put_dec("version", f.version);
    m.put("message_type", f.message_type.as_str());
    m.put("message_id", f.message_id.as_str());
    m.put_hex("status", f.status, 2);
    m.put_dec("transaction_id", f.transaction_id);
    m.put_dec("message_length", f.message_length);
    match &f.body {
        HartIpBody::SessionInitiate { master_type, inactivity_close_timer } => {
            m.put("master_type", master_type.as_str());
            m.put_dec("inactivity_close_timer", *inactivity_close_timer);
        },
        HartIpBody::Error { error_code } => {
            m.put_some_hex("error_code", *error_code, 2);
        },
        HartIpBody::PassThrough(pass) => {
            m.put("frame_type", pass.frame_type.as_str());
            m.put("physical_layer_type", pass.physical_layer_type.as_str());
            m.put("address_type", pass.address_type.as_str());
            m.put_dec("command", pass.command);
            m.put_dec("payload_length", pass.payload.len());
        },
        _ => {},
    }
    m
}

/// The object references of a frame: the command that it carries through, then manufacturer
/// and type of the device.
pub open spec fn refs_of(f: HartIpFields) -> Seq<Seq<char>> {
    match f.body {
        HartIpBody::PassThrough(p) => {
            let refs = seq!["hart_command:"@ + text::dec(p.command as nat)];
            match p.identity {
                Some(id) => {
                    let refs = match id.manufacturer_id {
                        Some(n) => refs.push("hart_manufacturer:"@ + text::dec(n as nat)),
                        None => refs,
                    };
                    match id.device_type {
                        Some(n) => refs.push("hart_device_type:"@ + text::dec(n as nat)),
                        None => refs,
                    }
                },
                None => refs,
            }
        },
        _ => Seq::empty(),
    }
}

fn frame_refs(f: &HartIpFields) -> (r: Vec<String>)
    ensures
        text::texts(r@) == refs_of(*f),
{
    match &f.body {
        HartIpBody::PassThrough(pass) => {
            let mut refs = one_text(cat("hart_command:", dec_text(pass.command).as_str()));
            if let Some(id) = &pass.identity {
                if let Some(n) = id.manufacturer_id {
                    push_text(&mut refs, cat("hart_manufacturer:", dec_text(n).as_str()));
                }
                if let Some(n) = id.device_type {
                    push_text(&mut refs, cat("hart_device_type:", dec_text(n).as_str()));
                }
            }
            refs
        },
        _ => no_texts(),
    }
}

/// The summary of a frame's body.
pub open spec fn summary_of(f: HartIpFields) -> Seq<char> {
    match f.body {
        HartIpBody::SessionInitiate { master_type, .. } => "session_initiate "@ + master_type@,
        HartIpBody::SessionClose => "session_close"@,
        HartIpBody::KeepAlive => "keep_alive"@,
        HartIpBody::Error { .. } => "error"@,
        HartIpBody::PassThrough(p) => p.frame_type@ + " "@ + command_of(p.command),
        HartIpBody::Raw(body) => "raw "@ + text::dec(body@.len()) + " bytes"@,
    }
}

fn body_summary(f: &HartIpFields) -> (r: String)
    ensures
        r@ == summary_of(*f),
{
    match &f.body {
        HartIpBody::SessionInitiate { master_type, .. } => cat(
            "session_initiate ",
            master_type.as_str(),
        ),
        HartIpBody::SessionClose => "session_close".to_owned(),
        HartIpBody::KeepAlive => "keep_alive".to_owned(),
        HartIpBody::Error { .. } => "error".to_owned(),
        HartIpBody::PassThrough(pass) => cat(
            cat(pass.frame_type.as_str(), " ").as_str(),
            hart_passthrough_command_name(pass.command),
        ),
        HartIpBody::Raw(body) => cat(
            cat("raw ", dec_text(body.len()).as_str()).as_str(),
            " bytes",
        ),
    }
}

/// The transaction of a frame.
pub open spec fn frame_seen(c: ChunkView, transport: TransportProtocol, f: HartIpFields) -> EventView {
    events::tx_view(
        c.capture_id,
        env(c, transport),
        TransactionView {
            object_refs: refs_of(f),
            protocol_fields: Some(ProtocolFieldsView::HartIp(typed(f))),
            ..events::plain_tx(
                operation_of(f),
                status_of(f.message_type@),
                Some(summary_of(f)),
                attrs_of(f),
            )
        },
    )
}

/// The identifiers of a field device.
pub open spec fn device_ids(key: Seq<char>, id: HartDeviceIdentity) -> Map<Seq<char>, Seq<char>> {
    let m = Map::empty().insert("ip"@, key);
    let m = collections::insert_opt(
        m,
        "hart_manufacturer_id"@,
        text::opt_dec(id.manufacturer_id),
    );
    let m = collections::insert_opt(m, "hart_device_type"@, text::opt_dec(id.device_type));
    let m = collections::insert_opt(m, "hart_tag"@, text::opt_view(id.tag));
    let m = collections::insert_opt(
        m,
        "hart_universal_revision"@,
        text::opt_dec(id.hart_universal_revision),
    );
    let m = collections::insert_opt(
        m,
        "hart_device_revision"@,
        text::opt_dec(id.device_revision),
    );
    let m = collections::insert_opt(
        m,
        "hart_software_revision"@,
        text::opt_dec(id.software_revision),
    );
    let m = collections::insert_opt(
        m,
        "hart_hardware_revision"@,
        text::opt_dec(id.hardware_revision),
    );
    let m = collections::insert_opt(
        m,
        "hart_configuration_change_counter"@,
        text::opt_dec(id.configuration_change_counter),
    );
    let m = collections::insert_opt(
        m,
        "hart_extended_device_status"@,
        text::opt_dec(id.extended_device_status),
    );
    collections::insert_opt(
        m,
        "hart_device_id"@,
        match id.device_id {
            Some(b) => Some(text::hex_bytes(b@)),
            None => None,
        },
    )
}

/// The field device behind a frame.
pub open spec fn device_seen(
    c: ChunkView,
    transport: TransportProtocol,
    key: Seq<char>,
    id: HartDeviceIdentity,
) -> EventView {
    events::asset_event_view(
        c.capture_id,
        env(c, transport),
        AssetView {
            asset_key: key,
            role: Some("field_device"@),
            vendor: None,
            model: match id.device_type {
                Some(n) => Some("device_type_"@ + text::dec(n as nat)),
                None => None,
            },
            firmware: text::opt_dec(id.software_revision),
            hostnames: match id.tag {
                Some(t) => seq![t@],
                None => Seq::empty(),
            },
            protocols: seq!["hart_ip"@],
            identifiers: device_ids(key, id),
        },
    )
}

fn device_event(
    chunk: &StreamChunk<'_>,
    transport: TransportProtocol,
    key: String,
    id: &HartDeviceIdentity,
) -> (r: BronzeEvent)
    ensures
        r@ == device_seen(chunk@, transport, key@, *id),
{
    let mut m = Attributes::new();
    m.put("ip", key.as_str());
    m.put_some_dec("hart_manufacturer_id", id.manufacturer_id);
    m.put_some_dec("hart_device_type", id.device_type);
    m.insert_some("hart_tag", opt_copy(&id.tag));
    m.put_some_dec("hart_universal_revision", id.hart_universal_revision);
    m.put_some_dec("hart_device_revision", id.device_revision);
    m.put_some_dec("hart_software_revision", id.software_revision);
    m.put_some_dec("hart_hardware_revision", id.hardware_revision);
    m.put_some_dec("hart_configuration_change_counter", id.configuration_change_counter);
    m.put_some_dec("hart_extended_device_status", id.extended_device_status);
    let device_id = match &id.device_id {
        Some(b) => Some(hex_encode(b.as_slice())),
        None => None,
    };
    m.insert_some("hart_device_id", device_id);
    let model = match id.device_type {
        Some(n) => Some(cat("device_type_", dec_text(n).as_str())),
        None => None,
    };
    let hostnames = match &id.tag {
        Some(t) => one_text(t.as_str().to_owned()),
        None => no_texts(),
    };
    asset_event(
        chunk.capture_id,
        envelope(chunk, transport),
        AssetObservation {
            asset_key: key,
            role: opt_owned(Some("field_device")),
            vendor: None,
            model,
            firmware: opt_dec_text(id.software_revision),
            hostnames,
            protocols: one_text("hart_ip".to_owned()),
            identifiers: m,
        },
    )
}

/// The host that opens a session.
pub open spec fn host_seen(c: ChunkView, transport: TransportProtocol) -> EventView {
    events::asset_event_view(
        c.capture_id,
        env(c, transport),
        events::asset_view(
            packet::asset_key(c.context.src_ip, c.context.src_mac),
            Some("host"@),
            None,
            None,
            None,
            "hart_ip"@,
            Map::empty().insert("ip"@, c.context.src_ip.text()),
        ),
    )
}

/// The two ends of a frame.
pub open spec fn ends_seen(c: ChunkView, transport: TransportProtocol, f: HartIpFields) -> EventView {
    events::topology_event_view(
        c.capture_id,
        env(c, transport),
        TopologyView {
            observation_type: "hart_ip_transaction"@,
            local_id: packet::asset_key(c.context.src_ip, c.context.src_mac),
            remote_id: Some(packet::asset_key(c.context.dst_ip, c.context.dst_mac)),
            description: Some(f.message_id@),
            capabilities: Seq::empty(),
            metadata: Map::empty().insert("message_type"@, f.message_type@),
        },
    )
}

/// The events of a frame: its transaction, the field device that it identifies, the host
/// where it opens a session, its two ends, and its payload.
pub open spec fn frame_events(c: ChunkView, transport: TransportProtocol, f: HartIpFields) -> Seq<
    EventView,
> {
    let t = Seq::<EventView>::empty().push(frame_seen(c, transport, f));
    let d = match identity_of(f) {
        Some(id) => t.push(device_seen(c, transport, device_key(c.context, f), id)),
        None => t,
    };
    let h = events::push_if(d, f.body is SessionInitiate, host_seen(c, transport));
    events::push_if(
        h.push(ends_seen(c, transport, f)),
        f.payload@.len() > 0,
        events::artifact_view(
            c.capture_id,
            env(c, transport),
            "hart_ip_payload"@,
            c.session_key + ":"@ + text::dec(f.transaction_id as nat),
            Some("application/octet-stream"@),
            Some("HART-IP message payload"@),
            f.payload@,
        ),
    )
}

/// The events of several frames in one chunk.
pub open spec fn frames_events(
    c: ChunkView,
    transport: TransportProtocol,
    frames: Seq<HartIpFields>,
) -> Seq<EventView>
    decreases frames.len(),
{
    if frames.len() == 0 {
        Seq::empty()
    } else {
        frames_events(c, transport, frames.drop_last()) + frame_events(c, transport, frames.last())
    }
}

/// The anomaly of a payload that could not be parsed.
pub open spec fn unparsed(c: ChunkView, transport: TransportProtocol) -> EventView {
    events::anomaly_view(
        c.capture_id,
        env(c, transport),
        "hart_ip"@,
        "medium"@,
        "failed to parse hart ip payload"@,
        c.payload,
    )
}

fn unparsed_event(chunk: &StreamChunk<'_>, transport: TransportProtocol) -> (r: BronzeEvent)
    ensures
        r@ == unparsed(chunk@, transport),
{
    parse_anomaly_event(
        chunk.capture_id,
        envelope(chunk, transport),
        "hart_ip",
        "medium",
        "failed to parse hart ip payload",
        chunk.payload,
    )
}

/// The events of a datagram.
pub open spec fn datagram_events(c: ChunkView, parsed: Dissection<HartIpFields>) -> Seq<EventView> {
    match parsed {
        Dissection::Foreign => Seq::empty(),
        Dissection::Malformed => Seq::<EventView>::empty().push(
            unparsed(c, TransportProtocol::Udp),
        ),
        Dissection::Parsed(f) => frame_events(c, TransportProtocol::Udp, f),
    }
}

/// The events of a chunk of a TCP stream.
pub open spec fn chunk_events(c: ChunkView, frames: Option<Vec<HartIpFields>>) -> Seq<EventView> {
    match frames {
        None => Seq::empty(),
        Some(v) => if v@.len() == 0 {
            Seq::<EventView>::empty().push(unparsed(c, TransportProtocol::Tcp))
        } else {
            frames_events(c, TransportProtocol::Tcp, v@)
        },
    }
}

/// The HART-IP decoder.
#[derive(Debug, Default)]
pub struct HartIpDecoderWrapper;

impl HartIpDecoderWrapper {
    /// The name of the decoder.
    pub fn name(&self) -> (r: &'static str)
        ensures
            r@ == "hart_ip"@,
    {
        "hart_ip"
    }

    /// The traffic that the decoder asks for.
    pub fn interest(&self) -> (r: &'static [DecoderInterest])
        ensures
            r@ == seq![DecoderInterest::TcpPort(5094), DecoderInterest::UdpPort(5094)],
    {
        &[DecoderInterest::TcpPort(5094), DecoderInterest::UdpPort(5094)]
    }

    /// Takes in a datagram and what was made of it.
    pub fn on_datagram(
        &mut self,
        chunk: &StreamChunk<'_>,
        parsed: Dissection<HartIpFields>,
        out: &mut Vec<BronzeEvent>,
    )
        ensures
            events::events(final(out)@) == events::events(old(out)@) + datagram_events(
                chunk@,
                parsed,
            ),
    {
        let mut ev = no_events();
        match parsed {
            Dissection::Foreign => {},
            Dissection::Malformed => {
                emit(&mut ev, unparsed_event(chunk, TransportProtocol::Udp));
            },
            Dissection::Parsed(fields) => {
                self.emit_frame(chunk, TransportProtocol::Udp, &fields, out);
                return;
            },
        }
        emit_all(out, ev);
    }

    /// Takes in a chunk of a TCP stream and the frames in it; none where the chunk is of
    /// another protocol.
    pub fn on_stream_chunk(
        &mut self,
        chunk: &StreamChunk<'_>,
        frames: Option<Vec<HartIpFields>>,
        out: &mut Vec<BronzeEvent>,
    )
        ensures
            events::events(final(out)@) == events::events(old(out)@) + chunk_events(
                chunk@,
                frames,
            ),
    {
        let mut ev = no_events();
        match frames {
            None => {},
            Some(v) => {
                if v.len() == 0 {
                    emit(&mut ev, unparsed_event(chunk, TransportProtocol::Tcp));
                } else {
                    let mut i: usize = 0;
                    while i < v.len()
                        invariant
                            i <= v.len(),
                            events::events(ev@) == frames_events(
                                chunk@,
                                TransportProtocol::Tcp,
                                v@.take(i as int),
                            ),
                        decreases v.len() - i,
                    {
                        proof {
                            assert(v@.take(i + 1).drop_last() =~= v@.take(i as int));
                            assert(v@.take(i + 1).last() == v@[i as int]);
                        }
                        self.emit_frame(chunk, TransportProtocol::Tcp, &v[i], &mut ev);
                        i = i + 1;
                    }
                    assert(v@.take(i as int) =~= v@);
                }
            },
        }
        emit_all(out, ev);
    }

    /// Adds the events of a frame.
    pub fn emit_frame(
        &self,
        chunk: &StreamChunk<'_>,
        transport: TransportProtocol,
        fields: &HartIpFields,
        out: &mut Vec<BronzeEvent>,
    )
        ensures
            events::events(final(out)@) == events::events(old(out)@) + frame_events(
                chunk@,
                transport,
                *fields,
            ),
    {
        let mut ev = no_events();
        emit(
            &mut ev,
            transaction_event(
                chunk.capture_id,
                envelope(chunk, transport),
                ProtocolTransaction {
                    operation: hart_ip_operation_name(fields),
                    status: hart_ip_status(fields).to_owned(),
                    request_summary: Some(body_summary(fields)),
                    response_summary: None,
                    object_refs: frame_refs(fields),
                    values: no_values(),
                    attributes: frame_attrs(fields),
                    modbus: None,
                    protocol_fields: Some(ProtocolFields::HartIp(hart_ip_bronze_fields(fields))),
                },
            ),
        );
        if let HartIpBody::PassThrough(pass) = &fields.body {
            if let Some(id) = &pass.identity {
                let key = hart_ip_device_asset_key(&chunk.context, fields);
                emit(&mut ev, device_event(chunk, transport, key, id));
            }
        }
        if let HartIpBody::SessionInitiate { .. } = &fields.body {
            let mut ids = Attributes::new();
            ids.insert("ip", chunk.context.src_ip.text());
            emit(
                &mut ev,
                asset_event(
                    chunk.capture_id,
                    envelope(chunk, transport),
                    asset_observation(
                        context_asset_key(&chunk.context),
                        Some("host"),
                        None,
                        None,
                        None,
                        "hart_ip",
                        ids,
                    ),
                ),
            );
        }
        let mut metadata = Attributes::new();
        metadata.put("message_type", fields.message_type.as_str());
        emit(
            &mut ev,
            topology_event(
                chunk.capture_id,
                envelope(chunk, transport),
                TopologyObservation {
                    observation_type: "hart_ip_transaction".to_owned(),
                    local_id: context_asset_key(&chunk.context),
                    remote_id: Some(context_remote_asset_key(&chunk.context)),
                    description: Some(fields.message_id.as_str().to_owned()),
                    capabilities: no_texts(),
                    metadata,
                },
            ),
        );
        if fields.payload.len() > 0 {
            let key = cat(
                cat(chunk.session_key.as_str(), ":").as_str(),
                dec_text(fields.transaction_id).as_str(),
            );
            emit(
                &mut ev,
                artifact_event(
                    chunk.capture_id,
                    envelope(chunk, transport),
                    "hart_ip_payload",
                    key.as_str(),
                    Some("application/octet-stream"),
                    Some("HART-IP message payload"),
                    fields.payload.as_slice(),
                ),
            );
        }
        emit_all(out, ev);
    }
}

// ---------------------------------------------------------------------------
// Laws
// ---------------------------------------------------------------------------

/// The direction in the typed fields of a frame is the status of its transaction.
pub proof fn direction_is_status(c: ChunkView, transport: TransportProtocol, f: HartIpFields)
    ensures
        ({
            let tx = frame_events(c, transport, f)[0].family->ProtocolTransaction_0;
            tx.protocol_fields->Some_0->HartIp_0.direction == tx.status
        }),
{
}

/// Every frame gives one transaction, and a device or a host at most: a device exactly for a
/// command carried through with an identity, a host exactly for the opening of a session.
pub proof fn one_transaction_for_a_frame(
    c: ChunkView,
    transport: TransportProtocol,
    f: HartIpFields,
)
    ensures
        events::tx_count(frame_events(c, transport, f)) == 1,
        events::asset_count(frame_events(c, transport, f)) == (if identity_of(f) is Some || f.body
            is SessionInitiate {
            1nat
        } else {
            0nat
        }),
{
    let ev = frame_events(c, transport, f);
    reveal_with_fuel(events::tx_count, 6);
    reveal_with_fuel(events::asset_count, 6);
    assert(ev.len() >= 1 ==> ev.drop_last().len() == ev.len() - 1);
    assert(ev.len() >= 2 ==> ev.drop_last().last() == ev[ev.len() - 2]);
    let e2 = ev.drop_last().drop_last();
    assert(ev.len() >= 2 ==> e2.len() == ev.len() - 2);
    assert(ev.len() >= 3 ==> e2.last() == ev[ev.len() - 3]);
    let e3 = e2.drop_last();
    assert(ev.len() >= 3 ==> e3.len() == ev.len() - 3);
    assert(ev.len() >= 4 ==> e3.last() == ev[ev.len() - 4]);
}

/// The transaction of a message gives its header, attribute by attribute and in the typed fields.
pub proof fn transaction_is_of_the_message(
    c: ChunkView,
    transport: TransportProtocol,
    f: HartIpFields,
)
    ensures
        ({
            let e = frame_events(c, transport, f)[0];
            let tx = e.family->ProtocolTransaction_0;
            let t = tx.protocol_fields->Some_0->HartIp_0;
            &&& e.family is ProtocolTransaction
            &&& e.capture_id == c.capture_id
            &&& tx.attributes["version"@] == text::dec(f.version as nat)
            &&& tx.attributes["message_type"@] == f.message_type@
            &&& tx.attributes["message_id"@] == f.message_id@
            &&& tx.attributes["status"@] == "0x"@ + text::hex(f.status as nat, 2)
            &&& tx.attributes["transaction_id"@] == text::dec(f.transaction_id as nat)
            &&& tx.attributes["message_length"@] == text::dec(f.message_length as nat)
            &&& t.message_type_name == f.message_type@
            &&& t.message_id_name == f.message_id@
            &&& t.status_byte == f.status
            &&& t.sequence_number == f.transaction_id
            &&& t.payload_length == f.message_length
            &&& t.direction == tx.status
            &&& f.message_type@ == "request"@ ==> t.message_type == 0
            &&& f.message_type@ == "response"@ ==> t.message_type == 1
            &&& f.message_type@ == "publish"@ ==> t.message_type == 2
            &&& f.message_type@ == "error"@ ==> t.message_type == 3
            &&& f.message_type@ == "nak"@ ==> t.message_type == 15
            &&& f.message_id@ == "session_initiate"@ ==> t.message_id == 0
            &&& f.message_id@ == "session_close"@ ==> t.message_id == 1
            &&& f.message_id@ == "keep_alive"@ ==> t.message_id == 2
            &&& f.message_id@ == "pass_through"@ ==> t.message_id == 3
            &&& f.message_type@ == "request"@ || f.message_type@ == "response"@ || f.message_type@
                == "publish"@ ==> tx.status == f.message_type@
            &&& f.message_type@ == "error"@ || f.message_type@ == "nak"@ ==> tx.status == "error"@
        }),
{
    reveal_strlit("request");
    reveal_strlit("response");
    reveal_strlit("publish");
    reveal_strlit("error");
    reveal_strlit("nak");
    reveal_strlit("session_initiate");
    reveal_strlit("session_close");
    reveal_strlit("keep_alive");
    reveal_strlit("pass_through");
    reveal_strlit("version");
    reveal_strlit("message_type");
    reveal_strlit("message_id");
    reveal_strlit("status");
    reveal_strlit("transaction_id");
    reveal_strlit("message_length");
    reveal_strlit("master_type");
    reveal_strlit("inactivity_close_timer");
    reveal_strlit("error_code");
    reveal_strlit("frame_type");
    reveal_strlit("physical_layer_type");
    reveal_strlit("address_type");
    reveal_strlit("command");
    reveal_strlit("payload_length");
    assert({
        &&& "request"@.len() == 7
        &&& "response"@.len() == 8
        &&& "publish"@.len() == 7
        &&& "error"@.len() == 5
        &&& "nak"@.len() == 3
        &&& "session_initiate"@.len() == 16
        &&& "session_close"@.len() == 13
        &&& "keep_alive"@.len() == 10
        &&& "pass_through"@.len() == 12
        &&& "version"@.len() == 7
        &&& "message_type"@.len() == 12
        &&& "message_id"@.len() == 10
        &&& "status"@.len() == 6
        &&& "transaction_id"@.len() == 14
        &&& "message_length"@.len() == 14
        &&& "master_type"@.len() == 11
        &&& "inactivity_close_timer"@.len() == 22
        &&& "error_code"@.len() == 10
        &&& "frame_type"@.len() == 10
        &&& "physical_layer_type"@.len() == 19
        &&& "address_type"@.len() == 12
        &&& "command"@.len() == 7
        &&& "payload_length"@.len() == 14
    });
    assert("request"@[0] != "publish"@[0]);
    assert("request"@[0] != "version"@[0]);
    assert("request"@[0] != "command"@[0]);
    assert("publish"@[0] != "version"@[0]);
    assert("publish"@[0] != "command"@[0]);
    assert("keep_alive"@[0] != "message_id"@[0]);
    assert("keep_alive"@[0] != "error_code"@[0]);
    assert("keep_alive"@[0] != "frame_type"@[0]);
    assert("pass_through"@[0] != "message_type"@[0]);
    assert("pass_through"@[0] != "address_type"@[0]);
    assert("version"@[0] != "command"@[0]);
    assert("message_type"@[0] != "address_type"@[0]);
    assert("message_id"@[0] != "error_code"@[0]);
    assert("message_id"@[0] != "frame_type"@[0]);
    assert("transaction_id"@[0] != "message_length"@[0]);
    assert("transaction_id"@[0] != "payload_length"@[0]);
    assert("message_length"@[0] != "payload_length"@[0]);
    assert("error_code"@[0] != "frame_type"@[0]);
}

/// A pass-through message names its command, by its number and by its name.
pub proof fn pass_through_command_is_named(
    c: ChunkView,
    transport: TransportProtocol,
    f: HartIpFields,
    p: HartPassThrough,
)
    requires
        f.body == HartIpBody::PassThrough(p),
    ensures
        ({
            let tx = frame_events(c, transport, f)[0].family->ProtocolTransaction_0;
            let t = tx.protocol_fields->Some_0->HartIp_0;
            let name = t.passthrough_command_name->Some_0;
            &&& t.passthrough_command == Some(p.command)
            &&& t.passthrough_command_name is Some
            &&& t.device_status == p.device_status
            &&& tx.object_refs[0] == "hart_command:"@ + text::dec(p.command as nat)
            &&& tx.request_summary == Some(p.frame_type@ + " "@ + name)
            &&& tx.attributes["command"@] == text::dec(p.command as nat)
            &&& tx.attributes["frame_type"@] == p.frame_type@
            &&& tx.attributes["physical_layer_type"@] == p.physical_layer_type@
            &&& tx.attributes["address_type"@] == p.address_type@
            &&& p.command == 0 ==> name == "read_unique_identifier"@
            &&& p.command == 11 ==> name == "read_device_identity"@
            &&& p.command == 20 ==> name == "read_long_tag"@
            &&& p.command == 21 ==> name == "read_tag_descriptor"@
            &&& p.command == 22 ==> name == "read_message"@
            &&& p.command != 0 && p.command != 11 && p.command != 20 && p.command != 21
                && p.command != 22 ==> name == "pass_through_command"@
        }),
{
    reveal_strlit("frame_type");
    reveal_strlit("physical_layer_type");
    reveal_strlit("address_type");
    reveal_strlit("command");
    reveal_strlit("payload_length");
    assert({
        &&& "frame_type"@.len() == 10
        &&& "physical_layer_type"@.len() == 19
        &&& "address_type"@.len() == 12
        &&& "command"@.len() == 7
        &&& "payload_length"@.len() == 14
    });
}

/// The device that a message identifies is the end that answers: the source of a response, and the
/// destination of anything else.
pub proof fn device_is_the_answering_end(
    c: ChunkView,
    transport: TransportProtocol,
    f: HartIpFields,
    id: HartDeviceIdentity,
)
    requires
        identity_of(f) == Some(id),
    ensures
        ({
            let e = frame_events(c, transport, f)[1];
            let a = e.family->AssetObservation_0;
            let ip = if f.message_type@ == "response"@ {
                c.context.src_ip
            } else {
                c.context.dst_ip
            };
            let mac = if f.message_type@ == "response"@ {
                c.context.src_mac
            } else {
                c.context.dst_mac
            };
            &&& e.family is AssetObservation
            &&& a.asset_key == packet::asset_key(ip, mac)
            &&& a.role == Some("field_device"@)
            &&& a.protocols == seq!["hart_ip"@]
            &&& a.firmware == text::opt_dec(id.software_revision)
            &&& a.identifiers["ip"@] == a.asset_key
            &&& match id.manufacturer_id {
                Some(v) => a.identifiers.contains_key("hart_manufacturer_id"@)
                    && a.identifiers["hart_manufacturer_id"@] == text::dec(v as nat),
                None => !a.identifiers.contains_key("hart_manufacturer_id"@),
            }
            &&& match id.device_type {
                Some(v) => a.identifiers.contains_key("hart_device_type"@)
                    && a.identifiers["hart_device_type"@] == text::dec(v as nat),
                None => !a.identifiers.contains_key("hart_device_type"@),
            }
            &&& match id.hart_universal_revision {
                Some(v) => a.identifiers.contains_key("hart_universal_revision"@)
                    && a.identifiers["hart_universal_revision"@] == text::dec(v as nat),
                None => !a.identifiers.contains_key("hart_universal_revision"@),
            }
            &&& match id.device_revision {
                Some(v) => a.identifiers.contains_key("hart_device_revision"@)
                    && a.identifiers["hart_device_revision"@] == text::dec(v as nat),
                None => !a.identifiers.contains_key("hart_device_revision"@),
            }
            &&& match id.software_revision {
                Some(v) => a.identifiers.contains_key("hart_software_revision"@)
                    && a.identifiers["hart_software_revision"@] == text::dec(v as nat),
                None => !a.identifiers.contains_key("hart_software_revision"@),
            }
            &&& match id.hardware_revision {
                Some(v) => a.identifiers.contains_key("hart_hardware_revision"@)
                    && a.identifiers["hart_hardware_revision"@] == text::dec(v as nat),
                None => !a.identifiers.contains_key("hart_hardware_revision"@),
            }
            &&& match id.configuration_change_counter {
                Some(v) => a.identifiers.contains_key("hart_configuration_change_counter"@)
                    && a.identifiers["hart_configuration_change_counter"@] == text::dec(v as nat),
                None => !a.identifiers.contains_key("hart_configuration_change_counter"@),
            }
            &&& match id.extended_device_status {
                Some(v) => a.identifiers.contains_key("hart_extended_device_status"@)
                    && a.identifiers["hart_extended_device_status"@] == text::dec(v as nat),
                None => !a.identifiers.contains_key("hart_extended_device_status"@),
            }
        }),
{
    reveal_strlit("request");
    reveal_strlit("response");
    reveal_strlit("publish");
    reveal_strlit("error");
    reveal_strlit("observed");
    reveal_strlit("ip");
    reveal_strlit("hart_manufacturer_id");
    reveal_strlit("hart_device_type");
    reveal_strlit("hart_tag");
    reveal_strlit("hart_universal_revision");
    reveal_strlit("hart_device_revision");
    reveal_strlit("hart_software_revision");
    reveal_strlit("hart_hardware_revision");
    reveal_strlit("hart_configuration_change_counter");
    reveal_strlit("hart_extended_device_status");
    reveal_strlit("hart_device_id");
    assert({
        &&& "request"@.len() == 7
        &&& "response"@.len() == 8
        &&& "publish"@.len() == 7
        &&& "error"@.len() == 5
        &&& "observed"@.len() == 8
        &&& "ip"@.len() == 2
        &&& "hart_manufacturer_id"@.len() == 20
        &&& "hart_device_type"@.len() == 16
        &&& "hart_tag"@.len() == 8
        &&& "hart_universal_revision"@.len() == 23
        &&& "hart_device_revision"@.len() == 20
        &&& "hart_software_revision"@.len() == 22
        &&& "hart_hardware_revision"@.len() == 22
        &&& "hart_configuration_change_counter"@.len() == 33
        &&& "hart_extended_device_status"@.len() == 27
        &&& "hart_device_id"@.len() == 14
    });
    assert("request"@[0] != "publish"@[0]);
    assert("response"@[0] != "observed"@[0]);
    assert("response"@[0] != "hart_tag"@[0]);
    assert("observed"@[0] != "hart_tag"@[0]);
    assert("hart_manufacturer_id"@[5] != "hart_device_revision"@[5]);
    assert("hart_software_revision"@[5] != "hart_hardware_revision"@[5]);
}

} // verus!
