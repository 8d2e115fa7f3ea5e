//! IEC 61850: MMS on TCP port 102, GOOSE (EtherType 0x88B8) and Sampled Values (0x88BA).
//!
//! Messages are taken apart elsewhere; this decoder turns them into transactions, the device
//! behind them, its peer, and the payload.

use vstd::prelude::*;

use crate::collections;
use crate::collections::Attributes;
use crate::events;
use crate::events::{
    artifact_event, asset_event, chunk_envelope, emit, emit_all, no_events, no_values,
    parse_anomaly_event, topology_event, transaction_event, AssetObservation, AssetView,
    BronzeEvent, Dissection, EnvelopeView, EventEnvelope, EventView, ProtocolFields,
    ProtocolFieldsView, ProtocolTransaction, TopologyObservation, TopologyView, TransactionView,
};
use crate::naming;
use crate::naming::normalize_operation_name;
use crate::packet;
use crate::packet::{
    context_asset_key, context_remote_asset_key, ChunkView, DecoderInterest, StreamChunk,
    TransportProtocol,
};
use crate::text;
use crate::text::{
    cat, contains_text, copy_texts, dec_text, no_texts, one_text, opt_copy, opt_owned,
};

verus! {

pub const IEC61850_MMS_PORT: u16 = 102;

pub const IEC61850_GOOSE_ETHERTYPE: u16 = 0x88B8;

pub const IEC61850_SV_ETHERTYPE: u16 = 0x88BA;

/// The three message kinds.
#[derive(Debug, Clone, Copy, PartialEq, Eq, Structural)]
pub enum Iec61850Profile {
    MmsIsoOnTcp,
    Goose,
    SampledValues,
}

/// A parsed message.
#[derive(Debug, Clone)]
pub struct Iec61850Fields {
    pub profile: Iec61850Profile,
    pub transport: String,
    pub message_type: String,
    pub tpkt_length: Option<u16>,
    pub cotp_pdu_type: Option<String>,
    pub app_id: Option<u16>,
    pub called_tsap: Option<String>,
    pub calling_tsap: Option<String>,
    pub service: Option<String>,
    pub ied_name: Option<String>,
    pub logical_device: Option<String>,
    pub logical_node: Option<String>,
    pub dataset: Option<String>,
    pub visible_strings: Vec<String>,
    pub object_references: Vec<String>,
    pub mms_invoke_id: Option<u32>,
    pub goose_st_num: Option<u32>,
    pub goose_sq_num: Option<u32>,
    pub goose_test: bool,
    pub sv_smp_cnt: Option<u16>,
    pub sv_smp_synch: Option<u8>,
    pub payload: Vec<u8>,
}

/// The typed fields of a message.
#[derive(Debug, Clone)]
pub struct Iec61850BronzeFields {
    pub sub_protocol: String,
    pub mms_service: Option<String>,
    pub mms_invoke_id: Option<u32>,
    pub mms_visible_string: Option<String>,
    pub goose_appid: Option<u16>,
    pub goose_dataset_ref: Option<String>,
    pub goose_state_number: Option<u32>,
    pub goose_sequence_number: Option<u32>,
    pub goose_test: bool,
    pub sv_appid: Option<u16>,
    pub sv_smp_cnt: Option<u16>,
    pub sv_smp_synch: Option<u8>,
    pub direction: String,
}

/// IEC 61850 fields as contracts speak of them.
pub struct Iec61850FieldsView {
    pub sub_protocol: Seq<char>,
    pub mms_service: Option<Seq<char>>,
    pub mms_invoke_id: Option<u32>,
    pub mms_visible_string: Option<Seq<char>>,
    pub goose_appid: Option<u16>,
    pub goose_dataset_ref: Option<Seq<char>>,
    pub goose_state_number: Option<u32>,
    pub goose_sequence_number: Option<u32>,
    pub goose_test: bool,
    pub sv_appid: Option<u16>,
    pub sv_smp_cnt: Option<u16>,
    pub sv_smp_synch: Option<u8>,
    pub direction: Seq<char>,
}

impl View for Iec61850BronzeFields {
    type V = Iec61850FieldsView;

    open spec fn view(&self) -> Iec61850FieldsView {
        Iec61850FieldsView {
            sub_protocol: self.sub_protocol@,
            mms_service: text::opt_view(self.mms_service),
            mms_invoke_id: self.mms_invoke_id,
            mms_visible_string: text::opt_view(self.mms_visible_string),
            goose_appid: self.goose_appid,
            goose_dataset_ref: text::opt_view(self.goose_dataset_ref),
            goose_state_number: self.goose_state_number,
            goose_sequence_number: self.goose_sequence_number,
            goose_test: self.goose_test,
            sv_appid: self.sv_appid,
            sv_smp_cnt: self.sv_smp_cnt,
            sv_smp_synch: self.sv_smp_synch,
            direction: self.direction@,
        }
    }
}

// ---------------------------------------------------------------------------
// Labels
// ---------------------------------------------------------------------------

/// The name of a message kind.
pub open spec fn profile_of(profile: Iec61850Profile) -> Seq<char> {
    match profile {
        Iec61850Profile::MmsIsoOnTcp => "mms"@,
        Iec61850Profile::Goose => "goose"@,
        Iec61850Profile::SampledValues => "sampled_values"@,
    }
}

/// The name of a message kind.
pub fn iec61850_profile_name(profile: Iec61850Profile) -> (r: &'static str)
    ensures
        r@ == profile_of(profile),
{
    match profile {
        Iec61850Profile::MmsIsoOnTcp => "mms",
        Iec61850Profile::Goose => "goose",
        Iec61850Profile::SampledValues => "sampled_values",
    }
}

/// The service of a message, or its type where it has none.
pub open spec fn label_of(f: Iec61850Fields) -> Seq<char> {
    match f.service {
        Some(s) => s@,
        None => f.message_type@,
    }
}

fn label(f: &Iec61850Fields) -> (r: &str)
    ensures
        r@ == label_of(*f),
{
    match &f.service {
        Some(s) => s.as_str(),
        None => f.message_type.as_str(),
    }
}

/// The operation of a message.
pub fn iec61850_operation_name(fields: &Iec61850Fields) -> (r: String)
    ensures
        r@ == naming::normalized(label_of(*fields), "iec61850"@),
{
    normalize_operation_name(label(fields), "iec61850")
}

/// The status of a message: what is published is `publish`; of MMS, the name of the service
/// tells.
pub open spec fn status_of(f: Iec61850Fields) -> Seq<char> {
    match f.profile {
        Iec61850Profile::MmsIsoOnTcp => match f.service {
            Some(s) => if text::occurs(s@, "response"@) {
                "response"@
            } else if text::occurs(s@, "request"@) {
                "request"@
            } else {
                "observed"@
            },
            None => "observed"@,
        },
        _ => "publish"@,
    }
}

/// The status of a message.
pub fn iec61850_status(fields: &Iec61850Fields) -> (r: &'static str)
    ensures
        r@ == status_of(*fields),
{
    match fields.profile {
        Iec61850Profile::MmsIsoOnTcp => match &fields.service {
            Some(s) => if contains_text(s.as_str(), "response") {
                "response"
            } else if contains_text(s.as_str(), "request") {
                "request"
            } else {
                "observed"
            },
            None => "observed",
        },
        _ => "publish",
    }
}

/// The summary of a message: its label, then the device and the data set, as far as it names
/// them.
pub open spec fn summary_of(f: Iec61850Fields) -> Seq<char> {
    let s = label_of(f);
    let s = match f.ied_name {
        Some(n) => s + (" "@ + n@),
        None => s,
    };
    match f.dataset {
        Some(d) => s + (" dataset="@ + d@),
        None => s,
    }
}

/// The summary of a message.
pub fn iec61850_summary(fields: &Iec61850Fields) -> (r: String)
    ensures
        r@ == summary_of(*fields),
{
    let mut s = label(fields).to_owned();
    if let Some(n) = &fields.ied_name {
        s = cat(s.as_str(), cat(" ", n.as_str()).as_str());
    }
    if let Some(d) = &fields.dataset {
        s = cat(s.as_str(), cat(" dataset=", d.as_str()).as_str());
    }
    s
}

/// The first text of a list.
pub open spec fn first(v: Seq<String>) -> Option<Seq<char>> {
    if v.len() > 0 {
        Some(v[0]@)
    } else {
        None
    }
}

fn first_text(v: &Vec<String>) -> (r: Option<String>)
    ensures
        text::opt_view(r) == first(v@),
{
    if v.len() > 0 {
        Some(v[0].as_str().to_owned())
    } else {
        None
    }
}

/// The typed fields of a message. Those of another message kind stay empty. The data set of a
/// GOOSE message is its first object reference where it names none.
pub open spec fn typed(f: Iec61850Fields) -> Iec61850FieldsView {
    let bare = Iec61850FieldsView {
        sub_protocol: profile_of(f.profile),
        mms_service: None,
        mms_invoke_id: None,
        mms_visible_string: None,
        goose_appid: None,
        goose_dataset_ref: None,
        goose_state_number: None,
        goose_sequence_number: None,
        goose_test: false,
        sv_appid: None,
        sv_smp_cnt: None,
        sv_smp_synch: None,
        direction: status_of(f),
    };
    match f.profile {
        Iec61850Profile::MmsIsoOnTcp => Iec61850FieldsView {
            mms_service: text::opt_view(f.service),
            mms_invoke_id: f.mms_invoke_id,
            mms_visible_string: first(f.visible_strings@),
            ..bare
        },
        Iec61850Profile::Goose => Iec61850FieldsView {
            goose_appid: f.app_id,
            goose_dataset_ref: match f.dataset {
                Some(d) => Some(d@),
                None => first(f.object_references@),
            },
            goose_state_number: f.goose_st_num,
            goose_sequence_number: f.goose_sq_num,
            goose_test: f.goose_test,
            ..bare
        },
        Iec61850Profile::SampledValues => Iec61850FieldsView {
            sv_appid: f.app_id,
            sv_smp_cnt: f.sv_smp_cnt,
            sv_smp_synch: f.sv_smp_synch,
            ..bare
        },
    }
}

/// The typed fields of a message.
pub fn iec61850_bronze_fields(fields: &Iec61850Fields) -> (r: Iec61850BronzeFields)
    ensures
        r@ == typed(*fields),
{
    let mut r = Iec61850BronzeFields {
        sub_protocol: iec61850_profile_name(fields.profile).to_owned(),
        mms_service: None,
        mms_invoke_id: None,
        mms_visible_string: None,
        goose_appid: None,
        goose_dataset_ref: None,
        goose_state_number: None,
        goose_sequence_number: None,
        goose_test: false,
        sv_appid: None,
        sv_smp_cnt: None,
        sv_smp_synch: None,
        direction: iec61850_status(fields).to_owned(),
    };
    match fields.profile {
        Iec61850Profile::MmsIsoOnTcp => {
            r.mms_service = opt_copy(&fields.service);
            r.mms_invoke_id = fields.mms_invoke_id;
            r.mms_visible_string = first_text(&fields.visible_strings);
        },
        Iec61850Profile::Goose => {
            r.goose_appid = fields.app_id;
            r.goose_dataset_ref = match &fields.dataset {
                Some(d) => Some(d.as_str().to_owned()),
                None => first_text(&fields.object_references),
            };
            r.goose_state_number = fields.goose_st_num;
            r.goose_sequence_number = fields.goose_sq_num;
            r.goose_test = fields.goose_test;
        },
        Iec61850Profile::SampledValues => {
            r.sv_appid = fields.app_id;
            r.sv_smp_cnt = fields.sv_smp_cnt;
            r.sv_smp_synch = fields.sv_smp_synch;
        },
    }
    r
}

// ---------------------------------------------------------------------------
// Events
// ---------------------------------------------------------------------------

/// The envelope of a chunk.
pub open spec fn env(c: ChunkView, transport: TransportProtocol) -> EnvelopeView {
    events::chunk_env(c, transport, "iec61850"@)
}

fn envelope(chunk: &StreamChunk<'_>, transport: TransportProtocol) -> (r: EventEnvelope)
    ensures
        r@ == env(chunk@, transport),
{
    chunk_envelope(chunk, transport, "iec61850")
}

/// The attributes of a message.
pub open spec fn attrs_of(f: Iec61850Fields) -> Map<Seq<char>, Seq<char>> {
    let m = Map::empty().insert("profile"@, profile_of(f.profile)).insert(
        "transport"@,
        f.transport@,
    ).insert("message_type"@, f.message_type@);
    let m = collections::insert_opt(m, "tpkt_length"@, text::opt_dec(f.tpkt_length));
    let m = collections::insert_opt(m, "cotp_pdu_type"@, text::opt_view(f.cotp_pdu_type));
    let m = collections::insert_opt(m, "app_id"@, text::opt_hex0x(f.app_id, 4));
    let m = collections::insert_opt(m, "called_tsap"@, text::opt_view(f.called_tsap));
    let m = collections::insert_opt(m, "calling_tsap"@, text::opt_view(f.calling_tsap));
    let m = collections::insert_opt(m, "service"@, text::opt_view(f.service));
    let m = collections::insert_opt(m, "ied_name"@, text::opt_view(f.ied_name));
    let m = collections::insert_opt(m, "logical_device"@, text::opt_view(f.logical_device));
    let m = collections::insert_opt(m, "logical_node"@, text::opt_view(f.logical_node));
    let m = collections::insert_opt(m, "dataset"@, text::opt_view(f.dataset));
    m.insert("visible_string_count"@, text::dec(f.visible_strings@.len()))
}

fn message_attrs(f: &Iec61850Fields) -> (r: Attributes)
    ensures
        r@ == attrs_of(*f),
{
    let mut m = Attributes::new();
    m.put("profile", iec61850_profile_name(f.profile));
    m.put("transport", f.transport.as_str());
    m.put("message_type", f.message_type.as_str());
    m.put_some_dec("tpkt_length", f.tpkt_length);
    m.insert_some("cotp_pdu_type", opt_copy(&f.cotp_pdu_type));
    m.put_some_hex("app_id", f.app_id, 4);
    m.insert_some("called_tsap", opt_copy(&f.called_tsap));
    m.insert_some("calling_tsap", opt_copy(&f.calling_tsap));
    m.insert_some("service", opt_copy(&f.service));
    m.insert_some("ied_name", opt_copy(&f.ied_name));
    m.insert_some("logical_device", opt_copy(&f.logical_device));
    m.insert_some("logical_node", opt_copy(&f.logical_node));
    m.insert_some("dataset", opt_copy(&f.dataset));
    m.put_dec("visible_string_count", f.visible_strings.len());
    m
}

/// The transaction of a message.
pub open spec fn message_seen(
    c: ChunkView,
    transport: TransportProtocol,
    f: Iec61850Fields,
) -> EventView {
    events::tx_view(
        c.capture_id,
        env(c, transport),
        TransactionView {
            object_refs: text::texts(f.object_references@),
            protocol_fields: Some(ProtocolFieldsView::Iec61850(typed(f))),
            ..events::plain_tx(
                naming::normalized(label_of(f), "iec61850"@),
                status_of(f),
                Some(summary_of(f)),
                attrs_of(f),
            )
        },
    )
}

/// Whether a message says something of the device that sent it.
pub open spec fn names_device(f: Iec61850Fields) -> bool {
    f.ied_name is Some || f.logical_device is Some || f.dataset is Some
}

/// The device that sent a message.
pub open spec fn device_seen(
    c: ChunkView,
    transport: TransportProtocol,
    f: Iec61850Fields,
) -> EventView {
    let key = packet::asset_key(c.context.src_ip, c.context.src_mac);
    let m = Map::empty().insert("endpoint"@, key);
    let m = collections::insert_opt(m, "ied_name"@, text::opt_view(f.ied_name));
    let m = collections::insert_opt(m, "logical_device"@, text::opt_view(f.logical_device));
    let m = collections::insert_opt(m, "logical_node"@, text::opt_view(f.logical_node));
    let m = collections::insert_opt(m, "dataset"@, text::opt_view(f.dataset));
    events::asset_event_view(
        c.capture_id,
        env(c, transport),
        AssetView {
            asset_key: key,
            role: Some("ied"@),
            vendor: None,
            model: None,
            firmware: None,
            hostnames: match f.ied_name {
                Some(n) => seq![n@],
                None => Seq::empty(),
            },
            protocols: seq!["iec61850"@],
            identifiers: collections::insert_opt(m, "app_id"@, text::opt_dec(f.app_id)),
        },
    )
}

fn device_event(
    chunk: &StreamChunk<'_>,
    transport: TransportProtocol,
    f: &Iec61850Fields,
) -> (r: BronzeEvent)
    ensures
        r@ == device_seen(chunk@, transport, *f),
{
    let key = context_asset_key(&chunk.context);
    let mut m = Attributes::new();
    m.put("endpoint", key.as_str());
    m.insert_some("ied_name", opt_copy(&f.ied_name));
    m.insert_some("logical_device", opt_copy(&f.logical_device));
    m.insert_some("logical_node", opt_copy(&f.logical_node));
    m.insert_some("dataset", opt_copy(&f.dataset));
    m.put_some_dec("app_id", f.app_id);
    let hostnames = match &f.ied_name {
        Some(n) => one_text(n.as_str().to_owned()),
        None => no_texts(),
    };
    asset_event(
        chunk.capture_id,
        envelope(chunk, transport),
        AssetObservation {
            asset_key: key,
            role: opt_owned(Some("ied")),
            vendor: None,
            model: None,
            firmware: None,
            hostnames,
            protocols: one_text("iec61850".to_owned()),
            identifiers: m,
        },
    )
}

/// The two ends of a message.
pub open spec fn ends_seen(
    c: ChunkView,
    transport: TransportProtocol,
    f: Iec61850Fields,
) -> EventView {
    events::topology_event_view(
        c.capture_id,
        env(c, transport),
        TopologyView {
            observation_type: "iec61850_transaction"@,
            local_id: packet::asset_key(c.context.src_ip, c.context.src_mac),
            remote_id: Some(packet::asset_key(c.context.dst_ip, c.context.dst_mac)),
            description: Some(label_of(f)),
            capabilities: Seq::empty(),
            metadata: Map::empty().insert("profile"@, profile_of(f.profile)),
        },
    )
}

/// The events of a message: its transaction, the device where it names one, its two ends, and
/// its payload.
pub open spec fn message_events(
    c: ChunkView,
    transport: TransportProtocol,
    f: Iec61850Fields,
) -> Seq<EventView> {
    let t = Seq::<EventView>::empty().push(message_seen(c, transport, f));
    let d = events::push_if(t, names_device(f), device_seen(c, transport, f));
    events::push_if(
        d.push(ends_seen(c, transport, f)),
        f.payload@.len() > 0,
        events::artifact_view(
            c.capture_id,
            env(c, transport),
            "iec61850_payload"@,
            c.session_key + ":"@ + text::dec(c.frame_index as nat),
            Some("application/octet-stream"@),
            Some("IEC 61850 payload"@),
            f.payload@,
        ),
    )
}

/// The events of a payload: those of its message, an anomaly where it looks like one but is
/// not, and nothing where it is of another protocol.
pub open spec fn payload_events(
    c: ChunkView,
    transport: TransportProtocol,
    reason: Seq<char>,
    parsed: Dissection<Iec61850Fields>,
) -> Seq<EventView> {
    match parsed {
        Dissection::Foreign => Seq::empty(),
        Dissection::Malformed => Seq::<EventView>::empty().push(
            events::anomaly_view(
                c.capture_id,
                env(c, transport),
                "iec61850"@,
                "medium"@,
                reason,
                c.payload,
            ),
        ),
        Dissection::Parsed(f) => message_events(c, transport, f),
    }
}

/// The events of an Ethernet frame.
pub open spec fn datagram_events(c: ChunkView, parsed: Dissection<Iec61850Fields>) -> Seq<
    EventView,
> {
    payload_events(
        c,
        TransportProtocol::Ethernet,
        "failed to parse iec61850 ethernet payload"@,
        parsed,
    )
}

/// The events of a chunk of a TCP stream.
pub open spec fn chunk_events(c: ChunkView, parsed: Dissection<Iec61850Fields>) -> Seq<EventView> {
    payload_events(c, TransportProtocol::Tcp, "failed to parse iec61850 tcp payload"@, parsed)
}

/// The IEC 61850 decoder.
#[derive(Debug, Default)]
pub struct Iec61850DecoderWrapper;

impl Iec61850DecoderWrapper {
    /// The name of the decoder.
    pub fn name(&self) -> (r: &'static str)
        ensures
            r@ == "iec61850"@,
    {
        "iec61850"
    }

    /// The traffic that the decoder asks for.
    pub fn interest(&self) -> (r: &'static [DecoderInterest])
        ensures
            r@ == seq![
                DecoderInterest::TcpPort(102),
                DecoderInterest::EtherType(0x88B8),
                DecoderInterest::EtherType(0x88BA),
            ],
    {
        &[
            DecoderInterest::TcpPort(IEC61850_MMS_PORT),
            DecoderInterest::EtherType(IEC61850_GOOSE_ETHERTYPE),
            DecoderInterest::EtherType(IEC61850_SV_ETHERTYPE),
        ]
    }

    /// Takes in an Ethernet frame and what was made of it.
    pub fn on_datagram(
        &mut self,
        chunk: &StreamChunk<'_>,
        parsed: Dissection<Iec61850Fields>,
        out: &mut Vec<BronzeEvent>,
    )
        ensures
            events::events(final(out)@) == events::events(old(out)@) + datagram_events(
                chunk@,
                parsed,
            ),
    {
        self.on_payload(
            chunk,
            TransportProtocol::Ethernet,
            "failed to parse iec61850 ethernet payload",
            parsed,
            out,
        );
    }

    /// Takes in a chunk of a TCP stream and what was made of it.
    pub fn on_stream_chunk(
        &mut self,
        chunk: &StreamChunk<'_>,
        parsed: Dissection<Iec61850Fields>,
        out: &mut Vec<BronzeEvent>,
    )
        ensures
            events::events(final(out)@) == events::events(old(out)@) + chunk_events(
                chunk@,
                parsed,
            ),
    {
        self.on_payload(
            chunk,
            TransportProtocol::Tcp,
            "failed to parse iec61850 tcp payload",
            parsed,
            out,
        );
    }

    fn on_payload(
        &mut self,
        chunk: &StreamChunk<'_>,
        transport: TransportProtocol,
        reason: &str,
        parsed: Dissection<Iec61850Fields>,
        out: &mut Vec<BronzeEvent>,
    )
        ensures
            events::events(final(out)@) == events::events(old(out)@) + payload_events(
                chunk@,
                transport,
                reason@,
                parsed,
            ),
    {
        let mut ev = no_events();
        match parsed {
            Dissection::Foreign => {},
            Dissection::Malformed => {
                emit(
                    &mut ev,
                    parse_anomaly_event(
                        chunk.capture_id,
                        envelope(chunk, transport),
                        "iec61850",
                        "medium",
                        reason,
                        chunk.payload,
                    ),
                );
            },
            Dissection::Parsed(fields) => {
                self.emit_fields(chunk, transport, &fields, out);
                return;
            },
        }
        emit_all(out, ev);
    }

    /// Adds the events of a message.
    pub fn emit_fields(
        &self,
        chunk: &StreamChunk<'_>,
        transport: TransportProtocol,
        fields: &Iec61850Fields,
        out: &mut Vec<BronzeEvent>,
    )
        ensures
            events::events(final(out)@) == events::events(old(out)@) + message_events(
                chunk@,
                transport,
                *fields,
            ),
    {
        let mut ev = no_events();
        emit(
            &mut ev,
            transaction_event(
                chunk.capture_id,
                envelope(chunk, transport),
                ProtocolTransaction {
                    operation: iec61850_operation_name(fields),
                    status: iec61850_status(fields).to_owned(),
                    request_summary: Some(iec61850_summary(fields)),
                    response_summary: None,
                    object_refs: copy_texts(&fields.object_references),
                    values: no_values(),
                    attributes: message_attrs(fields),
                    modbus: None,
                    protocol_fields: Some(ProtocolFields::Iec61850(iec61850_bronze_fields(fields))),
                },
            ),
        );
        if fields.ied_name.is_some() || fields.logical_device.is_some() || fields.dataset.is_some() {
            emit(&mut ev, device_event(chunk, transport, fields));
        }
        let mut metadata = Attributes::new();
        metadata.put("profile", iec61850_profile_name(fields.profile));
        emit(
            &mut ev,
            topology_event(
                chunk.capture_id,
                envelope(chunk, transport),
                TopologyObservation {
                    observation_type: "iec61850_transaction".to_owned(),
                    local_id: context_asset_key(&chunk.context),
                    remote_id: Some(context_remote_asset_key(&chunk.context)),
                    description: Some(label(fields).to_owned()),
                    capabilities: no_texts(),
                    metadata,
                },
            ),
        );
        if fields.payload.len() > 0 {
            let key = cat(
                cat(chunk.session_key.as_str(), ":").as_str(),
                dec_text(chunk.frame_index).as_str(),
            );
            emit(
                &mut ev,
                artifact_event(
                    chunk.capture_id,
                    envelope(chunk, transport),
                    "iec61850_payload",
                    key.as_str(),
                    Some("application/octet-stream"),
                    Some("IEC 61850 payload"),
                    fields.payload.as_slice(),
                ),
            );
        }
        emit_all(out, ev);
    }
}

// ---------------------------------------------------------------------------
// Laws
// ---------------------------------------------------------------------------

/// The direction in the typed fields of a message is the status of its transaction, and
/// GOOSE and Sampled Values are always published.
pub proof fn direction_is_status(c: ChunkView, transport: TransportProtocol, f: Iec61850Fields)
    ensures
        ({
            let tx = message_events(c, transport, f)[0].family->ProtocolTransaction_0;
            &&& tx.protocol_fields->Some_0->Iec61850_0.direction == tx.status
            &&& f.profile != Iec61850Profile::MmsIsoOnTcp ==> tx.status == "publish"@
        }),
{
}

/// The typed fields of a message kind are empty in a message of another.
pub proof fn typed_fields_are_of_one_kind(f: Iec61850Fields)
    ensures
        f.profile != Iec61850Profile::MmsIsoOnTcp ==> typed(f).mms_service is None && typed(
            f,
        ).mms_invoke_id is None && typed(f).mms_visible_string is None,
        f.profile != Iec61850Profile::Goose ==> typed(f).goose_appid is None && typed(
            f,
        ).goose_dataset_ref is None && typed(f).goose_state_number is None && typed(
            f,
        ).goose_sequence_number is None && !typed(f).goose_test,
        f.profile != Iec61850Profile::SampledValues ==> typed(f).sv_appid is None && typed(
            f,
        ).sv_smp_cnt is None && typed(f).sv_smp_synch is None,
{
}

/// A payload gives one transaction where a message was parsed, one anomaly where it only looked
/// like one, and nothing where it is of another protocol.
pub proof fn a_transaction_or_an_anomaly(
    c: ChunkView,
    transport: TransportProtocol,
    reason: Seq<char>,
    parsed: Dissection<Iec61850Fields>,
)
    ensures
        ({
            let e = payload_events(c, transport, reason, parsed);
            &&& events::tx_count(e) == (if parsed is Parsed {
                1nat
            } else {
                0nat
            })
            &&& events::anomaly_count(e) == (if parsed is Malformed {
                1nat
            } else {
                0nat
            })
            &&& parsed is Foreign ==> e.len() == 0
        }),
{
    let none = Seq::<EventView>::empty();
    let e = payload_events(c, transport, reason, parsed);
    match parsed {
        Dissection::Foreign => {},
        Dissection::Malformed => {
            events::counts_push_if(none, true, e[0]);
        },
        Dissection::Parsed(f) => {
            let t = none.push(message_seen(c, transport, f));
            let d = events::push_if(t, names_device(f), device_seen(c, transport, f));
            events::counts_push_if(none, true, message_seen(c, transport, f));
            events::counts_push_if(t, names_device(f), device_seen(c, transport, f));
            events::counts_push_if(d, true, ends_seen(c, transport, f));
            events::counts_push_if(
                d.push(ends_seen(c, transport, f)),
                f.payload@.len() > 0,
                e.last(),
            );
        },
    }
}

/// The typed fields are those of the profile, under their own names: state and sequence number of
/// a GOOSE message, the sample count of sampled values, and the invoke id of MMS.
pub proof fn typed_fields_are_of_the_profile(
    c: ChunkView,
    transport: TransportProtocol,
    f: Iec61850Fields,
)
    ensures
        ({
            let tx = message_seen(c, transport, f).family->ProtocolTransaction_0;
            let t = tx.protocol_fields->Some_0->Iec61850_0;
            &&& f.profile is Goose ==> t.sub_protocol == "goose"@ && t.goose_appid == f.app_id
                && t.goose_state_number == f.goose_st_num && t.goose_sequence_number
                == f.goose_sq_num && t.goose_test == f.goose_test && tx.status == "publish"@
            &&& f.profile is SampledValues ==> t.sub_protocol == "sampled_values"@ && t.sv_appid
                == f.app_id && t.sv_smp_cnt == f.sv_smp_cnt && t.sv_smp_synch == f.sv_smp_synch
                && tx.status == "publish"@
            &&& f.profile is MmsIsoOnTcp ==> t.sub_protocol == "mms"@ && t.mms_invoke_id
                == f.mms_invoke_id && t.mms_service == text::opt_view(f.service)
            &&& f.profile is Goose && f.dataset is Some ==> t.goose_dataset_ref == Some(
                f.dataset->Some_0@,
            )
        }),
{
}

/// The attributes of a message give its names, each under its own.
pub proof fn attributes_are_of_the_message(
    c: ChunkView,
    transport: TransportProtocol,
    f: Iec61850Fields,
)
    ensures
        ({
            let m = message_seen(c, transport, f).family->ProtocolTransaction_0.attributes;
            &&& m["visible_string_count"@] == text::dec(f.visible_strings@.len())
            &&& f.dataset is Some ==> m["dataset"@] == f.dataset->Some_0@
            &&& f.logical_node is Some ==> m["logical_node"@] == f.logical_node->Some_0@
            &&& f.logical_device is Some ==> m["logical_device"@] == f.logical_device->Some_0@
            &&& f.ied_name is Some ==> m["ied_name"@] == f.ied_name->Some_0@
            &&& f.service is Some ==> m["service"@] == f.service->Some_0@
            &&& f.calling_tsap is Some ==> m["calling_tsap"@] == f.calling_tsap->Some_0@
            &&& f.called_tsap is Some ==> m["called_tsap"@] == f.called_tsap->Some_0@
        }),
{
    reveal_strlit("visible_string_count");
    reveal_strlit("dataset");
    reveal_strlit("logical_node");
    reveal_strlit("logical_device");
    reveal_strlit("ied_name");
    reveal_strlit("service");
    reveal_strlit("calling_tsap");
    reveal_strlit("called_tsap");
    assert({
        &&& "visible_string_count"@.len() == 20
        &&& "dataset"@.len() == 7
        &&& "logical_node"@.len() == 12
        &&& "logical_device"@.len() == 14
        &&& "ied_name"@.len() == 8
        &&& "service"@.len() == 7
        &&& "calling_tsap"@.len() == 12
        &&& "called_tsap"@.len() == 11
    });
    assert("dataset"@[0] != "service"@[0]);
    assert("logical_node"@[0] != "calling_tsap"@[0]);
}

/// The device that a message names is the end that it comes from.
pub proof fn device_is_the_source(c: ChunkView, transport: TransportProtocol, f: Iec61850Fields)
    ensures
        ({
            let a = device_seen(c, transport, f).family->AssetObservation_0;
            let key = packet::asset_key(c.context.src_ip, c.context.src_mac);
            &&& a.asset_key == key
            &&& a.role == Some("ied"@)
            &&& a.identifiers["endpoint"@] == key
            &&& f.ied_name is Some ==> a.hostnames == seq![f.ied_name->Some_0@]
                && a.identifiers["ied_name"@] == f.ied_name->Some_0@
            &&& f.logical_device is Some ==> a.identifiers["logical_device"@]
                == f.logical_device->Some_0@
            &&& f.logical_node is Some ==> a.identifiers["logical_node"@] == f.logical_node->Some_0@
            &&& f.dataset is Some ==> a.identifiers["dataset"@] == f.dataset->Some_0@
        }),
{
    reveal_strlit("endpoint");
    reveal_strlit("ied_name");
    reveal_strlit("logical_device");
    reveal_strlit("logical_node");
    reveal_strlit("dataset");
    reveal_strlit("app_id");
    assert({
        &&& "endpoint"@.len() == 8
        &&& "ied_name"@.len() == 8
        &&& "logical_device"@.len() == 14
        &&& "logical_node"@.len() == 12
        &&& "dataset"@.len() == 7
        &&& "app_id"@.len() == 6
    });
    assert("endpoint"@[0] != "ied_name"@[0]);
}

} // verus!
