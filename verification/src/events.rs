//! The events that decoders emit.

use vstd::prelude::*;

use crate::bytes::copy_bytes;
use crate::collections::Attributes;
use crate::packet::{ChunkView, ContextView, PacketContext, StreamChunk, Timestamp, TransportProtocol};
use crate::text;
use crate::text::{no_texts, opt_copy, opt_owned};

verus! {

// ---------------------------------------------------------------------------
// Envelope
// ---------------------------------------------------------------------------

/// Where, when and how the traffic behind an event was seen.
#[derive(Debug, Clone)]
pub struct EventEnvelope {
    pub src_mac: [u8; 6],
    pub dst_mac: [u8; 6],
    pub src_ip: Option<String>,
    pub dst_ip: Option<String>,
    pub src_port: u16,
    pub dst_port: u16,
    pub vlan_id: Option<u16>,
    pub interface_id: u32,
    pub frame_index: u64,
    pub timestamp: Timestamp,
    pub segment_hash: String,
    pub transport: TransportProtocol,
    pub protocol: Option<String>,
    pub bytes_count: u64,
    pub packet_count: u64,
    pub session_key: String,
}

/// An envelope as contracts speak of it.
pub struct EnvelopeView {
    pub src_mac: Seq<u8>,
    pub dst_mac: Seq<u8>,
    pub src_ip: Option<Seq<char>>,
    pub dst_ip: Option<Seq<char>>,
    pub src_port: u16,
    pub dst_port: u16,
    pub vlan_id: Option<u16>,
    pub interface_id: u32,
    pub frame_index: u64,
    pub timestamp: Timestamp,
    pub segment_hash: Seq<char>,
    pub transport: TransportProtocol,
    pub protocol: Option<Seq<char>>,
    pub bytes_count: u64,
    pub packet_count: u64,
    pub session_key: Seq<char>,
}

impl View for EventEnvelope {
    type V = EnvelopeView;

    open spec fn view(&self) -> EnvelopeView {
        EnvelopeView {
            src_mac: self.src_mac@,
            dst_mac: self.dst_mac@,
            src_ip: text::opt_view(self.src_ip),
            dst_ip: text::opt_view(self.dst_ip),
            src_port: self.src_port,
            dst_port: self.dst_port,
            vlan_id: self.vlan_id,
            interface_id: self.interface_id,
            frame_index: self.frame_index,
            timestamp: self.timestamp,
            segment_hash: self.segment_hash@,
            transport: self.transport,
            protocol: text::opt_view(self.protocol),
            bytes_count: self.bytes_count,
            packet_count: self.packet_count,
            session_key: self.session_key@,
        }
    }
}

impl EnvelopeView {
    /// This envelope with the traffic of one more packet of `bytes` bytes counted in.
    pub open spec fn merged(self, bytes: u64) -> EnvelopeView {
        EnvelopeView {
            bytes_count: self.bytes_count.wrapping_add(bytes),
            packet_count: self.packet_count.wrapping_add(1),
            ..self
        }
    }
}

impl EventEnvelope {
    /// A copy of the envelope.
    pub fn copy(&self) -> (r: Self)
        ensures
            r@ == self@,
    {
        EventEnvelope {
            src_mac: self.src_mac,
            dst_mac: self.dst_mac,
            src_ip: opt_copy(&self.src_ip),
            dst_ip: opt_copy(&self.dst_ip),
            src_port: self.src_port,
            dst_port: self.dst_port,
            vlan_id: self.vlan_id,
            interface_id: self.interface_id,
            frame_index: self.frame_index,
            timestamp: self.timestamp,
            segment_hash: self.segment_hash.as_str().to_owned(),
            transport: self.transport,
            protocol: opt_copy(&self.protocol),
            bytes_count: self.bytes_count,
            packet_count: self.packet_count,
            session_key: self.session_key.as_str().to_owned(),
        }
    }

    /// A copy of this envelope with the traffic of one more packet counted in.
    pub fn merge(&self, bytes: u64) -> (r: Self)
        ensures
            r@ == self@.merged(bytes),
    {
        let mut r = self.copy();
        r.bytes_count = r.bytes_count.wrapping_add(bytes);
        r.packet_count = r.packet_count.wrapping_add(1);
        r
    }
}

/// The text of an address, unless it is the unspecified one.
pub open spec fn known_address(ip: crate::packet::AddressView) -> Option<Seq<char>> {
    if ip.unspecified() {
        None
    } else {
        Some(ip.text())
    }
}

fn known_address_text(ip: &crate::packet::IpAddress) -> (r: Option<String>)
    ensures
        text::opt_view(r) == known_address(ip@),
{
    if ip.is_unspecified() {
        None
    } else {
        Some(ip.text())
    }
}

/// The envelope of traffic with the given context.
pub open spec fn envelope_view(
    context: ContextView,
    interface_id: u32,
    frame_index: u64,
    timestamp: Timestamp,
    segment_hash: Seq<char>,
    transport: TransportProtocol,
    protocol: Option<Seq<char>>,
    captured_len: u64,
    session_key: Seq<char>,
) -> EnvelopeView {
    EnvelopeView {
        src_mac: context.src_mac,
        dst_mac: context.dst_mac,
        src_ip: known_address(context.src_ip),
        dst_ip: known_address(context.dst_ip),
        src_port: context.src_port,
        dst_port: context.dst_port,
        vlan_id: context.vlan_id,
        interface_id,
        frame_index,
        timestamp,
        segment_hash,
        transport,
        protocol,
        bytes_count: captured_len,
        packet_count: 1,
        session_key,
    }
}

/// The envelope of traffic with the given context: one packet of `captured_len` bytes.
pub fn build_envelope(
    context: &PacketContext,
    interface_id: u32,
    frame_index: u64,
    timestamp: Timestamp,
    segment_hash: &str,
    transport: TransportProtocol,
    protocol: Option<&str>,
    captured_len: u64,
    session_key: String,
) -> (r: EventEnvelope)
    ensures
        r@ == envelope_view(
            context@,
            interface_id,
            frame_index,
            timestamp,
            segment_hash@,
            transport,
            text::opt_str(protocol),
            captured_len,
            session_key@,
        ),
{
    EventEnvelope {
        src_mac: context.src_mac,
        dst_mac: context.dst_mac,
        src_ip: known_address_text(&context.src_ip),
        dst_ip: known_address_text(&context.dst_ip),
        src_port: context.src_port,
        dst_port: context.dst_port,
        vlan_id: context.vlan_id,
        interface_id,
        frame_index,
        timestamp,
        segment_hash: segment_hash.to_owned(),
        transport,
        protocol: opt_owned(protocol),
        bytes_count: captured_len,
        packet_count: 1,
        session_key,
    }
}

/// The envelope of a chunk that carries `protocol` over `transport`.
pub open spec fn chunk_env(
    c: ChunkView,
    transport: TransportProtocol,
    protocol: Seq<char>,
) -> EnvelopeView {
    envelope_view(
        c.context,
        c.interface_id,
        c.frame_index,
        c.timestamp,
        c.segment_hash,
        transport,
        Some(protocol),
        c.captured_len,
        c.session_key,
    )
}

/// The envelope of a chunk that carries `protocol` over `transport`.
pub fn chunk_envelope(chunk: &StreamChunk<'_>, transport: TransportProtocol, protocol: &str) -> (r:
    EventEnvelope)
    ensures
        r@ == chunk_env(chunk@, transport, protocol@),
{
    build_envelope(
        &chunk.context,
        chunk.interface_id,
        chunk.frame_index,
        chunk.timestamp,
        chunk.segment_hash,
        transport,
        Some(protocol),
        chunk.captured_len,
        chunk.session_key.as_str().to_owned(),
    )
}

// ---------------------------------------------------------------------------
// Transactions
// ---------------------------------------------------------------------------

/// A value that a transaction carried for an object.
#[derive(Debug, Clone)]
pub struct ObjectValue {
    pub object_ref: String,
    pub value: Option<String>,
}

/// An object value as contracts speak of it.
pub struct ObjectValueView {
    pub object_ref: Seq<char>,
    pub value: Option<Seq<char>>,
}

impl View for ObjectValue {
    type V = ObjectValueView;

    open spec fn view(&self) -> ObjectValueView {
        ObjectValueView { object_ref: self.object_ref@, value: text::opt_view(self.value) }
    }
}

/// The views of a list of object values.
pub open spec fn object_values(v: Seq<ObjectValue>) -> Seq<ObjectValueView> {
    Seq::new(v.len(), |i: int| v[i]@)
}

/// The typed fields of a Modbus exchange.
#[derive(Debug, Clone)]
pub struct ModbusBronzeFields {
    pub fc: u8,
    pub start_addr: Option<u16>,
    pub qty: Option<u16>,
    pub values: Vec<u16>,
    pub exception_code: Option<u8>,
    pub direction: String,
}

/// Modbus fields as contracts speak of them.
pub struct ModbusFieldsView {
    pub fc: u8,
    pub start_addr: Option<u16>,
    pub qty: Option<u16>,
    pub values: Seq<u16>,
    pub exception_code: Option<u8>,
    pub direction: Seq<char>,
}

impl View for ModbusBronzeFields {
    type V = ModbusFieldsView;

    open spec fn view(&self) -> ModbusFieldsView {
        ModbusFieldsView {
            fc: self.fc,
            start_addr: self.start_addr,
            qty: self.qty,
            values: self.values@,
            exception_code: self.exception_code,
            direction: self.direction@,
        }
    }
}

/// The typed fields of a transaction, by protocol.
#[derive(Debug, Clone)]
pub enum ProtocolFields {
    Bacnet(crate::bacnet::BacnetBronzeFields),
    Dnp3(crate::dnp3::Dnp3BronzeFields),
    EthernetIp(crate::ethernet_ip::EthernetIpBronzeFields),
    GeSrtp(crate::ge_srtp::GeSrtpBronzeFields),
    HartIp(crate::hart_ip::HartIpBronzeFields),
    Iec104(crate::iec104::Iec104BronzeFields),
    Iec61850(crate::iec61850::Iec61850BronzeFields),
    Melsec(crate::melsec::MelsecBronzeFields),
    OpcUa(crate::opc_ua::OpcUaBronzeFields),
}

/// Typed fields as contracts speak of them.
pub enum ProtocolFieldsView {
    Bacnet(crate::bacnet::BacnetFieldsView),
    Dnp3(crate::dnp3::Dnp3FieldsView),
    EthernetIp(crate::ethernet_ip::EthernetIpFieldsView),
    GeSrtp(crate::ge_srtp::GeSrtpFieldsView),
    HartIp(crate::hart_ip::HartIpFieldsView),
    Iec104(crate::iec104::Iec104FieldsView),
    Iec61850(crate::iec61850::Iec61850FieldsView),
    Melsec(crate::melsec::MelsecFieldsView),
    OpcUa(crate::opc_ua::OpcUaFieldsView),
}

impl View for ProtocolFields {
    type V = ProtocolFieldsView;

    open spec fn view(&self) -> ProtocolFieldsView {
        match self {
            ProtocolFields::Bacnet(f) => ProtocolFieldsView::Bacnet(f@),
            ProtocolFields::Dnp3(f) => ProtocolFieldsView::Dnp3(f@),
            ProtocolFields::EthernetIp(f) => ProtocolFieldsView::EthernetIp(f@),
            ProtocolFields::GeSrtp(f) => ProtocolFieldsView::GeSrtp(f@),
            ProtocolFields::HartIp(f) => ProtocolFieldsView::HartIp(f@),
            ProtocolFields::Iec104(f) => ProtocolFieldsView::Iec104(f@),
            ProtocolFields::Iec61850(f) => ProtocolFieldsView::Iec61850(f@),
            ProtocolFields::Melsec(f) => ProtocolFieldsView::Melsec(f@),
            ProtocolFields::OpcUa(f) => ProtocolFieldsView::OpcUa(f@),
        }
    }
}

/// A request, a response, or both, of a protocol.
#[derive(Debug, Clone)]
pub struct ProtocolTransaction {
    pub operation: String,
    pub status: String,
    pub request_summary: Option<String>,
    pub response_summary: Option<String>,
    pub object_refs: Vec<String>,
    pub values: Vec<ObjectValue>,
    pub attributes: Attributes,
    pub modbus: Option<ModbusBronzeFields>,
    pub protocol_fields: Option<ProtocolFields>,
}

/// A transaction as contracts speak of it.
pub struct TransactionView {
    pub operation: Seq<char>,
    pub status: Seq<char>,
    pub request_summary: Option<Seq<char>>,
    pub response_summary: Option<Seq<char>>,
    pub object_refs: Seq<Seq<char>>,
    pub values: Seq<ObjectValueView>,
    pub attributes: Map<Seq<char>, Seq<char>>,
    pub modbus: Option<ModbusFieldsView>,
    pub protocol_fields: Option<ProtocolFieldsView>,
}

impl View for ProtocolTransaction {
    type V = TransactionView;

    open spec fn view(&self) -> TransactionView {
        TransactionView {
            operation: self.operation@,
            status: self.status@,
            request_summary: text::opt_view(self.request_summary),
            response_summary: text::opt_view(self.response_summary),
            object_refs: text::texts(self.object_refs@),
            values: object_values(self.values@),
            attributes: self.attributes@,
            modbus: crate::collections::opt_v(self.modbus),
            protocol_fields: crate::collections::opt_v(self.protocol_fields),
        }
    }
}

/// A transaction without objects, values or typed fields.
pub open spec fn plain_tx(
    operation: Seq<char>,
    status: Seq<char>,
    request_summary: Option<Seq<char>>,
    attributes: Map<Seq<char>, Seq<char>>,
) -> TransactionView {
    TransactionView {
        operation,
        status,
        request_summary,
        response_summary: None,
        object_refs: Seq::empty(),
        values: Seq::empty(),
        attributes,
        modbus: None,
        protocol_fields: None,
    }
}

/// The empty list of object values.
pub fn no_values() -> (r: Vec<ObjectValue>)
    ensures
        object_values(r@) == Seq::<ObjectValueView>::empty(),
{
    let v: Vec<ObjectValue> = Vec::new();
    assert(object_values(v@) =~= Seq::<ObjectValueView>::empty());
    v
}

/// A transaction without objects, values or typed fields.
pub fn plain_transaction(
    operation: String,
    status: &str,
    request_summary: Option<String>,
    attributes: Attributes,
) -> (r: ProtocolTransaction)
    ensures
        r@ == plain_tx(
            operation@,
            status@,
            text::opt_view(request_summary),
            attributes@,
        ),
{
    ProtocolTransaction {
        operation,
        status: status.to_owned(),
        request_summary,
        response_summary: None,
        object_refs: no_texts(),
        values: no_values(),
        attributes,
        modbus: None,
        protocol_fields: None,
    }
}

// ---------------------------------------------------------------------------
// Observations
// ---------------------------------------------------------------------------

/// A device that was seen, and what is known of it.
#[derive(Debug, Clone)]
pub struct AssetObservation {
    pub asset_key: String,
    pub role: Option<String>,
    pub vendor: Option<String>,
    pub model: Option<String>,
    pub firmware: Option<String>,
    pub hostnames: Vec<String>,
    pub protocols: Vec<String>,
    pub identifiers: Attributes,
}

/// An asset observation as contracts speak of it.
pub struct AssetView {
    pub asset_key: Seq<char>,
    pub role: Option<Seq<char>>,
    pub vendor: Option<Seq<char>>,
    pub model: Option<Seq<char>>,
    pub firmware: Option<Seq<char>>,
    pub hostnames: Seq<Seq<char>>,
    pub protocols: Seq<Seq<char>>,
    pub identifiers: Map<Seq<char>, Seq<char>>,
}

impl View for AssetObservation {
    type V = AssetView;

    open spec fn view(&self) -> AssetView {
        AssetView {
            asset_key: self.asset_key@,
            role: text::opt_view(self.role),
            vendor: text::opt_view(self.vendor),
            model: text::opt_view(self.model),
            firmware: text::opt_view(self.firmware),
            hostnames: text::texts(self.hostnames@),
            protocols: text::texts(self.protocols@),
            identifiers: self.identifiers@,
        }
    }
}

/// An asset seen through one protocol, without host names.
pub open spec fn asset_view(
    asset_key: Seq<char>,
    role: Option<Seq<char>>,
    vendor: Option<Seq<char>>,
    model: Option<Seq<char>>,
    firmware: Option<Seq<char>>,
    protocol: Seq<char>,
    identifiers: Map<Seq<char>, Seq<char>>,
) -> AssetView {
    AssetView {
        asset_key,
        role,
        vendor,
        model,
        firmware,
        hostnames: Seq::empty(),
        protocols: seq![protocol],
        identifiers,
    }
}

/// An asset seen through one protocol, without host names.
pub fn asset_observation(
    asset_key: String,
    role: Option<&str>,
    vendor: Option<&str>,
    model: Option<String>,
    firmware: Option<String>,
    protocol: &str,
    identifiers: Attributes,
) -> (r: AssetObservation)
    ensures
        r@ == asset_view(
            asset_key@,
            text::opt_str(role),
            text::opt_str(vendor),
            text::opt_view(model),
            text::opt_view(firmware),
            protocol@,
            identifiers@,
        ),
{
    AssetObservation {
        asset_key,
        role: opt_owned(role),
        vendor: opt_owned(vendor),
        model,
        firmware,
        hostnames: no_texts(),
        protocols: text::one_text(protocol.to_owned()),
        identifiers,
    }
}

/// A relation between two ends that was seen.
#[derive(Debug, Clone)]
pub struct TopologyObservation {
    pub observation_type: String,
    pub local_id: String,
    pub remote_id: Option<String>,
    pub description: Option<String>,
    pub capabilities: Vec<String>,
    pub metadata: Attributes,
}

/// A topology observation as contracts speak of it.
pub struct TopologyView {
    pub observation_type: Seq<char>,
    pub local_id: Seq<char>,
    pub remote_id: Option<Seq<char>>,
    pub description: Option<Seq<char>>,
    pub capabilities: Seq<Seq<char>>,
    pub metadata: Map<Seq<char>, Seq<char>>,
}

impl View for TopologyObservation {
    type V = TopologyView;

    open spec fn view(&self) -> TopologyView {
        TopologyView {
            observation_type: self.observation_type@,
            local_id: self.local_id@,
            remote_id: text::opt_view(self.remote_id),
            description: text::opt_view(self.description),
            capabilities: text::texts(self.capabilities@),
            metadata: self.metadata@,
        }
    }
}

// ---------------------------------------------------------------------------
// Anomalies and artifacts
// ---------------------------------------------------------------------------

/// Traffic that does not keep to its protocol.
#[derive(Debug, Clone)]
pub struct ParseAnomaly {
    pub decoder: String,
    pub severity: String,
    pub reason: String,
    pub raw: Vec<u8>,
}

/// An anomaly as contracts speak of it.
pub struct AnomalyView {
    pub decoder: Seq<char>,
    pub severity: Seq<char>,
    pub reason: Seq<char>,
    pub raw: Seq<u8>,
}

impl View for ParseAnomaly {
    type V = AnomalyView;

    open spec fn view(&self) -> AnomalyView {
        AnomalyView {
            decoder: self.decoder@,
            severity: self.severity@,
            reason: self.reason@,
            raw: self.raw@,
        }
    }
}

/// Bytes that were taken out of the traffic.
#[derive(Debug, Clone)]
pub struct ExtractedArtifact {
    pub artifact_type: String,
    pub artifact_key: String,
    pub mime_type: Option<String>,
    pub description: Option<String>,
    pub content: Vec<u8>,
}

/// An artifact as contracts speak of it.
pub struct ArtifactView {
    pub artifact_type: Seq<char>,
    pub artifact_key: Seq<char>,
    pub mime_type: Option<Seq<char>>,
    pub description: Option<Seq<char>>,
    pub content: Seq<u8>,
}

impl View for ExtractedArtifact {
    type V = ArtifactView;

    open spec fn view(&self) -> ArtifactView {
        ArtifactView {
            artifact_type: self.artifact_type@,
            artifact_key: self.artifact_key@,
            mime_type: text::opt_view(self.mime_type),
            description: text::opt_view(self.description),
            content: self.content@,
        }
    }
}

// ---------------------------------------------------------------------------
// Process readings
// ---------------------------------------------------------------------------

/// The kind of a Modbus register.
#[derive(Debug, Clone, Copy, PartialEq, Eq, Structural)]
pub enum ModbusRegKind {
    HoldingRegister,
    InputRegister,
}

/// The identifier part of an OPC UA node id.
#[derive(Debug, Clone, Copy, PartialEq, Eq, Structural)]
pub enum OpcUaNodeId {
    Numeric(u32),
}

/// The point that a reading belongs to.
#[derive(Debug, Clone, Copy, PartialEq, Eq, Structural)]
pub enum PointIdentifier {
    ModbusRegister { unit_id: u8, addr: u16, register_type: ModbusRegKind },
    OpcUaNode { namespace_index: u16, identifier: OpcUaNodeId },
}

/// The value of a reading. Floating-point numbers are held as their IEEE 754 bits.
#[derive(Debug, Clone)]
pub enum PointValue {
    Null,
    Bool(bool),
    Int8(i8),
    UInt8(u8),
    Int16(i16),
    UInt16(u16),
    Int32(i32),
    UInt32(u32),
    Int64(i64),
    UInt64(u64),
    Float(u32),
    Double(u64),
    Text(String),
    Timestamp(u64),
}

/// A reading's value as contracts speak of it.
pub enum PointValueView {
    Null,
    Bool(bool),
    Int8(i8),
    UInt8(u8),
    Int16(i16),
    UInt16(u16),
    Int32(i32),
    UInt32(u32),
    Int64(i64),
    UInt64(u64),
    Float(u32),
    Double(u64),
    Text(Seq<char>),
    Timestamp(u64),
}

impl View for PointValue {
    type V = PointValueView;

    open spec fn view(&self) -> PointValueView {
        match self {
            PointValue::Null => PointValueView::Null,
            PointValue::Bool(v) => PointValueView::Bool(*v),
            PointValue::Int8(v) => PointValueView::Int8(*v),
            PointValue::UInt8(v) => PointValueView::UInt8(*v),
            PointValue::Int16(v) => PointValueView::Int16(*v),
            PointValue::UInt16(v) => PointValueView::UInt16(*v),
            PointValue::Int32(v) => PointValueView::Int32(*v),
            PointValue::UInt32(v) => PointValueView::UInt32(*v),
            PointValue::Int64(v) => PointValueView::Int64(*v),
            PointValue::UInt64(v) => PointValueView::UInt64(*v),
            PointValue::Float(v) => PointValueView::Float(*v),
            PointValue::Double(v) => PointValueView::Double(*v),
            PointValue::Text(v) => PointValueView::Text(v@),
            PointValue::Timestamp(v) => PointValueView::Timestamp(*v),
        }
    }
}

/// What the source says of the quality of a reading.
#[derive(Debug, Clone, Copy, PartialEq, Eq, Structural)]
pub enum RawQuality {
    Unstated,
    OpcUaStatusCode(u32),
}

/// A value that a point of the process had. Times count microseconds.
#[derive(Debug, Clone)]
pub struct ProcessReading {
    pub source_protocol: String,
    pub point_id: PointIdentifier,
    pub value: PointValue,
    pub quality: RawQuality,
    pub source_ts: Option<u64>,
    pub observed_ts: u64,
}

/// A reading as contracts speak of it.
pub struct ReadingView {
    pub source_protocol: Seq<char>,
    pub point_id: PointIdentifier,
    pub value: PointValueView,
    pub quality: RawQuality,
    pub source_ts: Option<u64>,
    pub observed_ts: u64,
}

impl View for ProcessReading {
    type V = ReadingView;

    open spec fn view(&self) -> ReadingView {
        ReadingView {
            source_protocol: self.source_protocol@,
            point_id: self.point_id,
            value: self.value@,
            quality: self.quality,
            source_ts: self.source_ts,
            observed_ts: self.observed_ts,
        }
    }
}

// ---------------------------------------------------------------------------
// Events
// ---------------------------------------------------------------------------

/// What an event says.
#[derive(Debug, Clone)]
pub enum BronzeEventFamily {
    ProtocolTransaction(ProtocolTransaction),
    AssetObservation(AssetObservation),
    TopologyObservation(TopologyObservation),
    ParseAnomaly(ParseAnomaly),
    ExtractedArtifact(ExtractedArtifact),
    ProcessReading(ProcessReading),
}

/// An event's statement as contracts speak of it.
pub enum FamilyView {
    ProtocolTransaction(TransactionView),
    AssetObservation(AssetView),
    TopologyObservation(TopologyView),
    ParseAnomaly(AnomalyView),
    ExtractedArtifact(ArtifactView),
    ProcessReading(ReadingView),
}

impl View for BronzeEventFamily {
    type V = FamilyView;

    open spec fn view(&self) -> FamilyView {
        match self {
            BronzeEventFamily::ProtocolTransaction(t) => FamilyView::ProtocolTransaction(t@),
            BronzeEventFamily::AssetObservation(a) => FamilyView::AssetObservation(a@),
            BronzeEventFamily::TopologyObservation(t) => FamilyView::TopologyObservation(t@),
            BronzeEventFamily::ParseAnomaly(a) => FamilyView::ParseAnomaly(a@),
            BronzeEventFamily::ExtractedArtifact(a) => FamilyView::ExtractedArtifact(a@),
            BronzeEventFamily::ProcessReading(r) => FamilyView::ProcessReading(r@),
        }
    }
}

/// Something that was seen in a capture.
#[derive(Debug, Clone)]
pub struct BronzeEvent {
    pub capture_id: String,
    pub envelope: EventEnvelope,
    pub family: BronzeEventFamily,
}

/// An event as contracts speak of it.
pub struct EventView {
    pub capture_id: Seq<char>,
    pub envelope: EnvelopeView,
    pub family: FamilyView,
}

impl View for BronzeEvent {
    type V = EventView;

    open spec fn view(&self) -> EventView {
        EventView {
            capture_id: self.capture_id@,
            envelope: self.envelope@,
            family: self.family@,
        }
    }
}

/// The views of a list of events.
pub open spec fn events(v: Seq<BronzeEvent>) -> Seq<EventView> {
    Seq::new(v.len(), |i: int| v[i]@)
}

impl FamilyView {
    /// The name of the kind of statement.
    pub open spec fn name(self) -> Seq<char> {
        match self {
            FamilyView::ProtocolTransaction(_) => "protocol_transaction"@,
            FamilyView::AssetObservation(_) => "asset_observation"@,
            FamilyView::TopologyObservation(_) => "topology_observation"@,
            FamilyView::ParseAnomaly(_) => "parse_anomaly"@,
            FamilyView::ExtractedArtifact(_) => "extracted_artifact"@,
            FamilyView::ProcessReading(_) => "process_reading"@,
        }
    }
}

impl BronzeEvent {
    /// The name of the kind of statement that the event makes.
    pub fn family_name(&self) -> (r: &'static str)
        ensures
            r@ == self@.family.name(),
    {
        match &self.family {
            BronzeEventFamily::ProtocolTransaction(_) => "protocol_transaction",
            BronzeEventFamily::AssetObservation(_) => "asset_observation",
            BronzeEventFamily::TopologyObservation(_) => "topology_observation",
            BronzeEventFamily::ParseAnomaly(_) => "parse_anomaly",
            BronzeEventFamily::ExtractedArtifact(_) => "extracted_artifact",
            BronzeEventFamily::ProcessReading(_) => "process_reading",
        }
    }
}

/// The number of asset observations among the events.
pub open spec fn asset_count(s: Seq<EventView>) -> nat
    decreases s.len(),
{
    if s.len() == 0 {
        0
    } else {
        asset_count(s.drop_last()) + if s.last().family is AssetObservation {
            1nat
        } else {
            0nat
        }
    }
}

/// The number of transactions among the events.
pub open spec fn tx_count(s: Seq<EventView>) -> nat
    decreases s.len(),
{
    if s.len() == 0 {
        0
    } else {
        tx_count(s.drop_last()) + if s.last().family is ProtocolTransaction {
            1nat
        } else {
            0nat
        }
    }
}

/// The number of anomalies among the events.
pub open spec fn anomaly_count(s: Seq<EventView>) -> nat
    decreases s.len(),
{
    if s.len() == 0 {
        0
    } else {
        anomaly_count(s.drop_last()) + if s.last().family is ParseAnomaly {
            1nat
        } else {
            0nat
        }
    }
}

/// One more event counts as what it is.
pub proof fn counts_push_if(s: Seq<EventView>, yes: bool, e: EventView)
    ensures
        tx_count(push_if(s, yes, e)) == tx_count(s) + (if yes && e.family is ProtocolTransaction {
            1nat
        } else {
            0nat
        }),
        asset_count(push_if(s, yes, e)) == asset_count(s) + (if yes && e.family is AssetObservation {
            1nat
        } else {
            0nat
        }),
        anomaly_count(push_if(s, yes, e)) == anomaly_count(s) + (if yes && e.family is ParseAnomaly {
            1nat
        } else {
            0nat
        }),
{
    assert(s.push(e).drop_last() =~= s);
}

/// The events of two runs count together.
pub proof fn counts_add(a: Seq<EventView>, b: Seq<EventView>)
    ensures
        tx_count(a + b) == tx_count(a) + tx_count(b),
        asset_count(a + b) == asset_count(a) + asset_count(b),
        anomaly_count(a + b) == anomaly_count(a) + anomaly_count(b),
    decreases b.len(),
{
    if b.len() == 0 {
        assert(a + b =~= a);
    } else {
        assert((a + b).drop_last() =~= a + b.drop_last());
        assert((a + b).last() == b.last());
        counts_add(a, b.drop_last());
    }
}

/// Readings are neither transactions nor assets nor anomalies.
pub proof fn readings_count_as_nothing(s: Seq<EventView>)
    requires
        forall|i: int| 0 <= i < s.len() ==> (#[trigger] s[i]).family is ProcessReading,
    ensures
        tx_count(s) == 0,
        asset_count(s) == 0,
        anomaly_count(s) == 0,
    decreases s.len(),
{
    if s.len() > 0 {
        assert(s.last() == s[s.len() - 1]);
        assert forall|i: int| 0 <= i < s.drop_last().len() implies (#[trigger] s.drop_last()[i]).family
            is ProcessReading by {
            assert(s.drop_last()[i] == s[i]);
        }
        readings_count_as_nothing(s.drop_last());
    }
}

/// An event of a capture.
pub fn new_event(capture_id: &str, envelope: EventEnvelope, family: BronzeEventFamily) -> (r:
    BronzeEvent)
    ensures
        r@ == (EventView { capture_id: capture_id@, envelope: envelope@, family: family@ }),
{
    BronzeEvent { capture_id: capture_id.to_owned(), envelope, family }
}

/// A transaction event.
pub open spec fn tx_view(capture_id: Seq<char>, envelope: EnvelopeView, tx: TransactionView) -> EventView {
    EventView { capture_id, envelope, family: FamilyView::ProtocolTransaction(tx) }
}

/// A transaction event.
pub fn transaction_event(capture_id: &str, envelope: EventEnvelope, tx: ProtocolTransaction) -> (r:
    BronzeEvent)
    ensures
        r@ == tx_view(capture_id@, envelope@, tx@),
{
    new_event(capture_id, envelope, BronzeEventFamily::ProtocolTransaction(tx))
}

/// An asset event.
pub open spec fn asset_event_view(
    capture_id: Seq<char>,
    envelope: EnvelopeView,
    asset: AssetView,
) -> EventView {
    EventView { capture_id, envelope, family: FamilyView::AssetObservation(asset) }
}

/// An asset event.
pub fn asset_event(capture_id: &str, envelope: EventEnvelope, asset: AssetObservation) -> (r:
    BronzeEvent)
    ensures
        r@ == asset_event_view(capture_id@, envelope@, asset@),
{
    new_event(capture_id, envelope, BronzeEventFamily::AssetObservation(asset))
}

/// A topology event.
pub open spec fn topology_event_view(
    capture_id: Seq<char>,
    envelope: EnvelopeView,
    topology: TopologyView,
) -> EventView {
    EventView { capture_id, envelope, family: FamilyView::TopologyObservation(topology) }
}

/// A topology event.
pub fn topology_event(capture_id: &str, envelope: EventEnvelope, topology: TopologyObservation) -> (r:
    BronzeEvent)
    ensures
        r@ == topology_event_view(capture_id@, envelope@, topology@),
{
    new_event(capture_id, envelope, BronzeEventFamily::TopologyObservation(topology))
}

/// An anomaly event.
pub open spec fn anomaly_view(
    capture_id: Seq<char>,
    envelope: EnvelopeView,
    decoder: Seq<char>,
    severity: Seq<char>,
    reason: Seq<char>,
    raw: Seq<u8>,
) -> EventView {
    EventView {
        capture_id,
        envelope,
        family: FamilyView::ParseAnomaly(AnomalyView { decoder, severity, reason, raw }),
    }
}

/// An anomaly event.
pub fn parse_anomaly_event(
    capture_id: &str,
    envelope: EventEnvelope,
    decoder: &str,
    severity: &str,
    reason: &str,
    raw: &[u8],
) -> (r: BronzeEvent)
    ensures
        r@ == anomaly_view(capture_id@, envelope@, decoder@, severity@, reason@, raw@),
{
    new_event(
        capture_id,
        envelope,
        BronzeEventFamily::ParseAnomaly(
            ParseAnomaly {
                decoder: decoder.to_owned(),
                severity: severity.to_owned(),
                reason: reason.to_owned(),
                raw: copy_bytes(raw),
            },
        ),
    )
}

/// An artifact event whose content is opaque bytes.
pub open spec fn artifact_view(
    capture_id: Seq<char>,
    envelope: EnvelopeView,
    artifact_type: Seq<char>,
    artifact_key: Seq<char>,
    mime_type: Option<Seq<char>>,
    description: Option<Seq<char>>,
    content: Seq<u8>,
) -> EventView {
    EventView {
        capture_id,
        envelope,
        family: FamilyView::ExtractedArtifact(
            ArtifactView { artifact_type, artifact_key, mime_type, description, content },
        ),
    }
}

/// An artifact event.
pub fn artifact_event(
    capture_id: &str,
    envelope: EventEnvelope,
    artifact_type: &str,
    artifact_key: &str,
    mime_type: Option<&str>,
    description: Option<&str>,
    content: &[u8],
) -> (r: BronzeEvent)
    ensures
        r@ == artifact_view(
            capture_id@,
            envelope@,
            artifact_type@,
            artifact_key@,
            text::opt_str(mime_type),
            text::opt_str(description),
            content@,
        ),
{
    new_event(
        capture_id,
        envelope,
        BronzeEventFamily::ExtractedArtifact(
            ExtractedArtifact {
                artifact_type: artifact_type.to_owned(),
                artifact_key: artifact_key.to_owned(),
                mime_type: opt_owned(mime_type),
                description: opt_owned(description),
                content: copy_bytes(content),
            },
        ),
    )
}

/// What was made of a payload that belongs to a protocol only perhaps.
#[derive(Debug, Clone)]
pub enum Dissection<T> {
    /// The payload is not of the protocol.
    Foreign,
    /// The payload looks like the protocol but could not be parsed.
    Malformed,
    /// The fields of the payload.
    Parsed(T),
}

/// The empty list of events.
pub fn no_events() -> (r: Vec<BronzeEvent>)
    ensures
        events(r@) == Seq::<EventView>::empty(),
{
    let v: Vec<BronzeEvent> = Vec::new();
    assert(events(v@) =~= Seq::<EventView>::empty());
    v
}

/// Adds an event to a list.
pub fn emit(out: &mut Vec<BronzeEvent>, event: BronzeEvent)
    ensures
        events(final(out)@) == events(old(out)@).push(event@),
{
    out.push(event);
    assert(events(out@) =~= events(old(out)@).push(event@));
}

/// Adds the events of one list to another.
pub fn emit_all(out: &mut Vec<BronzeEvent>, more: Vec<BronzeEvent>)
    ensures
        events(final(out)@) == events(old(out)@) + events(more@),
{
    let mut more = more;
    let ghost given = more@;
    out.append(&mut more);
    assert(events(out@) =~= events(old(out)@) + events(given));
}

/// The list with the event added where the condition holds.
pub open spec fn push_if(s: Seq<EventView>, cond: bool, e: EventView) -> Seq<EventView> {
    if cond {
        s.push(e)
    } else {
        s
    }
}

/// The envelope of a chunk carries the chunk over field by field, source to source and destination
/// to destination; it is one packet of the captured length, and an unspecified address is none.
pub proof fn envelope_is_of_the_chunk(c: ChunkView,
    transport: TransportProtocol, protocol: Seq<char>)
    ensures
        ({
            let e = chunk_env(c, transport, protocol);
            &&& e.src_mac == c.context.src_mac
            &&& e.dst_mac == c.context.dst_mac
            &&& e.src_ip == (if c.context.src_ip.unspecified() {
                None
            } else {
                Some(c.context.src_ip.text())
            })
            &&& e.dst_ip == (if c.context.dst_ip.unspecified() {
                None
            } else {
                Some(c.context.dst_ip.text())
            })
            &&& e.src_port == c.context.src_port
            &&& e.dst_port == c.context.dst_port
            &&& e.vlan_id == c.context.vlan_id
            &&& e.interface_id == c.interface_id
            &&& e.frame_index == c.frame_index
            &&& e.timestamp == c.timestamp
            &&& e.segment_hash == c.segment_hash
            &&& e.transport == transport
            &&& e.protocol == Some(protocol)
            &&& e.bytes_count == c.captured_len
            &&& e.packet_count == 1
            &&& e.session_key == c.session_key
        }),
{
}

} // verus!
