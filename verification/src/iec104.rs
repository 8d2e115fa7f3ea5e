//! IEC 60870-5-104 on TCP port 2404.
//!
//! Frames (I, S and U format) are taken apart elsewhere; this decoder turns each into a
//! transaction, the two stations and the link between them, and the ASDU payload.

use vstd::prelude::*;

use crate::collections;
use crate::collections::Attributes;
use crate::events;
use crate::events::{
    artifact_event, asset_event, asset_observation, chunk_envelope, emit, emit_all, no_events,
    no_values, parse_anomaly_event, topology_event, transaction_event, BronzeEvent, EnvelopeView,
    EventEnvelope, EventView, ProtocolFields, ProtocolFieldsView, ProtocolTransaction,
    TopologyObservation, TopologyView, TransactionView,
};
use crate::packet::{
    ChunkView, ContextView, DecoderInterest, PacketContext, StreamChunk, TransportProtocol,
};
use crate::text;
use crate::text::{
    cat, dec_text, ends_with_text, no_texts, opt_as_str, opt_copy, opt_owned, push_text, same_text,
};

verus! {

/// A parsed frame.
#[derive(Debug, Clone)]
pub struct Iec104Fields {
    /// `i`, `s` or `u`.
    pub frame_type: String,
    pub send_sequence: Option<u16>,
    pub receive_sequence: Option<u16>,
    pub u_format: Option<String>,
    pub type_id: Option<u8>,
    pub cause_of_transmission: Option<u16>,
    pub common_address: Option<u16>,
    pub information_object_address: Option<u32>,
    pub payload: Vec<u8>,
}

/// The typed fields of a frame.
#[derive(Debug, Clone)]
pub struct Iec104BronzeFields {
    pub apci_type: String,
    pub send_sequence: Option<u16>,
    pub receive_sequence: Option<u16>,
    pub u_function: Option<String>,
    pub asdu_type_id: Option<u8>,
    pub asdu_type_name: Option<String>,
    pub cause_of_transmission: Option<u8>,
    pub cause_of_transmission_name: Option<String>,
    pub is_negative_confirm: bool,
    pub is_test: bool,
    pub originator_address: Option<u8>,
    pub common_address: Option<u16>,
    pub num_objects: Option<u8>,
    pub is_sequence: bool,
    pub direction: String,
}

/// IEC 104 fields as contracts speak of them.
pub struct Iec104FieldsView {
    pub apci_type: Seq<char>,
    pub send_sequence: Option<u16>,
    pub receive_sequence: Option<u16>,
    pub u_function: Option<Seq<char>>,
    pub asdu_type_id: Option<u8>,
    pub asdu_type_name: Option<Seq<char>>,
    pub cause_of_transmission: Option<u8>,
    pub cause_of_transmission_name: Option<Seq<char>>,
    pub is_negative_confirm: bool,
    pub is_test: bool,
    pub originator_address: Option<u8>,
    pub common_address: Option<u16>,
    pub num_objects: Option<u8>,
    pub is_sequence: bool,
    pub direction: Seq<char>,
}

impl View for Iec104BronzeFields {
    type V = Iec104FieldsView;

    open spec fn view(&self) -> Iec104FieldsView {
        Iec104FieldsView {
            apci_type: self.apci_type@,
            send_sequence: self.send_sequence,
            receive_sequence: self.receive_sequence,
            u_function: text::opt_view(self.u_function),
            asdu_type_id: self.asdu_type_id,
            asdu_type_name: text::opt_view(self.asdu_type_name),
            cause_of_transmission: self.cause_of_transmission,
            cause_of_transmission_name: text::opt_view(self.cause_of_transmission_name),
            is_negative_confirm: self.is_negative_confirm,
            is_test: self.is_test,
            originator_address: self.originator_address,
            common_address: self.common_address,
            num_objects: self.num_objects,
            is_sequence: self.is_sequence,
            direction: self.direction@,
        }
    }
}

// ---------------------------------------------------------------------------
// Labels
// ---------------------------------------------------------------------------

/// The name of an ASDU type.
pub open spec fn type_of(type_id: u8) -> Seq<char> {
    if type_id == 1 {
        "single_point_information"@
    } else if type_id == 3 {
        "double_point_information"@
    } else if type_id == 9 {
        "measured_value_normalized"@
    } else if type_id == 11 {
        "measured_value_scaled"@
    } else if type_id == 13 {
        "measured_value_short_float"@
    } else if type_id == 30 {
        "single_point_with_time"@
    } else if type_id == 45 {
        "single_command"@
    } else if type_id == 46 {
        "double_command"@
    } else if type_id == 50 {
        "set_point_normalized"@
    } else if type_id == 100 {
        "interrogation_command"@
    } else if type_id == 103 {
        "clock_sync_command"@
    } else {
        "asdu_type"@
    }
}

/// The name of an ASDU type.
pub fn iec104_type_name(type_id: u8) -> (r: &'static str)
    ensures
        r@ == type_of(type_id),
{
    match type_id {
        1 => "single_point_information",
        3 => "double_point_information",
        9 => "measured_value_normalized",
        11 => "measured_value_scaled",
        13 => "measured_value_short_float",
        30 => "single_point_with_time",
        45 => "single_command",
        46 => "double_command",
        50 => "set_point_normalized",
        100 => "interrogation_command",
        103 => "clock_sync_command",
        _ => "asdu_type",
    }
}

/// The name of a cause of transmission.
pub open spec fn cause_of(cause: u16) -> Seq<char> {
    if cause == 1 {
        "periodic"@
    } else if cause == 3 {
        "spontaneous"@
    } else if cause == 5 {
        "request"@
    } else if cause == 6 {
        "activation"@
    } else if cause == 7 {
        "activation_confirmation"@
    } else if cause == 10 {
        "activation_termination"@
    } else if cause == 20 {
        "interrogated_by_station"@
    } else {
        "cause"@
    }
}

/// The name of a cause of transmission.
pub fn iec104_cause_name(cause: u16) -> (r: &'static str)
    ensures
        r@ == cause_of(cause),
{
    match cause {
        1 => "periodic",
        3 => "spontaneous",
        5 => "request",
        6 => "activation",
        7 => "activation_confirmation",
        10 => "activation_termination",
        20 => "interrogated_by_station",
        _ => "cause",
    }
}

/// The name of the ASDU in a frame.
pub open spec fn asdu_of(type_id: Option<u8>) -> Seq<char> {
    match type_id {
        Some(t) => type_of(t),
        None => "iec104_asdu"@,
    }
}

fn asdu_name(type_id: Option<u8>) -> (r: &'static str)
    ensures
        r@ == asdu_of(type_id),
{
    match type_id {
        Some(t) => iec104_type_name(t),
        None => "iec104_asdu",
    }
}

/// The operation of a frame.
pub open spec fn operation_of(
    frame_type: Seq<char>,
    type_id: Option<u8>,
    u_format: Option<Seq<char>>,
) -> Seq<char> {
    if frame_type == "u"@ {
        match u_format {
            Some(f) => f,
            None => "u_format"@,
        }
    } else if frame_type == "s"@ {
        "supervisory"@
    } else {
        asdu_of(type_id)
    }
}

/// The operation of a frame.
pub fn iec104_operation_name(frame_type: &str, type_id: Option<u8>, u_format: Option<&str>) -> (r:
    String)
    ensures
        r@ == operation_of(frame_type@, type_id, text::opt_str(u_format)),
{
    if same_text(frame_type, "u") {
        match u_format {
            Some(f) => f.to_owned(),
            None => "u_format".to_owned(),
        }
    } else if same_text(frame_type, "s") {
        "supervisory".to_owned()
    } else {
        asdu_name(type_id).to_owned()
    }
}

/// The status of a frame. A U frame asks or confirms by its name, an S frame acknowledges;
/// an I frame goes by its port, where a confirmation or termination from the well-known port
/// is a response even when it goes there too.
pub open spec fn status_of(
    frame_type: Seq<char>,
    u_format: Option<Seq<char>>,
    cause: Option<u16>,
    c: ContextView,
) -> Seq<char> {
    if frame_type == "u"@ {
        match u_format {
            Some(f) => if text::ends_with(f, "_act"@) {
                "request"@
            } else if text::ends_with(f, "_con"@) {
                "response"@
            } else {
                "observed"@
            },
            None => "observed"@,
        }
    } else if frame_type == "s"@ {
        "response"@
    } else if (cause == Some(7u16) || cause == Some(10u16)) && c.src_port == 2404 {
        "response"@
    } else if c.dst_port == 2404 {
        "request"@
    } else if c.src_port == 2404 {
        "response"@
    } else {
        "observed"@
    }
}

/// The status of a frame.
pub fn iec104_status(
    frame_type: &str,
    u_format: Option<&str>,
    cause: Option<u16>,
    context: &PacketContext,
) -> (r: &'static str)
    ensures
        r@ == status_of(frame_type@, text::opt_str(u_format), cause, context@),
{
    if same_text(frame_type, "u") {
        match u_format {
            Some(f) => if ends_with_text(f, "_act") {
                "request"
            } else if ends_with_text(f, "_con") {
                "response"
            } else {
                "observed"
            },
            None => "observed",
        }
    } else if same_text(frame_type, "s") {
        "response"
    } else {
        let confirms = match cause {
            Some(n) => n == 7 || n == 10,
            None => false,
        };
        if confirms && context.src_port == 2404 {
            "response"
        } else if context.dst_port == 2404 {
            "request"
        } else if context.src_port == 2404 {
            "response"
        } else {
            "observed"
        }
    }
}

/// A number, or a question mark.
pub open spec fn or_unknown(n: Option<u16>) -> Seq<char> {
    match n {
        Some(v) => text::dec(v as nat),
        None => "?"@,
    }
}

fn number_or_unknown(n: Option<u16>) -> (r: String)
    ensures
        r@ == or_unknown(n),
{
    match n {
        Some(v) => dec_text(v),
        None => "?".to_owned(),
    }
}

/// The summary of a frame.
pub open spec fn summary_of(
    frame_type: Seq<char>,
    type_id: Option<u8>,
    cause: Option<u16>,
    common_address: Option<u16>,
) -> Seq<char> {
    if frame_type == "u"@ {
        "u_format_control"@
    } else if frame_type == "s"@ {
        "supervisory_ack"@
    } else {
        asdu_of(type_id) + " cause="@ + or_unknown(cause) + " ca="@ + or_unknown(common_address)
    }
}

/// The summary of a frame.
pub fn iec104_summary(
    frame_type: &str,
    type_id: Option<u8>,
    cause: Option<u16>,
    common_address: Option<u16>,
) -> (r: String)
    ensures
        r@ == summary_of(frame_type@, type_id, cause, common_address),
{
    if same_text(frame_type, "u") {
        "u_format_control".to_owned()
    } else if same_text(frame_type, "s") {
        "supervisory_ack".to_owned()
    } else {
        let s = cat(cat(asdu_name(type_id), " cause=").as_str(), number_or_unknown(cause).as_str());
        cat(cat(s.as_str(), " ca=").as_str(), number_or_unknown(common_address).as_str())
    }
}

/// The object references of a frame: its type, station and object, as far as it has them.
pub open spec fn refs_of(
    type_id: Option<u8>,
    common_address: Option<u16>,
    information_object_address: Option<u32>,
) -> Seq<Seq<char>> {
    let refs = Seq::<Seq<char>>::empty();
    let refs = match type_id {
        Some(n) => refs.push("iec104_type:"@ + text::dec(n as nat)),
        None => refs,
    };
    let refs = match common_address {
        Some(n) => refs.push("iec104_common_address:"@ + text::dec(n as nat)),
        None => refs,
    };
    match information_object_address {
        Some(n) => refs.push("iec104_ioa:"@ + text::dec(n as nat)),
        None => refs,
    }
}

/// The object references of a frame.
pub fn iec104_object_refs(
    type_id: Option<u8>,
    common_address: Option<u16>,
    information_object_address: Option<u32>,
) -> (r: Vec<String>)
    ensures
        text::texts(r@) == refs_of(type_id, common_address, information_object_address),
{
    let mut refs = no_texts();
    if let Some(n) = type_id {
        push_text(&mut refs, cat("iec104_type:", dec_text(n).as_str()));
    }
    if let Some(n) = common_address {
        push_text(&mut refs, cat("iec104_common_address:", dec_text(n).as_str()));
    }
    if let Some(n) = information_object_address {
        push_text(&mut refs, cat("iec104_ioa:", dec_text(n).as_str()));
    }
    refs
}

// ---------------------------------------------------------------------------
// Typed fields
// ---------------------------------------------------------------------------

/// The six bits of a cause of transmission.
pub open spec fn cause_bits(cause: Option<u16>) -> Option<u8> {
    match cause {
        Some(c) => Some((c & 0x3F) as u8),
        None => None,
    }
}

/// The typed fields of a frame.
pub open spec fn typed(
    frame_type: Seq<char>,
    send_sequence: Option<u16>,
    receive_sequence: Option<u16>,
    u_format: Option<Seq<char>>,
    type_id: Option<u8>,
    cause: Option<u16>,
    common_address: Option<u16>,
    status: Seq<char>,
) -> Iec104FieldsView {
    Iec104FieldsView {
        apci_type: if frame_type == "i"@ {
            "i_frame"@
        } else if frame_type == "s"@ {
            "s_frame"@
        } else if frame_type == "u"@ {
            "u_frame"@
        } else {
            frame_type
        },
        send_sequence,
        receive_sequence,
        u_function: u_format,
        asdu_type_id: type_id,
        asdu_type_name: match type_id {
            Some(t) => Some(type_of(t)),
            None => None,
        },
        cause_of_transmission: cause_bits(cause),
        cause_of_transmission_name: match cause_bits(cause) {
            Some(c) => Some(cause_of(c as u16)),
            None => None,
        },
        is_negative_confirm: false,
        is_test: false,
        originator_address: None,
        common_address,
        num_objects: None,
        is_sequence: false,
        direction: status,
    }
}

/// The typed fields of a frame. The direction is the status, which is handed in. Negative
/// confirm, test, originator address and the number of objects are not among what frames are
/// parsed into, and stay unset.
pub fn iec104_bronze_fields(
    frame_type: &str,
    send_sequence: Option<u16>,
    receive_sequence: Option<u16>,
    u_format: Option<&str>,
    type_id: Option<u8>,
    cause_of_transmission: Option<u16>,
    common_address: Option<u16>,
    status_str: &str,
) -> (r: Iec104BronzeFields)
    ensures
        r@ == typed(
            frame_type@,
            send_sequence,
            receive_sequence,
            text::opt_str(u_format),
            type_id,
            cause_of_transmission,
            common_address,
            status_str@,
        ),
{
    let apci_type = if same_text(frame_type, "i") {
        "i_frame"
    } else if same_text(frame_type, "s") {
        "s_frame"
    } else if same_text(frame_type, "u") {
        "u_frame"
    } else {
        frame_type
    };
    let cause: Option<u8> = match cause_of_transmission {
        Some(c) => Some((c & 0x3F) as u8),
        None => None,
    };
    let cause_name = match cause {
        Some(c) => Some(iec104_cause_name(c as u16).to_owned()),
        None => None,
    };
    let asdu_type_name = match type_id {
        Some(t) => Some(iec104_type_name(t).to_owned()),
        None => None,
    };
    Iec104BronzeFields {
        apci_type: apci_type.to_owned(),
        send_sequence,
        receive_sequence,
        u_function: opt_owned(u_format),
        asdu_type_id: type_id,
        asdu_type_name,
        cause_of_transmission: cause,
        cause_of_transmission_name: cause_name,
        is_negative_confirm: false,
        is_test: false,
        originator_address: None,
        common_address,
        num_objects: None,
        is_sequence: false,
        direction: status_str.to_owned(),
    }
}

// ---------------------------------------------------------------------------
// Stations
// ---------------------------------------------------------------------------

/// The roles of source and destination. The outstation listens on the well-known port; where
/// neither port is that one, a frame with an ASDU goes between peers.
pub open spec fn roles_of(c: ContextView, frame_type: Seq<char>) -> (Seq<char>, Seq<char>) {
    if frame_type == "u"@ || frame_type == "s"@ {
        if c.src_port == 2404 {
            ("outstation"@, "master"@)
        } else {
            ("master"@, "outstation"@)
        }
    } else if c.dst_port == 2404 {
        ("master"@, "outstation"@)
    } else if c.src_port == 2404 {
        ("outstation"@, "master"@)
    } else {
        ("peer"@, "peer"@)
    }
}

/// One of the stations. The common address is that of the outstation.
pub open spec fn station_seen(
    capture_id: Seq<char>,
    envelope: EnvelopeView,
    ip: Seq<char>,
    role: Seq<char>,
    common_address: Option<u16>,
) -> EventView {
    let m = Map::empty().insert("ip"@, ip);
    events::asset_event_view(
        capture_id,
        envelope,
        events::asset_view(
            ip,
            Some(role),
            None,
            None,
            None,
            "iec104"@,
            if role == "outstation"@ {
                collections::insert_opt(
                    m,
                    "iec104_common_address"@,
                    text::opt_dec(common_address),
                )
            } else {
                m
            },
        ),
    )
}

fn station_event(
    capture_id: &str,
    envelope: EventEnvelope,
    ip: String,
    role: &str,
    common_address: Option<u16>,
) -> (r: BronzeEvent)
    ensures
        r@ == station_seen(capture_id@, envelope@, ip@, role@, common_address),
{
    let mut m = Attributes::new();
    m.put("ip", ip.as_str());
    if same_text(role, "outstation") {
        m.put_some_dec("iec104_common_address", common_address);
    }
    asset_event(
        capture_id,
        envelope,
        asset_observation(ip, Some(role), None, None, None, "iec104", m),
    )
}

/// The two stations of a frame and the link between them.
pub open spec fn stations(
    capture_id: Seq<char>,
    envelope: EnvelopeView,
    c: ContextView,
    frame_type: Seq<char>,
    common_address: Option<u16>,
) -> Seq<EventView> {
    let roles = roles_of(c, frame_type);
    Seq::<EventView>::empty().push(
        station_seen(capture_id, envelope, c.src_ip.text(), roles.0, common_address),
    ).push(station_seen(capture_id, envelope, c.dst_ip.text(), roles.1, common_address)).push(
        events::topology_event_view(
            capture_id,
            envelope,
            TopologyView {
                observation_type: "iec104_link"@,
                local_id: c.src_ip.text(),
                remote_id: Some(c.dst_ip.text()),
                description: Some(frame_type),
                capabilities: Seq::empty(),
                metadata: collections::insert_opt(
                    Map::empty(),
                    "common_address"@,
                    text::opt_dec(common_address),
                ),
            },
        ),
    )
}

/// The two stations of a frame and the link between them.
pub fn iec104_role_observations(
    capture_id: &str,
    envelope: &EventEnvelope,
    context: &PacketContext,
    frame_type: &str,
    common_address: Option<u16>,
) -> (r: Vec<BronzeEvent>)
    ensures
        events::events(r@) == stations(
            capture_id@,
            envelope@,
            context@,
            frame_type@,
            common_address,
        ),
{
    let (src_role, dst_role) = if same_text(frame_type, "u") || same_text(frame_type, "s") {
        if context.src_port == 2404 {
            ("outstation", "master")
        } else {
            ("master", "outstation")
        }
    } else if context.dst_port == 2404 {
        ("master", "outstation")
    } else if context.src_port == 2404 {
        ("outstation", "master")
    } else {
        ("peer", "peer")
    };
    let mut ev = no_events();
    emit(
        &mut ev,
        station_event(
            capture_id,
            envelope.copy(),
            context.src_ip.text(),
            src_role,
            common_address,
        ),
    );
    emit(
        &mut ev,
        station_event(
            capture_id,
            envelope.copy(),
            context.dst_ip.text(),
            dst_role,
            common_address,
        ),
    );
    let mut metadata = Attributes::new();
    metadata.put_some_dec("common_address", common_address);
    emit(
        &mut ev,
        topology_event(
            capture_id,
            envelope.copy(),
            TopologyObservation {
                observation_type: "iec104_link".to_owned(),
                local_id: context.src_ip.text(),
                remote_id: Some(context.dst_ip.text()),
                description: Some(frame_type.to_owned()),
                capabilities: no_texts(),
                metadata,
            },
        ),
    );
    ev
}

// ---------------------------------------------------------------------------
// Events
// ---------------------------------------------------------------------------

/// The envelope of a chunk.
pub open spec fn env(c: ChunkView) -> EnvelopeView {
    events::chunk_env(c, TransportProtocol::Tcp, "iec104"@)
}

fn envelope(chunk: &StreamChunk<'_>) -> (r: EventEnvelope)
    ensures
        r@ == env(chunk@),
{
    chunk_envelope(chunk, TransportProtocol::Tcp, "iec104")
}

/// The attributes of a frame.
pub open spec fn attrs_of(f: Iec104Fields) -> Map<Seq<char>, Seq<char>> {
    let m = Map::empty().insert("frame_type"@, f.frame_type@);
    let m = collections::insert_opt(m, "send_sequence"@, text::opt_dec(f.send_sequence));
    let m = collections::insert_opt(m, "receive_sequence"@, text::opt_dec(f.receive_sequence));
    let m = match f.type_id {
        Some(t) => m.insert("type_id"@, text::dec(t as nat)).insert("type_name"@, type_of(t)),
        None => m,
    };
    let m = match f.cause_of_transmission {
        Some(c) => m.insert("cause"@, text::dec(c as nat)).insert("cause_name"@, cause_of(c)),
        None => m,
    };
    let m = collections::insert_opt(m, "common_address"@, text::opt_dec(f.common_address));
    let m = collections::insert_opt(
        m,
        "information_object_address"@,
        text::opt_dec(f.information_object_address),
    );
    collections::insert_opt(m, "u_format"@, text::opt_view(f.u_format))
}

fn frame_attrs(f: &Iec104Fields) -> (r: Attributes)
    ensures
        r@ == attrs_of(*f),
{
    let mut m = Attributes::new();
    m.put("frame_type", f.frame_type.as_str());
    m.put_some_dec("send_sequence", f.send_sequence);
    m.put_some_dec("receive_sequence", f.receive_sequence);
    if let Some(t) = f.type_id {
        m.put_dec("type_id", t);
        m.put("type_name", iec104_type_name(t));
    }
    if let Some(c) = f.cause_of_transmission {
        m.put_dec("cause", c);
        m.put("cause_name", iec104_cause_name(c));
    }
    m.put_some_dec("common_address", f.common_address);
    m.put_some_dec("information_object_address", f.information_object_address);
    m.insert_some("u_format", opt_copy(&f.u_format));
    m
}

/// The status of a frame in a chunk.
pub open spec fn frame_status(c: ChunkView, f: Iec104Fields) -> Seq<char> {
    status_of(f.frame_type@, text::opt_view(f.u_format), f.cause_of_transmission, c.context)
}

/// The transaction of a frame.
pub open spec fn frame_seen(c: ChunkView, f: Iec104Fields) -> EventView {
    events::tx_view(
        c.capture_id,
        env(c),
        TransactionView {
            object_refs: refs_of(f.type_id, f.common_address, f.information_object_address),
            protocol_fields: Some(
                ProtocolFieldsView::Iec104(
                    typed(
                        f.frame_type@,
                        f.send_sequence,
                        f.receive_sequence,
                        text::opt_view(f.u_format),
                        f.type_id,
                        f.cause_of_transmission,
                        f.common_address,
                        frame_status(c, f),
                    ),
                ),
            ),
            ..events::plain_tx(
                operation_of(f.frame_type@, f.type_id, text::opt_view(f.u_format)),
                frame_status(c, f),
                Some(
                    summary_of(
                        f.frame_type@,
                        f.type_id,
                        f.cause_of_transmission,
                        f.common_address,
                    ),
                ),
                attrs_of(f),
            )
        },
    )
}

/// The events of a frame: its transaction, the two stations and the link, and its payload.
pub open spec fn frame_events(c: ChunkView, f: Iec104Fields) -> Seq<EventView> {
    let t = Seq::<EventView>::empty().push(frame_seen(c, f)) + stations(
        c.capture_id,
        env(c),
        c.context,
        f.frame_type@,
        f.common_address,
    );
    events::push_if(
        t,
        f.payload@.len() > 0,
        events::artifact_view(
            c.capture_id,
            env(c),
            "iec104_asdu"@,
            c.session_key + ":"@ + text::dec(c.frame_index as nat),
            Some("application/octet-stream"@),
            Some("IEC 60870-5-104 ASDU payload"@),
            f.payload@,
        ),
    )
}

/// The events of several frames in one chunk.
pub open spec fn frames_events(c: ChunkView, frames: Seq<Iec104Fields>) -> Seq<EventView>
    decreases frames.len(),
{
    if frames.len() == 0 {
        Seq::empty()
    } else {
        frames_events(c, frames.drop_last()) + frame_events(c, frames.last())
    }
}

/// The events of a chunk: those of its frames, or an anomaly where it has none.
pub open spec fn chunk_events(c: ChunkView, frames: Seq<Iec104Fields>) -> Seq<EventView> {
    if frames.len() == 0 {
        Seq::<EventView>::empty().push(
            events::anomaly_view(
                c.capture_id,
                env(c),
                "iec104"@,
                "medium"@,
                "failed to parse iec104 payload"@,
                c.payload,
            ),
        )
    } else {
        frames_events(c, frames)
    }
}

/// The IEC 104 decoder.
#[derive(Debug, Default)]
pub struct Iec104DecoderWrapper;

impl Iec104DecoderWrapper {
    /// The name of the decoder.
    pub fn name(&self) -> (r: &'static str)
        ensures
            r@ == "iec104"@,
    {
        "iec104"
    }

    /// The traffic that the decoder asks for.
    pub fn interest(&self) -> (r: &'static [DecoderInterest])
        ensures
            r@ == seq![DecoderInterest::TcpPort(2404)],
    {
        &[DecoderInterest::TcpPort(2404)]
    }

    /// Takes in a chunk of a TCP stream and the frames in it.
    pub fn on_stream_chunk(
        &mut self,
        chunk: &StreamChunk<'_>,
        frames: Vec<Iec104Fields>,
        out: &mut Vec<BronzeEvent>,
    )
        ensures
            events::events(final(out)@) == events::events(old(out)@) + chunk_events(
                chunk@,
                frames@,
            ),
    {
        let mut ev = no_events();
        if frames.len() == 0 {
            emit(
                &mut ev,
                parse_anomaly_event(
                    chunk.capture_id,
                    envelope(chunk),
                    "iec104",
                    "medium",
                    "failed to parse iec104 payload",
                    chunk.payload,
                ),
            );
        } else {
            let mut i: usize = 0;
            while i < frames.len()
                invariant
                    i <= frames.len(),
                    events::events(ev@) == frames_events(chunk@, frames@.take(i as int)),
                decreases frames.len() - i,
            {
                proof {
                    assert(frames@.take(i + 1).drop_last() =~= frames@.take(i as int));
                    assert(frames@.take(i + 1).last() == frames@[i as int]);
                }
                self.emit_frame(chunk, &frames[i], &mut ev);
                i = i + 1;
            }
            assert(frames@.take(i as int) =~= frames@);
        }
        emit_all(out, ev);
    }

    fn emit_frame(&self, chunk: &StreamChunk<'_>, f: &Iec104Fields, out: &mut Vec<BronzeEvent>)
        ensures
            events::events(final(out)@) == events::events(old(out)@) + frame_events(chunk@, *f),
    {
        let mut ev = no_events();
        let envelope = envelope(chunk);
        let u_format = opt_as_str(&f.u_format);
        let frame_type = f.frame_type.as_str();
        let status = iec104_status(
            frame_type,
            u_format,
            f.cause_of_transmission,
            &chunk.context,
        );
        let typed_fields = iec104_bronze_fields(
            frame_type,
            f.send_sequence,
            f.receive_sequence,
            u_format,
            f.type_id,
            f.cause_of_transmission,
            f.common_address,
            status,
        );
        emit(
            &mut ev,
            transaction_event(
                chunk.capture_id,
                envelope.copy(),
                ProtocolTransaction {
                    operation: iec104_operation_name(frame_type, f.type_id, u_format),
                    status: status.to_owned(),
                    request_summary: Some(
                        iec104_summary(
                            frame_type,
                            f.type_id,
                            f.cause_of_transmission,
                            f.common_address,
                        ),
                    ),
                    response_summary: None,
                    object_refs: iec104_object_refs(
                        f.type_id,
                        f.common_address,
                        f.information_object_address,
                    ),
                    values: no_values(),
                    attributes: frame_attrs(f),
                    modbus: None,
                    protocol_fields: Some(ProtocolFields::Iec104(typed_fields)),
                },
            ),
        );
        emit_all(
            &mut ev,
            iec104_role_observations(
                chunk.capture_id,
                &envelope,
                &chunk.context,
                frame_type,
                f.common_address,
            ),
        );
        if f.payload.len() > 0 {
            let key = cat(
                cat(chunk.session_key.as_str(), ":").as_str(),
                dec_text(chunk.frame_index).as_str(),
            );
            emit(
                &mut ev,
                artifact_event(
                    chunk.capture_id,
                    envelope,
                    "iec104_asdu",
                    key.as_str(),
                    Some("application/octet-stream"),
                    Some("IEC 60870-5-104 ASDU payload"),
                    f.payload.as_slice(),
                ),
            );
        }
        emit_all(out, ev);
    }
}

// ---------------------------------------------------------------------------
// Laws
// ---------------------------------------------------------------------------

/// The direction in the typed fields of a frame is the status of its transaction.
pub proof fn direction_is_status(c: ChunkView, f: Iec104Fields)
    ensures
        ({
            let tx = frame_events(c, f)[0].family->ProtocolTransaction_0;
            tx.protocol_fields->Some_0->Iec104_0.direction == tx.status
        }),
{
}

/// The typed cause of transmission is a six-bit number.
pub proof fn typed_cause_is_six_bits(cause: u16)
    ensures
        cause_bits(Some(cause))->Some_0 < 64,
        cause < 64 ==> cause_bits(Some(cause)) == Some(cause as u8),
{
    assert(((cause & 0x3F) as u8) < 64) by (bit_vector);
    assert(cause < 64 ==> (cause & 0x3F) == cause) by (bit_vector);
}

/// Where exactly one of the two ports is the well-known one, the station on it is the
/// outstation and the other the master.
pub proof fn outstation_is_on_the_port(c: ContextView, frame_type: Seq<char>)
    requires
        (c.src_port == 2404) != (c.dst_port == 2404),
    ensures
        c.dst_port == 2404 ==> roles_of(c, frame_type) == ("master"@, "outstation"@),
        c.src_port == 2404 ==> roles_of(c, frame_type) == ("outstation"@, "master"@),
{
}

/// A station carries the common address exactly when it is the outstation and the frame names
/// one.
pub proof fn only_the_outstation_has_the_address(
    capture_id: Seq<char>,
    envelope: EnvelopeView,
    ip: Seq<char>,
    role: Seq<char>,
    common_address: Option<u16>,
)
    ensures
        ({
            let ids = station_seen(
                capture_id,
                envelope,
                ip,
                role,
                common_address,
            ).family->AssetObservation_0.identifiers;
            &&& ids["ip"@] == ip
            &&& ids.dom().contains("iec104_common_address"@) <==> role == "outstation"@
                && common_address is Some
            &&& role == "outstation"@ && common_address is Some ==> ids["iec104_common_address"@]
                == text::dec(common_address->Some_0 as nat)
        }),
{
    reveal_strlit("ip");
    reveal_strlit("iec104_common_address");
    assert("ip"@.len() != "iec104_common_address"@.len());
}

/// Every frame of a chunk gives one transaction and two stations, and no anomaly; a chunk
/// without frames gives an anomaly and nothing else.
pub proof fn one_transaction_for_a_frame(c: ChunkView, frames: Seq<Iec104Fields>)
    ensures
        events::tx_count(chunk_events(c, frames)) == frames.len(),
        events::asset_count(chunk_events(c, frames)) == 2 * frames.len(),
        events::anomaly_count(chunk_events(c, frames)) == (if frames.len() == 0 {
            1nat
        } else {
            0nat
        }),
{
    if frames.len() == 0 {
        let e = chunk_events(c, frames);
        assert(e.drop_last() =~= Seq::<EventView>::empty());
        reveal_with_fuel(events::tx_count, 2);
        reveal_with_fuel(events::asset_count, 2);
        reveal_with_fuel(events::anomaly_count, 2);
    } else {
        frames_count(c, frames);
    }
}

proof fn frames_count(c: ChunkView, frames: Seq<Iec104Fields>)
    ensures
        events::tx_count(frames_events(c, frames)) == frames.len(),
        events::asset_count(frames_events(c, frames)) == 2 * frames.len(),
        events::anomaly_count(frames_events(c, frames)) == 0,
    decreases frames.len(),
{
    if frames.len() > 0 {
        let f = frames.last();
        frames_count(c, frames.drop_last());
        frame_count(c, f);
        events::counts_add(frames_events(c, frames.drop_last()), frame_events(c, f));
    }
}

proof fn frame_count(c: ChunkView, f: Iec104Fields)
    ensures
        events::tx_count(frame_events(c, f)) == 1,
        events::asset_count(frame_events(c, f)) == 2,
        events::anomaly_count(frame_events(c, f)) == 0,
{
    let none = Seq::<EventView>::empty();
    let seen = none.push(frame_seen(c, f));
    let ends = stations(c.capture_id, env(c), c.context, f.frame_type@, f.common_address);
    events::counts_push_if(none, true, frame_seen(c, f));
    events::counts_push_if(none, true, ends[0]);
    events::counts_push_if(none.push(ends[0]), true, ends[1]);
    events::counts_push_if(none.push(ends[0]).push(ends[1]), true, ends[2]);
    assert(ends =~= none.push(ends[0]).push(ends[1]).push(ends[2]));
    events::counts_add(seen, ends);
    let all = frame_events(c, f);
    events::counts_push_if(seen + ends, f.payload@.len() > 0, all.last());
}

/// The attributes of a frame give each of its parts under its own name, and none that it has not.
pub proof fn attributes_are_of_the_frame(c: ChunkView, f: Iec104Fields)
    ensures
        ({
            let tx = frame_events(c, f)[0].family->ProtocolTransaction_0;
            &&& tx.attributes["frame_type"@] == f.frame_type@
            &&& match f.send_sequence {
                Some(v) => tx.attributes.contains_key("send_sequence"@)
                    && tx.attributes["send_sequence"@] == text::dec(v as nat),
                None => !tx.attributes.contains_key("send_sequence"@),
            }
            &&& match f.receive_sequence {
                Some(v) => tx.attributes.contains_key("receive_sequence"@)
                    && tx.attributes["receive_sequence"@] == text::dec(v as nat),
                None => !tx.attributes.contains_key("receive_sequence"@),
            }
            &&& match f.type_id {
                Some(v) => tx.attributes.contains_key("type_id"@)
                    && tx.attributes["type_id"@] == text::dec(v as nat),
                None => !tx.attributes.contains_key("type_id"@),
            }
            &&& match f.cause_of_transmission {
                Some(v) => tx.attributes.contains_key("cause"@)
                    && tx.attributes["cause"@] == text::dec(v as nat),
                None => !tx.attributes.contains_key("cause"@),
            }
            &&& match f.common_address {
                Some(v) => tx.attributes.contains_key("common_address"@)
                    && tx.attributes["common_address"@] == text::dec(v as nat),
                None => !tx.attributes.contains_key("common_address"@),
            }
            &&& match f.information_object_address {
                Some(v) => tx.attributes.contains_key("information_object_address"@)
                    && tx.attributes["information_object_address"@] == text::dec(v as nat),
                None => !tx.attributes.contains_key("information_object_address"@),
            }
        }),
{
    reveal_strlit("frame_type");
    reveal_strlit("send_sequence");
    reveal_strlit("receive_sequence");
    reveal_strlit("type_id");
    reveal_strlit("type_name");
    reveal_strlit("cause");
    reveal_strlit("cause_name");
    reveal_strlit("common_address");
    reveal_strlit("information_object_address");
    reveal_strlit("u_format");
    assert({
        &&& "frame_type"@.len() == 10
        &&& "send_sequence"@.len() == 13
        &&& "receive_sequence"@.len() == 16
        &&& "type_id"@.len() == 7
        &&& "type_name"@.len() == 9
        &&& "cause"@.len() == 5
        &&& "cause_name"@.len() == 10
        &&& "common_address"@.len() == 14
        &&& "information_object_address"@.len() == 26
        &&& "u_format"@.len() == 8
    });
    assert("frame_type"@[0] != "cause_name"@[0]);
}

/// The operation of a frame with an ASDU is its type; the typed fields name the type and the cause
/// by their numbers.
pub proof fn types_and_causes_are_named(c: ChunkView, f: Iec104Fields, n: u8, k: u16)
    requires
        f.frame_type@ == "i"@,
        f.type_id == Some(n),
        f.cause_of_transmission == Some(k),
        k < 64,
    ensures
        ({
            let tx = frame_events(c, f)[0].family->ProtocolTransaction_0;
            let t = tx.protocol_fields->Some_0->Iec104_0;
            let cause = t.cause_of_transmission_name->Some_0;
            &&& t.apci_type == "i_frame"@
            &&& t.send_sequence == f.send_sequence
            &&& t.receive_sequence == f.receive_sequence
            &&& t.asdu_type_id == Some(n)
            &&& t.asdu_type_name == Some(tx.operation)
            &&& t.cause_of_transmission == Some(k as u8)
            &&& t.cause_of_transmission_name is Some
            &&& t.common_address == f.common_address
            &&& tx.attributes["type_name"@] == tx.operation
            &&& tx.attributes["cause_name"@] == cause
            &&& n == 1 ==> tx.operation == "single_point_information"@
            &&& n == 3 ==> tx.operation == "double_point_information"@
            &&& n == 9 ==> tx.operation == "measured_value_normalized"@
            &&& n == 11 ==> tx.operation == "measured_value_scaled"@
            &&& n == 13 ==> tx.operation == "measured_value_short_float"@
            &&& n == 30 ==> tx.operation == "single_point_with_time"@
            &&& n == 45 ==> tx.operation == "single_command"@
            &&& n == 46 ==> tx.operation == "double_command"@
            &&& n == 50 ==> tx.operation == "set_point_normalized"@
            &&& n == 100 ==> tx.operation == "interrogation_command"@
            &&& n == 103 ==> tx.operation == "clock_sync_command"@
            &&& n != 1 && n != 3 && n != 9 && n != 11 && n != 13 && n != 30 && n != 45 && n != 46
                && n != 50 && n != 100 && n != 103 ==> tx.operation == "asdu_type"@
            &&& k == 1 ==> cause == "periodic"@
            &&& k == 3 ==> cause == "spontaneous"@
            &&& k == 5 ==> cause == "request"@
            &&& k == 6 ==> cause == "activation"@
            &&& k == 7 ==> cause == "activation_confirmation"@
            &&& k == 10 ==> cause == "activation_termination"@
            &&& k == 20 ==> cause == "interrogated_by_station"@
            &&& k != 1 && k != 3 && k != 5 && k != 6 && k != 7 && k != 10 && k != 20 ==> cause
                == "cause"@
        }),
{
    assert((k & 0x3F) == k) by (bit_vector)
        requires
            k < 64,
    ;
    reveal_strlit("frame_type");
    reveal_strlit("send_sequence");
    reveal_strlit("receive_sequence");
    reveal_strlit("type_id");
    reveal_strlit("type_name");
    reveal_strlit("cause");
    reveal_strlit("cause_name");
    reveal_strlit("common_address");
    reveal_strlit("information_object_address");
    reveal_strlit("u_format");
    reveal_strlit("i");
    reveal_strlit("s");
    reveal_strlit("u");
    assert({
        &&& "frame_type"@.len() == 10
        &&& "send_sequence"@.len() == 13
        &&& "receive_sequence"@.len() == 16
        &&& "type_id"@.len() == 7
        &&& "type_name"@.len() == 9
        &&& "cause"@.len() == 5
        &&& "cause_name"@.len() == 10
        &&& "common_address"@.len() == 14
        &&& "information_object_address"@.len() == 26
        &&& "u_format"@.len() == 8
        &&& "i"@.len() == 1
        &&& "s"@.len() == 1
        &&& "u"@.len() == 1
    });
    assert("frame_type"@[0] != "cause_name"@[0]);
    assert("i"@[0] != "s"@[0]);
    assert("i"@[0] != "u"@[0]);
    assert("s"@[0] != "u"@[0]);
}

/// Whatever is no S or U frame goes from the master to the outstation where it goes to port 2404,
/// and from the outstation to the master where it comes from there; the two ends are assets under
/// their own addresses, and the common address belongs to the outstation.
pub proof fn ends_follow_the_port(c: ChunkView, f: Iec104Fields)
    requires
        f.frame_type@ == "i"@,
    ensures
        ({
            let e = frame_events(c, f);
            let tx = e[0].family->ProtocolTransaction_0;
            let source = e[1].family->AssetObservation_0;
            let destination = e[2].family->AssetObservation_0;
            let link = e[3].family->TopologyObservation_0;
            &&& source.asset_key == c.context.src_ip.text()
            &&& destination.asset_key == c.context.dst_ip.text()
            &&& source.identifiers["ip"@] == c.context.src_ip.text()
            &&& destination.identifiers["ip"@] == c.context.dst_ip.text()
            &&& link.observation_type == "iec104_link"@
            &&& link.local_id == c.context.src_ip.text()
            &&& link.remote_id == Some(c.context.dst_ip.text())
            &&& link.description == Some("i"@)
            &&& c.context.dst_port == 2404 ==> source.role == Some("master"@) && destination.role
                == Some("outstation"@)
            &&& c.context.dst_port != 2404 && c.context.src_port == 2404 ==> source.role == Some(
                "outstation"@,
            ) && destination.role == Some("master"@) && tx.status == "response"@
            &&& c.context.dst_port == 2404 && c.context.src_port != 2404 ==> tx.status
                == "request"@
            &&& c.context.dst_port != 2404 && c.context.src_port != 2404 ==> tx.status
                == "observed"@ && source.role == Some("peer"@) && destination.role == Some("peer"@)
        }),
{
    reveal_strlit("i");
    reveal_strlit("s");
    reveal_strlit("u");
    reveal_strlit("ip");
    reveal_strlit("iec104_common_address");
    reveal_strlit("master");
    reveal_strlit("outstation");
    reveal_strlit("peer");
    assert({
        &&& "i"@.len() == 1
        &&& "s"@.len() == 1
        &&& "u"@.len() == 1
        &&& "ip"@.len() == 2
        &&& "iec104_common_address"@.len() == 21
        &&& "master"@.len() == 6
        &&& "outstation"@.len() == 10
        &&& "peer"@.len() == 4
    });
    assert("i"@[0] != "s"@[0]);
    assert("i"@[0] != "u"@[0]);
    assert("s"@[0] != "u"@[0]);
}

/// The ASDU of a frame is kept as an artifact where there is one.
pub proof fn asdu_is_kept(c: ChunkView, f: Iec104Fields)
    ensures
        ({
            let e = frame_events(c, f);
            &&& e.len() == (if f.payload@.len() > 0 {
                5nat
            } else {
                4
            })
            &&& f.payload@.len() > 0 ==> e[4].family == events::FamilyView::ExtractedArtifact(
                events::ArtifactView {
                    artifact_type: "iec104_asdu"@,
                    artifact_key: c.session_key + ":"@ + text::dec(c.frame_index as nat),
                    mime_type: Some("application/octet-stream"@),
                    description: Some("IEC 60870-5-104 ASDU payload"@),
                    content: f.payload@,
                },
            )
        }),
{
}

} // verus!
