use ot_decoders::events::{BronzeEvent, BronzeEventFamily, ProtocolFields, ProtocolTransaction};
use ot_decoders::iec104::{Iec104BronzeFields, Iec104DecoderWrapper, Iec104Fields};
use ot_decoders::packet::{IpAddress, PacketContext, StreamChunk, Timestamp, TransportProtocol};

const NOW: Timestamp = Timestamp { seconds: 1_700_000_000, nanos: 0 };

/// PacketContext mimicking a master→outstation direction (client→2404).
fn ctx_master_to_outstation() -> PacketContext {
    PacketContext {
        src_mac: [0; 6],
        dst_mac: [0; 6],
        src_ip: IpAddress::V4([10, 0, 0, 1]),
        dst_ip: IpAddress::V4([10, 0, 0, 2]),
        src_port: 50000,
        dst_port: 2404,
        vlan_id: None,
        timestamp: 0,
    }
}

/// PacketContext mimicking outstation→master direction (2404→client).
fn ctx_outstation_to_master() -> PacketContext {
    PacketContext {
        src_mac: [0; 6],
        dst_mac: [0; 6],
        src_ip: IpAddress::V4([10, 0, 0, 2]),
        dst_ip: IpAddress::V4([10, 0, 0, 1]),
        src_port: 2404,
        dst_port: 50000,
        vlan_id: None,
        timestamp: 0,
    }
}

fn make_chunk<'a>(payload: &'a [u8], context: PacketContext) -> StreamChunk<'a> {
    StreamChunk {
        capture_id: "test",
        segment_hash: "aa",
        interface_id: 0,
        frame_index: 0,
        timestamp: NOW,
        context,
        ethertype: 0x0800,
        ip_proto: Some(6),
        llc: None,
        transport: TransportProtocol::Tcp,
        payload,
        session_key: "sess".to_string(),
        captured_len: payload.len() as u64,
    }
}

/// The fields of one frame.
fn dissect(p: &[u8]) -> Vec<Iec104Fields> {
    if p.len() < 6 || p[0] != 0x68 || p.len() < 2 + p[1] as usize {
        return Vec::new();
    }
    let mut f = Iec104Fields {
        frame_type: "i".to_string(),
        send_sequence: None,
        receive_sequence: None,
        u_format: None,
        type_id: None,
        cause_of_transmission: None,
        common_address: None,
        information_object_address: None,
        payload: p[6..].to_vec(),
    };
    if p[2] & 1 == 0 {
        f.send_sequence = Some(u16::from_le_bytes([p[2], p[3]]) >> 1);
        f.receive_sequence = Some(u16::from_le_bytes([p[4], p[5]]) >> 1);
        f.type_id = Some(p[6]);
        f.cause_of_transmission = Some(u16::from_le_bytes([p[8], p[9]]));
        f.common_address = Some(u16::from_le_bytes([p[10], p[11]]));
        f.information_object_address = Some(u32::from_le_bytes([p[12], p[13], p[14], 0]));
    } else if p[2] & 2 == 0 {
        f.frame_type = "s".to_string();
        f.receive_sequence = Some(u16::from_le_bytes([p[4], p[5]]) >> 1);
    } else {
        f.frame_type = "u".to_string();
        f.u_format = Some(
            match p[2] {
                0x07 => "startdt_act",
                0x43 => "testfr_act",
                _ => "unknown",
            }
            .to_string(),
        );
    }
    vec![f]
}

fn txns(events: &[BronzeEvent]) -> Vec<&ProtocolTransaction> {
    events
        .iter()
        .filter_map(|e| {
            if let BronzeEventFamily::ProtocolTransaction(ref t) = e.family {
                Some(t)
            } else {
                None
            }
        })
        .collect()
}

fn iec104_fields(tx: &ProtocolTransaction) -> &Iec104BronzeFields {
    match tx.protocol_fields.as_ref().expect("protocol_fields must be Some") {
        ProtocolFields::Iec104(f) => f,
        other => panic!("expected Iec104 variant, got {:?}", other),
    }
}

// -----------------------------------------------------------------------
// I-frame: N(S)=3 N(R)=5, M_SP_NA_1 (type_id=1), cause=spontaneous (3)
// APDU: 0x68 len ctrl0 ctrl1 ctrl2 ctrl3 type_id vsq cot0 cot1 ca0 ca1 ioa0 ioa1 ioa2 ...
//   ctrl: I-frame N(S)=3 → bytes [6,0], N(R)=5 → bytes [10,0]
//   ASDU: type_id=1, vsq=0x01, cot_lo=0x03, cot_hi=0x00, ca=0x0001, ioa=0
fn i_frame_single_point() -> Vec<u8> {
    vec![
        0x68, 0x0E, // start + apdu_len=14
        0x06, 0x00, // ctrl[0..1]: N(S)=3  (6 >> 1 = 3)
        0x0A, 0x00, // ctrl[2..3]: N(R)=5  (10 >> 1 = 5)
        // ASDU (8 bytes)
        0x01, // type_id = 1 (M_SP_NA_1)
        0x01, // VSQ: SQ=0, num=1
        0x03, 0x00, // COT lo=3 (spontaneous), hi=0
        0x01, 0x00, // CA = 1
        0x00, 0x00, 0x00, // IOA = 0
        0x00, // info object value
    ]
}

// S-frame: N(R)=5
fn s_frame() -> Vec<u8> {
    vec![
        0x68, 0x04, // start + apdu_len=4
        0x01, 0x00, // ctrl[0..1]: S-frame (bit0=1, bit1=0)
        0x0A, 0x00, // ctrl[2..3]: N(R)=5
    ]
}

// U-frame: STARTDT_act (0x07)
fn u_frame_startdt_act() -> Vec<u8> {
    vec![
        0x68, 0x04, // start + apdu_len=4
        0x07, 0x00, 0x00, 0x00, // ctrl: 0x07 = U-frame STARTDT_act
    ]
}

// U-frame: TESTFR_act (0x43)
fn u_frame_testfr_act() -> Vec<u8> {
    vec![
        0x68, 0x04, // start + apdu_len=4
        0x43, 0x00, 0x00, 0x00, // ctrl: 0x43 = U-frame TESTFR_act
    ]
}

// C_SC_NA_1 = 45, cot=6 (activation) to outstation port 2404
fn i_frame_single_command() -> Vec<u8> {
    vec![
        0x68, 0x0E,
        0x00, 0x00, // N(S)=0
        0x00, 0x00, // N(R)=0
        0x2D, // type_id = 45 (C_SC_NA_1)
        0x01, // VSQ
        0x06, 0x00, // COT = 6 (activation)
        0x0A, 0x00, // CA = 10
        0x01, 0x00, 0x00, // IOA = 1
        0x01, // SCO
    ]
}

// -----------------------------------------------------------------------

/// I-frame yields apci_type=i_frame, correct N(S)/N(R), type 1 M_SP_NA_1.
#[test]
fn i_frame_typed_fields_send_receive_sequence_and_asdu_type() {
    let payload = i_frame_single_point();
    let mut dec = Iec104DecoderWrapper::default();
    let mut out = Vec::new();
    dec.on_stream_chunk(&make_chunk(&payload, ctx_outstation_to_master()), dissect(&payload), &mut out);

    let txns = txns(&out);
    assert!(!txns.is_empty(), "expected at least one ProtocolTransaction");
    let f = iec104_fields(txns[0]);

    assert_eq!(f.apci_type, "i_frame");
    assert_eq!(f.send_sequence, Some(3));
    assert_eq!(f.receive_sequence, Some(5));
    assert_eq!(f.u_function, None);
    assert_eq!(f.asdu_type_id, Some(1));
    assert_eq!(f.asdu_type_name.as_deref(), Some("single_point_information"));
}

/// S-frame yields apci_type=s_frame, N(R) set, send_sequence None.
#[test]
fn s_frame_typed_fields_receive_sequence_only() {
    let payload = s_frame();
    let mut dec = Iec104DecoderWrapper::default();
    let mut out = Vec::new();
    dec.on_stream_chunk(&make_chunk(&payload, ctx_outstation_to_master()), dissect(&payload), &mut out);

    let txns = txns(&out);
    assert!(!txns.is_empty(), "expected at least one ProtocolTransaction");
    let f = iec104_fields(txns[0]);

    assert_eq!(f.apci_type, "s_frame");
    assert_eq!(f.send_sequence, None);
    assert_eq!(f.receive_sequence, Some(5));
    assert_eq!(f.asdu_type_id, None);
}

/// U-frame STARTDT_act yields apci_type=u_frame, u_function=startdt_act.
#[test]
fn u_frame_startdt_act_typed_fields() {
    let payload = u_frame_startdt_act();
    let mut dec = Iec104DecoderWrapper::default();
    let mut out = Vec::new();
    dec.on_stream_chunk(&make_chunk(&payload, ctx_master_to_outstation()), dissect(&payload), &mut out);

    let txns = txns(&out);
    assert!(!txns.is_empty(), "expected at least one ProtocolTransaction");
    let f = iec104_fields(txns[0]);

    assert_eq!(f.apci_type, "u_frame");
    assert_eq!(f.u_function.as_deref(), Some("startdt_act"));
    assert_eq!(f.send_sequence, None);
    assert_eq!(f.receive_sequence, None);
}

/// U-frame TESTFR_act yields u_function=testfr_act, direction=request.
#[test]
fn u_frame_testfr_act_direction_request() {
    let payload = u_frame_testfr_act();
    let mut dec = Iec104DecoderWrapper::default();
    let mut out = Vec::new();
    dec.on_stream_chunk(&make_chunk(&payload, ctx_master_to_outstation()), dissect(&payload), &mut out);

    let txns = txns(&out);
    assert!(!txns.is_empty(), "expected at least one ProtocolTransaction");
    let f = iec104_fields(txns[0]);

    assert_eq!(f.u_function.as_deref(), Some("testfr_act"));
    assert_eq!(f.direction, "request");
}

/// C_SC_NA_1 (type 45) activation command to port 2404 is typed correctly
/// and direction=request.
#[test]
fn c_sc_na_1_control_direction_and_cot_activation() {
    let payload = i_frame_single_command();
    let mut dec = Iec104DecoderWrapper::default();
    let mut out = Vec::new();
    dec.on_stream_chunk(&make_chunk(&payload, ctx_master_to_outstation()), dissect(&payload), &mut out);

    let txns = txns(&out);
    assert!(!txns.is_empty(), "expected at least one ProtocolTransaction");
    let f = iec104_fields(txns[0]);

    assert_eq!(f.asdu_type_id, Some(45));
    assert_eq!(f.asdu_type_name.as_deref(), Some("single_command"));
    assert_eq!(f.cause_of_transmission, Some(6));
    assert_eq!(f.cause_of_transmission_name.as_deref(), Some("activation"));
    assert_eq!(f.common_address, Some(10));
    assert_eq!(f.direction, "request");
}

/// Typed fields are present and the `attributes` map is populated too.
#[test]
fn attributes_map_still_populated_alongside_typed_fields() {
    let payload = i_frame_single_point();
    let mut dec = Iec104DecoderWrapper::default();
    let mut out = Vec::new();
    dec.on_stream_chunk(&make_chunk(&payload, ctx_outstation_to_master()), dissect(&payload), &mut out);

    let txns = txns(&out);
    assert!(!txns.is_empty());
    let tx = txns[0];

    // Typed surface present.
    assert!(tx.protocol_fields.is_some());
    // Attribute map present.
    assert!(tx.attributes.contains_key("frame_type"), "frame_type missing from attributes");
    assert!(tx.attributes.contains_key("type_id"), "type_id missing from attributes");
    assert!(tx.attributes.contains_key("type_name"), "type_name missing from attributes");
    assert!(tx.attributes.contains_key("cause"), "cause missing from attributes");
    assert!(tx.attributes.contains_key("common_address"), "common_address missing from attributes");
    assert_eq!(tx.attributes.get("frame_type").map(String::as_str), Some("i"));
    assert_eq!(tx.attributes.get("type_id").map(String::as_str), Some("1"));
}

/// M_SP_NA_1 (type 1) resolves to the correct type name in typed fields.
#[test]
fn m_sp_na_1_type_name_in_typed_fields() {
    let payload = i_frame_single_point();
    let mut dec = Iec104DecoderWrapper::default();
    let mut out = Vec::new();
    dec.on_stream_chunk(&make_chunk(&payload, ctx_outstation_to_master()), dissect(&payload), &mut out);

    let txns = txns(&out);
    let f = iec104_fields(txns[0]);
    assert_eq!(f.asdu_type_id, Some(1));
    assert_eq!(f.asdu_type_name.as_deref(), Some("single_point_information"));
    assert_eq!(f.cause_of_transmission, Some(3));
    assert_eq!(f.cause_of_transmission_name.as_deref(), Some("spontaneous"));
}

// -----------------------------------------------------------------------
// Stations, causes and directions
// -----------------------------------------------------------------------

fn asset_roles(events: &[BronzeEvent]) -> Vec<(String, bool)> {
    events
        .iter()
        .filter_map(|e| match &e.family {
            BronzeEventFamily::AssetObservation(a) => Some((
                a.role.clone().unwrap(),
                a.identifiers.contains_key("iec104_common_address"),
            )),
            _ => None,
        })
        .collect()
}

/// The station on the well-known port is the outstation, and only it has the common address.
#[test]
fn outstation_is_the_station_on_the_port() {
    let payload = i_frame_single_command();
    let mut out = Vec::new();
    Iec104DecoderWrapper.on_stream_chunk(
        &make_chunk(&payload, ctx_master_to_outstation()),
        dissect(&payload),
        &mut out,
    );
    assert_eq!(
        asset_roles(&out),
        [("master".to_string(), false), ("outstation".to_string(), true)]
    );
    out.clear();
    Iec104DecoderWrapper.on_stream_chunk(
        &make_chunk(&payload, ctx_outstation_to_master()),
        dissect(&payload),
        &mut out,
    );
    assert_eq!(
        asset_roles(&out),
        [("outstation".to_string(), true), ("master".to_string(), false)]
    );
}

/// The typed cause keeps six bits; the direction is the status.
#[test]
fn typed_cause_has_six_bits_and_direction_is_status() {
    let mut payload = i_frame_single_command();
    payload[8] = 0xC6; // test and negative-confirm bits set
    let mut out = Vec::new();
    Iec104DecoderWrapper.on_stream_chunk(
        &make_chunk(&payload, ctx_master_to_outstation()),
        dissect(&payload),
        &mut out,
    );
    let tx = txns(&out)[0];
    let f = iec104_fields(tx);
    assert_eq!(f.cause_of_transmission, Some(6));
    assert_eq!(f.direction, tx.status);
}

/// A chunk without frames is an anomaly.
#[test]
fn no_frames_is_an_anomaly() {
    let mut out = Vec::new();
    Iec104DecoderWrapper.on_stream_chunk(
        &make_chunk(&[1, 2, 3], ctx_master_to_outstation()),
        Vec::new(),
        &mut out,
    );
    assert_eq!(out.len(), 1);
    let BronzeEventFamily::ParseAnomaly(a) = &out[0].family else { panic!() };
    assert_eq!(a.decoder, "iec104");
    assert_eq!(a.severity, "medium");
}

/// Every frame of a chunk gives a transaction and two stations.
#[test]
fn every_frame_of_a_chunk_is_one_transaction() {
    let payload = i_frame_single_command();
    let mut frames = dissect(&payload);
    frames.extend(dissect(&[0x68, 4, 0x43, 0, 0, 0]));
    frames.extend(dissect(&payload));
    assert_eq!(frames.len(), 3);
    let mut out = Vec::new();
    Iec104DecoderWrapper.on_stream_chunk(
        &make_chunk(&payload, ctx_master_to_outstation()),
        frames,
        &mut out,
    );
    assert_eq!(txns(&out).len(), 3);
    assert_eq!(asset_roles(&out).len(), 6);
    // A frame without a common address gives the outstation none.
    assert_eq!(asset_roles(&out)[3], ("outstation".to_string(), false));
    assert_eq!(asset_roles(&out)[5], ("outstation".to_string(), true));
}
