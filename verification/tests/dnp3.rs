use ot_decoders::dnp3::{extract_object_groups, Dnp3DecoderWrapper, Dnp3Fields};
use ot_decoders::events::{BronzeEvent, BronzeEventFamily, ProtocolFields, ProtocolTransaction};
use ot_decoders::packet::{IpAddress, PacketContext, StreamChunk, Timestamp, TransportProtocol};

const NOW: Timestamp = Timestamp { seconds: 1_700_000_000, nanos: 0 };

fn ctx(src_port: u16, dst_port: u16) -> PacketContext {
    PacketContext {
        src_ip: IpAddress::V4([10, 0, 0, 1]),
        dst_ip: IpAddress::V4([10, 0, 0, 2]),
        src_port,
        dst_port,
        src_mac: [0u8; 6],
        dst_mac: [0u8; 6],
        vlan_id: None,
        timestamp: 0,
    }
}

fn feed(
    dec: &mut Dnp3DecoderWrapper,
    payload: &[u8],
    src_port: u16,
    dst_port: u16,
    out: &mut Vec<BronzeEvent>,
) {
    let chunk = StreamChunk {
        capture_id: "cap",
        segment_hash: "aa",
        interface_id: 0,
        frame_index: 1,
        timestamp: NOW,
        context: ctx(src_port, dst_port),
        ethertype: 0x0800,
        ip_proto: Some(6),
        llc: None,
        transport: TransportProtocol::Tcp,
        payload,
        session_key: "10.0.0.1-10.0.0.2-49152-20000".to_string(),
        captured_len: payload.len() as u64,
    };
    dec.on_stream_chunk(&chunk, dissect(payload), out);
}

/// The fields of a frame: link header, transport octet, application header and, in
/// responses, the internal indications.
fn dissect(p: &[u8]) -> Option<Dnp3Fields> {
    if p.len() < 13 || p[0] != 0x05 || p[1] != 0x64 {
        return None;
    }
    let is_response = p[12] == 0x81 || p[12] == 0x82;
    Some(Dnp3Fields {
        source_address: u16::from_le_bytes([p[6], p[7]]),
        destination_address: u16::from_le_bytes([p[4], p[5]]),
        function_code: p[12],
        application_data: p[if is_response { 15 } else { 13 }..].to_vec(),
        dll_control: p[3],
        transport_seq: p[10] & 0x3F,
        transport_fir: p[10] & 0x40 != 0,
        transport_fin: p[10] & 0x80 != 0,
        app_control: p[11],
        iin: if is_response { Some(u16::from_le_bytes([p[13], p[14]])) } else { None },
    })
}

/// Minimal DNP3 Read request frame: DLL + transport + application.
fn read_request_bytes() -> Vec<u8> {
    vec![
        0x05, 0x64, // start bytes
        0x08, // length
        0xC4, // DLL control (DIR=1, PRM=1, FC=4)
        0x01, 0x00, // destination = 1
        0x03, 0x00, // source = 3
        0xAA, 0xBB, // CRC (not validated)
        0xC0, // transport: FIR=1, FIN=1, seq=0
        0xC2, // app control: FIR=1, FIN=1, CON=0, UNS=0, seq=2
        0x01, // function code = Read (0x01)
        // Object header: group=60 variation=2 qualifier=0x06 (no range, all)
        0x3C, 0x02, 0x06,
    ]
}

/// Minimal DNP3 Response frame (fc=0x81) with IIN bytes.
fn response_bytes(iin1: u8, iin2: u8) -> Vec<u8> {
    vec![
        0x05, 0x64, 0x0A, 0x44, 0x03, 0x00, // destination = 3
        0x01, 0x00, // source = 1
        0xCC, 0xDD, // CRC
        0xC0, // transport: FIR=1, FIN=1, seq=0
        0xC5, // app control: FIR=1, FIN=1, CON=0, UNS=0, seq=5
        0x81, // function code = Response
        iin1, iin2, // IIN bytes
        // Object header: group=30 variation=1 qualifier=0x01 (1-byte start/stop)
        0x1E, 0x01, 0x01, 0x00, 0x00,
    ]
}

/// DNP3 Unsolicited Response frame (fc=0x82), IIN device_restart bit set.
fn unsolicited_response_bytes() -> Vec<u8> {
    vec![
        0x05, 0x64, 0x08, 0x44, 0x03, 0x00, // destination = 3
        0x01, 0x00, // source = 1
        0x00, 0x00, // CRC
        0xC0, // transport
        0xC0, // app control: seq=0
        0x82, // function code = UnsolicitedResponse
        0x80, 0x00, // IIN: device_restart bit (IIN1 bit 7)
    ]
}

fn extract_txn(ev: &BronzeEvent) -> &ProtocolTransaction {
    match &ev.family {
        BronzeEventFamily::ProtocolTransaction(tx) => tx,
        other => panic!("expected ProtocolTransaction, got {other:?}"),
    }
}

// --------------------------------------------------------------------------
// Test 1: Read request → ProtocolFields::Dnp3 populated, direction=request
// --------------------------------------------------------------------------
#[test]
fn read_request_produces_dnp3_bronze_fields() {
    let mut dec = Dnp3DecoderWrapper::default();
    let mut out = Vec::new();
    feed(&mut dec, &read_request_bytes(), 49152, 20000, &mut out);

    // First event is the ProtocolTransaction; remaining are AssetObservations + Topology.
    let txn = extract_txn(&out[0]);

    let Some(ProtocolFields::Dnp3(ref f)) = txn.protocol_fields else {
        panic!(
            "expected ProtocolFields::Dnp3, got {:?}",
            txn.protocol_fields
        );
    };

    assert_eq!(f.source_addr, 3);
    assert_eq!(f.destination_addr, 1);
    assert_eq!(f.application_function_code, 0x01);
    assert_eq!(f.application_function_name, "Read");
    assert_eq!(f.direction, "request");
    assert_eq!(f.application_seq, 2); // low nibble of app_control 0xC2
    assert_eq!(f.transport_fir, true);
    assert_eq!(f.transport_fin, true);
    assert_eq!(f.iin_flags, None); // requests have no IIN
}

// --------------------------------------------------------------------------
// Test 2: Response → direction=response, status="response", IIN extracted
// --------------------------------------------------------------------------
#[test]
fn response_produces_dnp3_bronze_fields_with_iin() {
    let mut dec = Dnp3DecoderWrapper::default();
    let mut out = Vec::new();
    // IIN1=0x80 (device_restart), IIN2=0x00
    feed(
        &mut dec,
        &response_bytes(0x80, 0x00),
        20000,
        49152,
        &mut out,
    );

    let txn = extract_txn(&out[0]);

    assert_eq!(txn.status, "response");

    let Some(ProtocolFields::Dnp3(ref f)) = txn.protocol_fields else {
        panic!("expected ProtocolFields::Dnp3");
    };

    assert_eq!(f.application_function_code, 0x81);
    assert_eq!(f.application_function_name, "Response");
    assert_eq!(f.direction, "response");
    // IIN word = IIN1 | (IIN2 << 8) = 0x0080
    assert_eq!(f.iin_flags, Some(0x0080));
    assert_eq!(f.source_addr, 1);
    assert_eq!(f.destination_addr, 3);
    assert_eq!(f.application_seq, 5); // low nibble of 0xC5
}

// --------------------------------------------------------------------------
// Test 3: IIN flags — no flags set → 0x0000
// --------------------------------------------------------------------------
#[test]
fn response_iin_no_flags() {
    let mut dec = Dnp3DecoderWrapper::default();
    let mut out = Vec::new();
    feed(
        &mut dec,
        &response_bytes(0x00, 0x00),
        20000,
        49152,
        &mut out,
    );

    let txn = extract_txn(&out[0]);
    let Some(ProtocolFields::Dnp3(ref f)) = txn.protocol_fields else {
        panic!("expected ProtocolFields::Dnp3");
    };
    assert_eq!(f.iin_flags, Some(0x0000));
}

// --------------------------------------------------------------------------
// Test 4: Unsolicited response → direction=unsolicited
// --------------------------------------------------------------------------
#[test]
fn unsolicited_response_direction() {
    let mut dec = Dnp3DecoderWrapper::default();
    let mut out = Vec::new();
    feed(
        &mut dec,
        &unsolicited_response_bytes(),
        20000,
        49152,
        &mut out,
    );

    let txn = extract_txn(&out[0]);
    let Some(ProtocolFields::Dnp3(ref f)) = txn.protocol_fields else {
        panic!("expected ProtocolFields::Dnp3");
    };
    assert_eq!(f.application_function_code, 0x82);
    assert_eq!(f.application_function_name, "UnsolicitedResponse");
    assert_eq!(f.direction, "unsolicited");
    assert_eq!(f.iin_flags, Some(0x0080)); // IIN1=0x80 device_restart
}

// --------------------------------------------------------------------------
// Test 5: Object groups extracted from Read request payload (group 60)
// --------------------------------------------------------------------------
#[test]
fn read_request_object_groups_extracted() {
    let mut dec = Dnp3DecoderWrapper::default();
    let mut out = Vec::new();
    feed(&mut dec, &read_request_bytes(), 49152, 20000, &mut out);

    let txn = extract_txn(&out[0]);
    let Some(ProtocolFields::Dnp3(ref f)) = txn.protocol_fields else {
        panic!("expected ProtocolFields::Dnp3");
    };
    // Object header has group=0x3C (60 decimal) with qualifier=0x06 (no range)
    // Our scanner stops at qualifier 0x06 (range_class 0x00 → 0 range bytes, break),
    // so we still capture group 60 before the break.
    assert!(
        f.object_groups.contains(&60),
        "expected group 60 in {:?}",
        f.object_groups
    );
}

// --------------------------------------------------------------------------
// Test 6: Response with group 30 in payload
// --------------------------------------------------------------------------
#[test]
fn response_object_groups_extracted() {
    let mut dec = Dnp3DecoderWrapper::default();
    let mut out = Vec::new();
    feed(
        &mut dec,
        &response_bytes(0x00, 0x00),
        20000,
        49152,
        &mut out,
    );

    let txn = extract_txn(&out[0]);
    let Some(ProtocolFields::Dnp3(ref f)) = txn.protocol_fields else {
        panic!("expected ProtocolFields::Dnp3");
    };
    // Object header group=0x1E (30), variation=0x01, qualifier=0x01 (1-byte start/stop)
    assert!(
        f.object_groups.contains(&30),
        "expected group 30 in {:?}",
        f.object_groups
    );
}

// --------------------------------------------------------------------------
// Test 7: attributes populated alongside protocol_fields
// --------------------------------------------------------------------------
#[test]
fn attributes_still_populated_alongside_protocol_fields() {
    let mut dec = Dnp3DecoderWrapper::default();
    let mut out = Vec::new();
    feed(&mut dec, &read_request_bytes(), 49152, 20000, &mut out);

    let txn = extract_txn(&out[0]);

    // Typed surface present
    assert!(
        txn.protocol_fields.is_some(),
        "protocol_fields must be Some"
    );
    // The attribute map is filled too
    assert_eq!(txn.attributes.get("source_address"), Some(&"3".to_string()));
    assert_eq!(
        txn.attributes.get("destination_address"),
        Some(&"1".to_string())
    );
}

// --------------------------------------------------------------------------
// Labels, groups and directions
// --------------------------------------------------------------------------
#[test]
fn object_groups_are_distinct_and_come_from_the_data() {
    // Two headers of group 30 and one of group 1, with 8-bit start and stop.
    let data = [30, 1, 0x01, 0, 0, 30, 2, 0x01, 0, 0, 1, 2, 0x01, 0, 0];
    let groups = extract_object_groups(&data);
    assert!(groups.iter().all(|g| data.contains(g)));
    for (i, g) in groups.iter().enumerate() {
        assert!(!groups[i + 1..].contains(g));
    }
    assert_eq!(groups.first(), Some(&30));
    assert!(extract_object_groups(&[]).is_empty());
    assert!(extract_object_groups(&[30, 1]).is_empty());
}

#[test]
fn direction_agrees_with_status_but_for_unsolicited_responses() {
    for (bytes, status, direction) in [
        (read_request_bytes(), "request", "request"),
        (response_bytes(0, 0), "response", "response"),
        (unsolicited_response_bytes(), "response", "unsolicited"),
    ] {
        let mut out = Vec::new();
        feed(&mut Dnp3DecoderWrapper, &bytes, 49152, 20000, &mut out);
        let txn = extract_txn(&out[0]);
        let Some(ProtocolFields::Dnp3(f)) = &txn.protocol_fields else { panic!() };
        assert_eq!(txn.status, status);
        assert_eq!(f.direction, direction);
    }
}

#[test]
fn unparsed_dnp3_is_an_anomaly() {
    let mut out = Vec::new();
    feed(&mut Dnp3DecoderWrapper, &[1, 2, 3], 49152, 20000, &mut out);
    assert_eq!(out.len(), 1);
    let BronzeEventFamily::ParseAnomaly(a) = &out[0].family else { panic!() };
    assert_eq!(a.decoder, "dnp3");
    assert_eq!(a.severity, "medium");
}
