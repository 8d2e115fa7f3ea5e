use ot_decoders::bacnet_sc::{bvlc_operation_name, format_vmac, BacnetScDecoder};
use ot_decoders::events::{
    AssetObservation, BronzeEvent, BronzeEventFamily, ParseAnomaly, ProtocolTransaction,
};
use ot_decoders::packet::{
    DecoderInterest, IpAddress, PacketContext, StreamChunk, Timestamp, TransportProtocol,
};

const NOW: Timestamp = Timestamp { seconds: 1_700_000_000, nanos: 0 };

// ── Test infrastructure ────────────────────────────────────────────────────

fn make_context(dst_port: u16) -> PacketContext {
    PacketContext {
        src_ip: IpAddress::V4([10, 0, 0, 1]),
        dst_ip: IpAddress::V4([10, 0, 0, 2]),
        src_port: 55000,
        dst_port,
        src_mac: [0x00, 0x11, 0x22, 0x33, 0x44, 0x55],
        dst_mac: [0xAA, 0xBB, 0xCC, 0xDD, 0xEE, 0xFF],
        vlan_id: None,
        timestamp: 0,
    }
}

fn make_chunk<'a>(payload: &'a [u8], context: &'a PacketContext) -> StreamChunk<'a> {
    StreamChunk {
        capture_id: "test_cap",
        segment_hash: "deadbeef",
        interface_id: 0,
        frame_index: 1,
        timestamp: NOW,
        context: context.clone(),
        ethertype: 0x0800,
        ip_proto: Some(6),
        llc: None,
        transport: TransportProtocol::Tcp,
        payload,
        session_key: "sess-1".to_string(),
        captured_len: payload.len() as u64,
    }
}

fn extract_transaction(ev: &BronzeEvent) -> &ProtocolTransaction {
    match &ev.family {
        BronzeEventFamily::ProtocolTransaction(tx) => tx,
        other => panic!("expected ProtocolTransaction, got {other:?}"),
    }
}

fn extract_asset(ev: &BronzeEvent) -> &AssetObservation {
    match &ev.family {
        BronzeEventFamily::AssetObservation(a) => a,
        other => panic!("expected AssetObservation, got {other:?}"),
    }
}

fn extract_anomaly(ev: &BronzeEvent) -> &ParseAnomaly {
    match &ev.family {
        BronzeEventFamily::ParseAnomaly(a) => a,
        other => panic!("expected ParseAnomaly, got {other:?}"),
    }
}

// ── Test 1: TLS handshake byte (0x16) on port 47808 ───────────────────────
//
// A TLS ClientHello is the first byte from a connecting BACnet/SC node.
// We expect one ProtocolTransaction("bacnet_sc_tls_session") and one
// AssetObservation for the destination.

#[test]
fn tls_handshake_on_47808_emits_session_event() {
    let mut dec = BacnetScDecoder::default();
    let mut out = Vec::new();

    // 0x16 = TLS Handshake record type (ClientHello).
    let payload = [0x16u8, 0x03, 0x01, 0x00, 0x28];
    let ctx = make_context(47808);
    dec.on_stream_chunk(&make_chunk(&payload, &ctx), &mut out);

    assert_eq!(out.len(), 2, "expected 2 events (transaction + asset), got {}", out.len());

    let tx = extract_transaction(&out[0]);
    assert_eq!(tx.operation, "bacnet_sc_tls_session");
    assert_eq!(tx.status, "observed");
    assert_eq!(
        tx.attributes.get("note").map(String::as_str),
        Some("TLS-wrapped WebSocket; payload opaque")
    );

    let asset = extract_asset(&out[1]);
    assert_eq!(asset.role.as_deref(), Some("bacnet_sc_endpoint"));
    assert_eq!(asset.identifiers.get("port").map(String::as_str), Some("47808"));

    // Subsequent chunks on the same session must NOT re-emit.
    let payload2 = [0x17u8, 0x03, 0x03, 0x00, 0x10];
    dec.on_stream_chunk(&make_chunk(&payload2, &ctx), &mut out);
    assert_eq!(out.len(), 2, "duplicate TLS session event must not be emitted");
}

// ── Test 2: Plaintext Connect-Request (0x06) with no VMACs ────────────────

#[test]
fn plaintext_connect_request_no_vmacs() {
    let mut dec = BacnetScDecoder::default();
    let mut out = Vec::new();

    // function=0x06, control=0x00 (no VMACs), message_id=0x0001
    let payload = [0x06u8, 0x00, 0x00, 0x01];
    let ctx = make_context(47808);
    dec.on_stream_chunk(&make_chunk(&payload, &ctx), &mut out);

    // Should emit exactly 1 ProtocolTransaction; no AssetObservation (no VMAC).
    assert_eq!(out.len(), 1, "expected 1 event, got {}", out.len());
    let tx = extract_transaction(&out[0]);
    assert_eq!(tx.operation, "bacnet_sc_connect_request");
    assert_eq!(tx.status, "observed");
    assert_eq!(tx.attributes.get("message_id").map(String::as_str), Some("1"));
    assert_eq!(
        tx.attributes.get("function_code").map(String::as_str),
        Some("0x06")
    );
    assert!(
        !tx.attributes.contains_key("originating_vmac"),
        "no originating VMAC expected"
    );
}

// ── Test 3: Encapsulated-NPDU (0x01) with both originating and destination VMACs ─

#[test]
fn encapsulated_npdu_with_both_vmacs() {
    let mut dec = BacnetScDecoder::default();
    let mut out = Vec::new();

    // control = 0x03 → bits 0 (dst) and 1 (orig) both set
    // originating VMAC = aa:bb:cc:dd:ee:ff
    // destination VMAC = 11:22:33:44:55:66
    // message_id = 0x0042
    let orig: [u8; 6] = [0xAA, 0xBB, 0xCC, 0xDD, 0xEE, 0xFF];
    let dst: [u8; 6] = [0x11, 0x22, 0x33, 0x44, 0x55, 0x66];

    let mut payload = vec![0x01u8, 0x03, 0x00, 0x42];
    payload.extend_from_slice(&orig);
    payload.extend_from_slice(&dst);
    // trailing APDU bytes (ignored at this layer)
    payload.extend_from_slice(&[0x81, 0x0A, 0x00, 0x04]);

    let ctx = make_context(47808);
    dec.on_stream_chunk(&make_chunk(&payload, &ctx), &mut out);

    // Expect: 1 ProtocolTransaction + 1 AssetObservation (for originating VMAC).
    assert_eq!(out.len(), 2, "expected 2 events, got {}", out.len());

    let tx = extract_transaction(&out[0]);
    assert_eq!(tx.operation, "bacnet_sc_encapsulated_npdu");
    assert_eq!(tx.attributes.get("originating_vmac").unwrap(), "aabbccddeeff");
    assert_eq!(tx.attributes.get("destination_vmac").unwrap(), "112233445566");

    let asset = extract_asset(&out[1]);
    assert_eq!(asset.role.as_deref(), Some("bacnet_sc_node"));
    assert_eq!(
        asset.identifiers.get("vmac").map(String::as_str),
        Some("aabbccddeeff")
    );
}

// ── Test 4: Heartbeat-Request (0x0A) ──────────────────────────────────────

#[test]
fn heartbeat_request_emits_correct_operation() {
    let mut dec = BacnetScDecoder::default();
    let mut out = Vec::new();

    // function=0x0A, control=0x00, message_id=0x0007
    let payload = [0x0Au8, 0x00, 0x00, 0x07];
    let ctx = make_context(4843); // hub-direct port
    dec.on_stream_chunk(&make_chunk(&payload, &ctx), &mut out);

    assert_eq!(out.len(), 1);
    let tx = extract_transaction(&out[0]);
    assert_eq!(tx.operation, "bacnet_sc_heartbeat_request");
    assert_eq!(tx.attributes.get("control_flags_hex").unwrap(), "0x00");
    assert_eq!(tx.attributes.get("message_id").unwrap(), "7");
}

// ── Test 5: Unknown function code 0x99 → anomaly + unknown operation ───────

#[test]
fn unknown_function_code_emits_anomaly_and_transaction() {
    let mut dec = BacnetScDecoder::default();
    let mut out = Vec::new();

    // function=0x99, control=0x00, message_id=0x0001
    let payload = [0x99u8, 0x00, 0x00, 0x01];
    let ctx = make_context(47808);
    dec.on_stream_chunk(&make_chunk(&payload, &ctx), &mut out);

    // Expect: 1 ParseAnomaly + 1 ProtocolTransaction.
    assert_eq!(out.len(), 2, "expected anomaly + transaction, got {}", out.len());

    let anomaly = extract_anomaly(&out[0]);
    assert_eq!(anomaly.severity, "low");
    assert!(
        anomaly.reason.contains("0x99"),
        "reason should mention function code, got: {}",
        anomaly.reason
    );

    let tx = extract_transaction(&out[1]);
    assert_eq!(tx.operation, "bacnet_sc_unknown_0x99");
    assert_eq!(tx.status, "observed");
}

// ── Additional: verify interest ports ─────────────────────────────────────

#[test]
fn decoder_interests_cover_both_ports() {
    let dec = BacnetScDecoder::default();
    let interests = dec.interest();
    assert!(interests.contains(&DecoderInterest::TcpPort(47808)));
    assert!(interests.contains(&DecoderInterest::TcpPort(4843)));
}

// ── A TLS session is reported once ────────────────────────────────────────

#[test]
fn later_tls_records_of_a_session_are_silent() {
    let mut dec = BacnetScDecoder::default();
    let ctx = make_context(47808);
    let record = [0x16, 0x03, 0x03, 0x00, 0x05];
    let mut out = Vec::new();
    dec.on_stream_chunk(&make_chunk(&record, &ctx), &mut out);
    assert_eq!(out.len(), 2);
    // A decoder serves one session; another session has another decoder.
    BacnetScDecoder::default().on_stream_chunk(&make_chunk(&record, &ctx), &mut out);
    assert_eq!(out.len(), 4);
    dec.on_stream_chunk(&make_chunk(&[0x17, 0x03, 0x03], &ctx), &mut out);
    dec.on_stream_chunk(&make_chunk(&record, &ctx), &mut out);
    assert_eq!(out.len(), 4);
}

#[test]
fn names_and_addresses() {
    assert_eq!(format_vmac(&[0x00, 0x1A, 0xFF]), "001aff");
    assert_eq!(format_vmac(&[]), "");
    assert_eq!(bvlc_operation_name(0xEE), "bacnet_sc_unknown_0xee");
}

#[test]
fn reserved_control_bits_of_a_known_function_are_an_anomaly() {
    let ctx = make_context(47808);
    let mut out = Vec::new();
    BacnetScDecoder::default().on_stream_chunk(&make_chunk(&[0x06, 0x80, 0x00, 0x01], &ctx), &mut out);
    assert_eq!(out.len(), 2);
    let BronzeEventFamily::ParseAnomaly(a) = &out[0].family else { panic!() };
    assert_eq!(a.severity, "low");
    let BronzeEventFamily::ProtocolTransaction(t) = &out[1].family else { panic!() };
    assert_eq!(t.operation, "bacnet_sc_connect_request");
    assert_eq!(t.attributes.get("control_flags_hex").unwrap(), "0x80");
    assert_eq!(t.attributes.get("message_id").unwrap(), "1");
    // Bits with a meaning are none, and an unknown function gives the one anomaly for that.
    for payload in [[0x06, 0x0C, 0, 1], [0x0D, 0x80, 0, 1]] {
        let mut out = Vec::new();
        BacnetScDecoder::default().on_stream_chunk(&make_chunk(&payload, &ctx), &mut out);
        let anomalies = out.iter().filter(|e| e.family_name() == "parse_anomaly").count();
        assert_eq!(anomalies, (payload[0] == 0x0D) as usize);
    }
    // The virtual MAC that is missing is reported too.
    let mut out = Vec::new();
    BacnetScDecoder::default().on_stream_chunk(&make_chunk(&[0x06, 0x42, 0, 1], &ctx), &mut out);
    assert_eq!(out.len(), 2);
    assert!(out.iter().all(|e| e.family_name() == "parse_anomaly"));
}
