use ot_decoders::cip_safety::{
    has_safety_segment, CMD_SEND_RR_DATA, CipSafetyDecoder, SERVICE_FORWARD_OPEN,
    SERVICE_LARGE_FORWARD_OPEN,
};
use ot_decoders::events::BronzeEventFamily;
use ot_decoders::packet::{
    DecoderInterest, IpAddress, PacketContext, StreamChunk, Timestamp, TransportProtocol,
};

const NOW: Timestamp = Timestamp { seconds: 1_700_000_000, nanos: 0 };

// ── Packet builder helpers ────────────────────────────────────────────────

/// Build a minimal EtherNet/IP SendRRData (0x6F) frame wrapping a CIP
/// UCMM item. `cip_service_and_body` is everything inside the UCMM item
/// beginning at the service code byte.
fn build_enip_frame(cip_service_and_body: &[u8]) -> Vec<u8> {
    // CPF structure:
    //   interface_handle (4) + timeout (2) + item_count (2)
    //   item 0: Null Address  — type 0x0000, len 0x0000  (4 bytes)
    //   item 1: UCMM (0x00B2), len = cip_service_and_body.len()  (4 + data)
    let item_count: u16 = 2;
    let ucmm_len = cip_service_and_body.len() as u16;

    // Build CPF payload.
    let mut cpf: Vec<u8> = Vec::new();
    cpf.extend_from_slice(&0u32.to_le_bytes()); // interface_handle
    cpf.extend_from_slice(&0u16.to_le_bytes()); // timeout
    cpf.extend_from_slice(&item_count.to_le_bytes());
    // Null Address item
    cpf.extend_from_slice(&0x0000u16.to_le_bytes()); // type
    cpf.extend_from_slice(&0x0000u16.to_le_bytes()); // length
    // UCMM item
    cpf.extend_from_slice(&0x00B2u16.to_le_bytes()); // type
    cpf.extend_from_slice(&ucmm_len.to_le_bytes());
    cpf.extend_from_slice(cip_service_and_body);

    // Build EIP encapsulation header.
    let mut frame: Vec<u8> = Vec::new();
    frame.extend_from_slice(&CMD_SEND_RR_DATA.to_le_bytes()); // command 0x6F
    frame.extend_from_slice(&(cpf.len() as u16).to_le_bytes()); // data length
    frame.extend_from_slice(&0x0000_0001u32.to_le_bytes()); // session_handle
    frame.extend_from_slice(&0u32.to_le_bytes());            // status (success)
    frame.extend_from_slice(&[0u8; 8]);                      // sender_context
    frame.extend_from_slice(&0u32.to_le_bytes());            // options
    frame.extend_from_slice(&cpf);

    frame
}

/// Build the CIP Forward_Open request bytes (service header + body).
/// `connection_path` is the raw EPATH bytes (must be even length).
fn build_forward_open(
    service: u8,
    conn_serial: u16,
    vendor_id: u16,
    orig_serial: u32,
    ot_rpi: u32,
    to_rpi: u32,
    transport_type: u8,
    connection_path: &[u8],
) -> Vec<u8> {
    assert!(connection_path.len() % 2 == 0, "connection_path must be word-aligned");
    let conn_path_words = (connection_path.len() / 2) as u8;

    // CIP service header:
    //   byte 0: service code
    //   byte 1: request_path_size (words) — we use 2 words: class(2) + instance(2)
    //   bytes 2..5: EPATH for Connection Manager: 0x20 0x06 0x24 0x01
    let req_path: &[u8] = &[0x20, 0x06, 0x24, 0x01]; // class 0x06 instance 1
    let req_path_words = (req_path.len() / 2) as u8;

    let mut msg: Vec<u8> = Vec::new();
    msg.push(service);
    msg.push(req_path_words);
    msg.extend_from_slice(req_path);

    let is_large = service == SERVICE_LARGE_FORWARD_OPEN;

    // Forward_Open body:
    msg.push(0x0A); // priority_time_tick
    msg.push(0x05); // timeout_ticks
    // O->T network connection ID
    msg.extend_from_slice(&0x1234_5678u32.to_le_bytes());
    // T->O network connection ID
    msg.extend_from_slice(&0x8765_4321u32.to_le_bytes());
    // connection_serial
    msg.extend_from_slice(&conn_serial.to_le_bytes());
    // vendor_id
    msg.extend_from_slice(&vendor_id.to_le_bytes());
    // originator_serial
    msg.extend_from_slice(&orig_serial.to_le_bytes());
    // conn_timeout_multiplier + 3 reserved bytes
    msg.push(0x00);
    msg.extend_from_slice(&[0x00, 0x00, 0x00]);
    // O->T RPI (4 bytes)
    msg.extend_from_slice(&ot_rpi.to_le_bytes());
    // O->T network params
    if is_large {
        msg.extend_from_slice(&0x4200_0000u32.to_le_bytes()); // 4-byte (large)
    } else {
        msg.extend_from_slice(&0x4200u16.to_le_bytes()); // 2-byte (standard)
    }
    // T->O RPI (4 bytes)
    msg.extend_from_slice(&to_rpi.to_le_bytes());
    // T->O network params
    if is_large {
        msg.extend_from_slice(&0x4200_0000u32.to_le_bytes()); // 4-byte
    } else {
        msg.extend_from_slice(&0x4200u16.to_le_bytes()); // 2-byte
    }
    // transport_class_trigger
    msg.push(transport_type);
    // connection_path_size (in words)
    msg.push(conn_path_words);
    // connection path
    msg.extend_from_slice(connection_path);

    msg
}

/// Minimal connection path: class 0x06 Connection Manager instance 1.
/// 4 bytes = 2 words — standard CIP, NO safety segment.
fn path_no_safety() -> Vec<u8> {
    vec![0x20, 0x06, 0x24, 0x01]
}

/// Connection path with a Network Safety Segment (0x50) appended.
/// Path: class 0x06 inst 1 + safety segment (type 0x50, 1 word body = 2 bytes).
fn path_with_safety() -> Vec<u8> {
    let mut p = path_no_safety(); // 4 bytes
    // Safety segment: type 0x50 + length 0x01 (1 word = 2 bytes data) + 2 dummy bytes
    p.extend_from_slice(&[0x50, 0x01, 0xAA, 0xBB]);
    p
}

fn make_chunk<'a>(
    payload: &'a [u8],
    src_port: u16,
    dst_port: u16,
    dst_ip: [u8; 4],
) -> StreamChunk<'a> {
    StreamChunk {
        capture_id: "test_cap",
        segment_hash: "deadbeef",
        interface_id: 0,
        frame_index: 1,
        timestamp: NOW,
        context: PacketContext {
            src_ip: IpAddress::V4([10, 0, 0, 1]),
            dst_ip: IpAddress::V4(dst_ip),
            src_port,
            dst_port,
            src_mac: [0u8; 6],
            dst_mac: [0u8; 6],
            vlan_id: None,
            timestamp: 0,
        },
        ethertype: 0x0800,
        ip_proto: Some(6),
        llc: None,
        transport: TransportProtocol::Tcp,
        payload,
        session_key: "sess-cip-safety".to_string(),
        captured_len: payload.len() as u64,
    }
}

// ── Test 1 ───────────────────────────────────────────────────────────────
// Standard Forward_Open (0x54) with Safety segment → ProtocolTransaction +
// AssetObservation emitted.
#[test]
fn test_forward_open_with_safety_segment_emits_events() {
    let mut dec = CipSafetyDecoder::default();
    let mut out = Vec::new();

    let fo = build_forward_open(
        SERVICE_FORWARD_OPEN,
        0xABCD,  // conn_serial
        0x0001,  // vendor_id (Rockwell)
        0xDEAD_BEEF, // orig_serial
        125_000, // ot_rpi  (125 ms in µs)
        125_000, // to_rpi
        0xA3,    // transport_type: class 3 server (safety typical)
        &path_with_safety(),
    );
    let frame = build_enip_frame(&fo);
    let chunk = make_chunk(&frame, 49152, 44818, [192, 168, 1, 10]);
    dec.on_stream_chunk(&chunk, &mut out);

    assert_eq!(out.len(), 2, "expected ProtocolTransaction + AssetObservation; got {}", out.len());

    // First event: ProtocolTransaction.
    let BronzeEventFamily::ProtocolTransaction(ref tx) = out[0].family else {
        panic!("expected ProtocolTransaction, got {:?}", out[0].family_name());
    };
    assert_eq!(tx.operation, "cip_safety_forward_open");
    assert_eq!(tx.status, "observed");
    assert_eq!(tx.attributes.get("safety_segment_present").map(String::as_str), Some("true"));
    assert_eq!(tx.attributes.get("vendor_id").map(String::as_str), Some("0x0001"));
    assert_eq!(tx.attributes.get("connection_serial").map(String::as_str), Some("0xabcd"));

    // Second event: AssetObservation.
    let BronzeEventFamily::AssetObservation(ref ao) = out[1].family else {
        panic!("expected AssetObservation, got {:?}", out[1].family_name());
    };
    assert_eq!(ao.role.as_deref(), Some("cip_safety_device"));
    assert_eq!(ao.vendor, None);
    assert_eq!(ao.asset_key, "192.168.1.10");
    assert!(ao.identifiers.contains_key("cip_vendor_id"));
}

// ── Test 2 ───────────────────────────────────────────────────────────────
// Standard Forward_Open with NO Safety segment → no event emitted.
#[test]
fn test_forward_open_without_safety_segment_no_event() {
    let mut dec = CipSafetyDecoder::default();
    let mut out = Vec::new();

    let fo = build_forward_open(
        SERVICE_FORWARD_OPEN,
        0x1111,
        0x0001,
        0x1234_5678,
        100_000,
        100_000,
        0x01,
        &path_no_safety(),
    );
    let frame = build_enip_frame(&fo);
    let chunk = make_chunk(&frame, 49153, 44818, [192, 168, 1, 20]);
    dec.on_stream_chunk(&chunk, &mut out);

    assert!(out.is_empty(), "non-safety Forward_Open must not emit events; got {}", out.len());
}

// ── Test 3 ───────────────────────────────────────────────────────────────
// Large Forward_Open (0x5B) with Safety segment → operation is
// "cip_safety_forward_open_large".
#[test]
fn test_large_forward_open_with_safety_segment() {
    let mut dec = CipSafetyDecoder::default();
    let mut out = Vec::new();

    let fo = build_forward_open(
        SERVICE_LARGE_FORWARD_OPEN,
        0xBEEF,
        0x002A, // some vendor
        0xCAFE_BABE,
        500_000, // 500 ms
        500_000,
        0xA3,
        &path_with_safety(),
    );
    let frame = build_enip_frame(&fo);
    let chunk = make_chunk(&frame, 49154, 44818, [10, 0, 1, 1]);
    dec.on_stream_chunk(&chunk, &mut out);

    assert!(out.len() >= 1, "expected at least one event; got {}", out.len());
    let BronzeEventFamily::ProtocolTransaction(ref tx) = out[0].family else {
        panic!("expected ProtocolTransaction");
    };
    assert_eq!(tx.operation, "cip_safety_forward_open_large");
    assert_eq!(tx.attributes.get("service_code").map(String::as_str), Some("0x5b"));
}

// ── Test 4 ───────────────────────────────────────────────────────────────
// CIP service 0x4E (Forward_Close) → no event emitted.
#[test]
fn test_forward_close_service_no_event() {
    let mut dec = CipSafetyDecoder::default();
    let mut out = Vec::new();

    // Build a minimal Forward_Close — service 0x4E, same path segment, rest arbitrary.
    let req_path: &[u8] = &[0x20, 0x06, 0x24, 0x01];
    let mut fc: Vec<u8> = Vec::new();
    fc.push(0x4E); // Forward_Close
    fc.push(2u8);  // req_path_size (2 words)
    fc.extend_from_slice(req_path);
    // Forward_Close body (simplified, no safety check attempted):
    fc.push(0x0A); // priority_time_tick
    fc.push(0x05); // timeout_ticks
    fc.extend_from_slice(&0x1111u16.to_le_bytes()); // connection_serial
    fc.extend_from_slice(&0x0001u16.to_le_bytes()); // vendor_id
    fc.extend_from_slice(&0x1111_1111u32.to_le_bytes()); // orig_serial
    fc.push(0x02); // connection_path_size (1 word)
    fc.extend_from_slice(&path_no_safety());

    let frame = build_enip_frame(&fc);
    let chunk = make_chunk(&frame, 49155, 44818, [10, 0, 1, 2]);
    dec.on_stream_chunk(&chunk, &mut out);

    assert!(out.is_empty(), "Forward_Close must not emit events; got {}", out.len());
}

// ── Test 5 ───────────────────────────────────────────────────────────────
// Truncated Forward_Open (connection_path_size exceeds buffer) → ParseAnomaly
// with severity "low".
#[test]
fn test_truncated_forward_open_emits_parse_anomaly() {
    let mut dec = CipSafetyDecoder::default();
    let mut out = Vec::new();

    // Build a valid Forward_Open up to connection_path_size, then claim a
    // huge connection path (255 words = 510 bytes) that doesn't exist.
    let mut fo = build_forward_open(
        SERVICE_FORWARD_OPEN,
        0x9999,
        0x0001,
        0xAAAA_AAAA,
        100_000,
        100_000,
        0x01,
        &path_no_safety(), // Actual path is 4 bytes (2 words).
    );

    // Patch the connection_path_size byte to claim 255 words.
    // service header: 1 + 1 + 4 = 6 bytes; standard fixed body = 36 bytes.
    // conn_path_size byte is at offset 6 + 36 - 1 = 41.
    let conn_path_size_offset = 6 + 36 - 1;
    fo[conn_path_size_offset] = 0xFF; // claim 255 words (510 bytes)

    let frame = build_enip_frame(&fo);
    let chunk = make_chunk(&frame, 49156, 44818, [10, 0, 1, 3]);
    dec.on_stream_chunk(&chunk, &mut out);

    assert_eq!(out.len(), 1, "expected one ParseAnomaly; got {}", out.len());
    let BronzeEventFamily::ParseAnomaly(ref pa) = out[0].family else {
        panic!("expected ParseAnomaly, got {:?}", out[0].family_name());
    };
    assert_eq!(pa.severity, "low");
    assert_eq!(pa.decoder, "cip_safety");
}

// ── Test 6 (bonus) ───────────────────────────────────────────────────────
// AssetObservation is only emitted once per destination IP even across
// multiple Safety Forward_Open packets.
#[test]
fn test_asset_observation_emitted_once_per_dst_ip() {
    let mut dec = CipSafetyDecoder::default();
    let mut out = Vec::new();
    let dst = [10, 10, 10, 10];

    for _ in 0..3 {
        let fo = build_forward_open(
            SERVICE_FORWARD_OPEN,
            0x0001,
            0x0001,
            0x0000_0001,
            125_000,
            125_000,
            0xA3,
            &path_with_safety(),
        );
        let frame = build_enip_frame(&fo);
        let chunk = make_chunk(&frame, 50000, 44818, dst);
        dec.on_stream_chunk(&chunk, &mut out);
    }

    let asset_obs_count = out
        .iter()
        .filter(|e| matches!(e.family, BronzeEventFamily::AssetObservation(_)))
        .count();
    assert_eq!(asset_obs_count, 1, "AssetObservation should be emitted exactly once per dst IP");

    let tx_count = out
        .iter()
        .filter(|e| matches!(e.family, BronzeEventFamily::ProtocolTransaction(_)))
        .count();
    assert_eq!(tx_count, 3, "ProtocolTransaction should be emitted once per Forward_Open");
}

// ── Test 7 (bonus) ───────────────────────────────────────────────────────
// Verify DecoderInterest reports TcpPort 44818.
#[test]
fn test_decoder_interest_is_tcp_44818() {
    let dec = CipSafetyDecoder::default();
    assert!(
        dec.interest().contains(&DecoderInterest::TcpPort(44818)),
        "must declare interest in TCP 44818"
    );
}

// ── Which paths are safety paths ─────────────────────────────────────────
#[test]
fn safety_paths_hold_the_segment_type() {
    assert!(has_safety_segment(&[0x50, 0x01, 0xAA, 0xBB]));
    assert!(has_safety_segment(&path_with_safety()));
    assert!(!has_safety_segment(&path_no_safety()));
    assert!(!has_safety_segment(&[]));
}

// ── A device is observed once, whatever comes between ────────────────────
#[test]
fn device_is_observed_once_per_destination() {
    let mut dec = CipSafetyDecoder::default();
    let fo = build_forward_open(SERVICE_FORWARD_OPEN, 1, 2, 3, 4, 5, 6, &path_with_safety());
    let frame = build_enip_frame(&fo);
    let mut assets = Vec::new();
    for last in [10u8, 11, 10, 12, 11, 10] {
        let mut out = Vec::new();
        dec.on_stream_chunk(&make_chunk(&frame, 49152, 44818, [10, 0, 0, last]), &mut out);
        assert_eq!(out[0].family_name(), "protocol_transaction");
        assets.push(out.len() - 1);
    }
    assert_eq!(assets, [1, 1, 0, 1, 0, 0]);
}

// ── Wide logical segments hold a pad byte ────────────────────────────────
#[test]
fn safety_segment_behind_wide_logical_segments() {
    // 16 bits: type, pad, two bytes. 32 bits: type, pad, four bytes.
    let words = [0x21, 0x00, 0x06, 0x00, 0x50, 0x01, 0xAA, 0xBB];
    let longs = [0x22, 0x00, 0x06, 0x00, 0x00, 0x00, 0x50, 0x01, 0xAA, 0xBB];
    assert!(has_safety_segment(&words));
    assert!(has_safety_segment(&longs));
    // The value itself may look like a segment type.
    assert!(!has_safety_segment(&[0x21, 0x00, 0x06, 0x50, 0x20, 0x04]));
    let fo = build_forward_open(SERVICE_FORWARD_OPEN, 1, 2, 3, 4, 5, 6, &words);
    let frame = build_enip_frame(&fo);
    let mut out = Vec::new();
    CipSafetyDecoder::default()
        .on_stream_chunk(&make_chunk(&frame, 49152, 44818, [192, 168, 1, 10]), &mut out);
    assert_eq!(out.len(), 2);
    let BronzeEventFamily::ProtocolTransaction(t) = &out[0].family else { panic!() };
    assert_eq!(t.operation, "cip_safety_forward_open");
    assert_eq!(t.attributes.get("safety_segment_present").unwrap(), "true");
    let BronzeEventFamily::AssetObservation(a) = &out[1].family else { panic!() };
    assert_eq!(a.asset_key, "192.168.1.10");
}
