use ot_decoders::events::{BronzeEvent, BronzeEventFamily};
use ot_decoders::gvcp::{
    command_to_operation, trim_nul, ACK_DISCOVERY, DISC_ACK_PAYLOAD_FULL, GVCP_KEY_CODE,
    GvcpDecoder,
};
use ot_decoders::packet::{IpAddress, PacketContext, StreamChunk, Timestamp, TransportProtocol};

const NOW: Timestamp = Timestamp { seconds: 1_700_000_000, nanos: 0 };

const CMD_DISCOVERY: u16 = 0x0002;
const CMD_READREG: u16 = 0x0080;
const ACK_WRITEREG: u16 = 0x0083;

fn make_context() -> PacketContext {
    PacketContext {
        src_ip:  IpAddress::V4([192, 168, 1, 10]),
        dst_ip:  IpAddress::V4([255, 255, 255, 255]),
        src_port: 49152,
        dst_port: 3956,
        src_mac: [0xAA, 0xBB, 0xCC, 0xDD, 0xEE, 0xFF],
        dst_mac: [0xFF, 0xFF, 0xFF, 0xFF, 0xFF, 0xFF],
        vlan_id: None,
        timestamp: 0,
    }
}

fn feed(dec: &mut GvcpDecoder, payload: &[u8], out: &mut Vec<BronzeEvent>) {
    let context = make_context();
    let chunk = StreamChunk {
        capture_id:   "cap-test",
        segment_hash: "seg",
        interface_id: 0,
        frame_index:  1,
        timestamp:    NOW,
        context,
        ethertype:    0x0800,
        ip_proto:     Some(17),
        llc:          None,
        transport:    TransportProtocol::Udp,
        payload,
        session_key:  "192.168.1.10:49152-255.255.255.255:3956".to_string(),
        captured_len: payload.len() as u64,
    };
    dec.on_datagram(&chunk, out);
}

/// Build an 8-byte GVCP command header.
fn cmd_header(flags: u8, command: u16, length: u16, request_id: u16) -> Vec<u8> {
    let mut buf = vec![GVCP_KEY_CODE, flags];
    buf.extend_from_slice(&command.to_be_bytes());
    buf.extend_from_slice(&length.to_be_bytes());
    buf.extend_from_slice(&request_id.to_be_bytes());
    buf
}

/// Build an 8-byte GVCP ack header.
fn ack_header(status: u16, acknowledge: u16, length: u16, ack_id: u16) -> Vec<u8> {
    let mut buf = vec![];
    buf.extend_from_slice(&status.to_be_bytes());
    buf.extend_from_slice(&acknowledge.to_be_bytes());
    buf.extend_from_slice(&length.to_be_bytes());
    buf.extend_from_slice(&ack_id.to_be_bytes());
    buf
}

/// Pad an ASCII string to `width` bytes, NUL-filling the tail.
fn padded(s: &str, width: usize) -> Vec<u8> {
    let mut v = s.as_bytes().to_vec();
    v.resize(width, 0);
    v
}

// 1. DISCOVERY_CMD → operation = gvcp_discovery, request_id matches
#[test]
fn test_discovery_cmd() {
    let mut dec = GvcpDecoder::default();
    let mut out = Vec::new();
    let pkt = cmd_header(0x01, CMD_DISCOVERY, 0, 42);
    feed(&mut dec, &pkt, &mut out);

    assert_eq!(out.len(), 1, "expected exactly one event");
    let BronzeEventFamily::ProtocolTransaction(ref txn) = out[0].family else {
        panic!("expected ProtocolTransaction");
    };
    assert_eq!(txn.operation, "gvcp_discovery");
    assert_eq!(txn.status, "observed");
    assert_eq!(txn.attributes.get("request_id").unwrap(), "42");
    assert_eq!(txn.attributes.get("command").unwrap(), "0x0002");
}

// 2. DISCOVERY_ACK with full payload → AssetObservation vendor/model parsed
#[test]
fn test_discovery_ack_asset_observation() {
    let mut dec = GvcpDecoder::default();
    let mut out = Vec::new();

    // Build a 176-byte payload (the minimum spec-defined block).
    // Byte layout: 56-byte device/network block + 176-56 = 120 bytes of strings.
    // We zero-fill the 56-byte header block and fill the strings.
    let mut payload = vec![0u8; 56]; // network/device state block
    payload.extend_from_slice(&padded("ACME Vision", 32)); // manufacturer_name
    payload.extend_from_slice(&padded("C1500", 32));       // model_name
    payload.extend_from_slice(&padded("2.3.1", 32));       // device_version
    payload.extend_from_slice(&padded("Industrial", 48));  // manufacturer_info
    payload.extend_from_slice(&padded("SN-0042", 16));     // serial_number
    payload.extend_from_slice(&padded("LineScan01", 16));  // user_defined_name

    assert_eq!(payload.len(), DISC_ACK_PAYLOAD_FULL, "payload must be exactly {DISC_ACK_PAYLOAD_FULL} bytes");

    let mut pkt = ack_header(0x0000, ACK_DISCOVERY, payload.len() as u16, 7);
    pkt.extend_from_slice(&payload);
    feed(&mut dec, &pkt, &mut out);

    // Expect: ProtocolTransaction + AssetObservation.
    assert_eq!(out.len(), 2, "expected ProtocolTransaction + AssetObservation");

    let txn_ev = out.iter().find(|e| matches!(e.family, BronzeEventFamily::ProtocolTransaction(_)))
        .expect("missing ProtocolTransaction");
    let BronzeEventFamily::ProtocolTransaction(ref txn) = txn_ev.family else { unreachable!() };
    assert_eq!(txn.operation, "gvcp_discovery_ack");
    assert_eq!(txn.status, "ok");

    let asset_ev = out.iter().find(|e| matches!(e.family, BronzeEventFamily::AssetObservation(_)))
        .expect("missing AssetObservation");
    let BronzeEventFamily::AssetObservation(ref asset) = asset_ev.family else { unreachable!() };
    assert_eq!(asset.role.as_deref(), Some("gige_vision_camera"));
    assert_eq!(asset.vendor.as_deref(), Some("ACME Vision"));
    assert_eq!(asset.model.as_deref(), Some("C1500"));
    assert_eq!(asset.firmware.as_deref(), Some("2.3.1"));
    assert_eq!(asset.hostnames, vec!["LineScan01".to_string()]);
    assert_eq!(asset.identifiers.get("serial_number").unwrap(), "SN-0042");
    assert_eq!(asset.identifiers.get("manufacturer_info").unwrap(), "Industrial");
}

// 3. READREG_CMD → operation = gvcp_readreg
#[test]
fn test_readreg_cmd() {
    let mut dec = GvcpDecoder::default();
    let mut out = Vec::new();
    // READREG payload: list of register addresses (u32 each); 4 bytes = 1 register.
    let mut pkt = cmd_header(0x01, CMD_READREG, 4, 99);
    pkt.extend_from_slice(&[0x00, 0x00, 0x00, 0x00]); // register address 0
    feed(&mut dec, &pkt, &mut out);

    assert_eq!(out.len(), 1);
    let BronzeEventFamily::ProtocolTransaction(ref txn) = out[0].family else {
        panic!("expected ProtocolTransaction");
    };
    assert_eq!(txn.operation, "gvcp_readreg");
    assert_eq!(txn.status, "observed");
    assert_eq!(txn.attributes.get("request_id").unwrap(), "99");
}

// 4. WRITEREG_ACK status=0x8002 → status = "gvcp_status_0x8002"
#[test]
fn test_writereg_ack_error_status() {
    let mut dec = GvcpDecoder::default();
    let mut out = Vec::new();
    let pkt = ack_header(0x8002, ACK_WRITEREG, 0, 55);
    feed(&mut dec, &pkt, &mut out);

    assert_eq!(out.len(), 1);
    let BronzeEventFamily::ProtocolTransaction(ref txn) = out[0].family else {
        panic!("expected ProtocolTransaction");
    };
    assert_eq!(txn.operation, "gvcp_writereg_ack");
    assert_eq!(txn.status, "gvcp_status_0x8002");
}

// 5. Unknown command 0xFFFF → gvcp_unknown_0xffff + ParseAnomaly severity=low
#[test]
fn test_unknown_command_anomaly() {
    let mut dec = GvcpDecoder::default();
    let mut out = Vec::new();
    let pkt = cmd_header(0x00, 0xFFFF, 0, 1);
    feed(&mut dec, &pkt, &mut out);

    // Expect: ParseAnomaly then ProtocolTransaction (order from handle_command).
    assert_eq!(out.len(), 2, "expected ParseAnomaly + ProtocolTransaction");

    let anomaly_ev = out.iter().find(|e| matches!(e.family, BronzeEventFamily::ParseAnomaly(_)))
        .expect("missing ParseAnomaly");
    let BronzeEventFamily::ParseAnomaly(ref anomaly) = anomaly_ev.family else { unreachable!() };
    assert_eq!(anomaly.severity, "low");
    assert!(anomaly.reason.contains("0xffff"), "reason: {}", anomaly.reason);

    let txn_ev = out.iter().find(|e| matches!(e.family, BronzeEventFamily::ProtocolTransaction(_)))
        .expect("missing ProtocolTransaction");
    let BronzeEventFamily::ProtocolTransaction(ref txn) = txn_ev.family else { unreachable!() };
    assert_eq!(txn.operation, "gvcp_unknown_0xffff");
}

// 6. Frame < 8 bytes → medium ParseAnomaly, no transaction
#[test]
fn test_truncated_frame_anomaly() {
    let mut dec = GvcpDecoder::default();
    let mut out = Vec::new();
    let pkt = vec![0x42, 0x01, 0x00]; // only 3 bytes
    feed(&mut dec, &pkt, &mut out);

    assert_eq!(out.len(), 1);
    let BronzeEventFamily::ParseAnomaly(ref a) = out[0].family else {
        panic!("expected ParseAnomaly");
    };
    assert_eq!(a.severity, "medium");
}

// 7. Every datagram with a whole header is one transaction; codes without a name come with an
//    anomaly.
#[test]
fn gvcp_datagrams_are_one_transaction_each() {
    for code in 0u16..0x0100 {
        let mut out = Vec::new();
        feed(&mut GvcpDecoder::default(), &cmd_header(1, code, 0, 9), &mut out);
        let unknown = command_to_operation(code).starts_with("gvcp_unknown_");
        let count = |name: &str| out.iter().filter(|e| e.family_name() == name).count();
        assert_eq!(count("protocol_transaction"), 1);
        assert_eq!(count("parse_anomaly"), usize::from(unknown));
        assert_eq!(count("asset_observation"), 0);
    }
}

// 8. Text fields end at the first NUL, are trimmed, and need not be valid.
#[test]
fn gvcp_text_fields() {
    assert_eq!(trim_nul(b"  Basler \0junk"), "Basler");
    assert_eq!(trim_nul(b"\0\0"), "");
    assert_eq!(trim_nul(&[b'x', 0xFE, b'y']), "x\u{FFFD}y");
    assert_eq!(trim_nul("\u{A0}caf\u{E9}\n".as_bytes()), "caf\u{E9}");
    for b in [&b" acA1300 "[..], b"", b"\t", b"a b", &[0xC3, b'x', 0xFF]] {
        let whole = String::from_utf8_lossy(b).trim().to_string();
        assert_eq!(trim_nul(b), whole);
        for s in [&b""[..], b"\0", b"junk", b"\0more"] {
            assert_eq!(trim_nul(&[b, b"\0", s].concat()), whole);
        }
    }
}

// 9. A discovery acknowledge that is too short for its fields shows no camera.
#[test]
fn short_discovery_ack_shows_no_camera() {
    let mut out = Vec::new();
    let mut pkt = ack_header(0, ACK_DISCOVERY, 8, 1);
    pkt.extend_from_slice(&vec![0u8; DISC_ACK_PAYLOAD_FULL - 1]);
    feed(&mut GvcpDecoder::default(), &pkt, &mut out);
    assert_eq!(out.len(), 1);
    pkt.push(0);
    out.clear();
    feed(&mut GvcpDecoder::default(), &pkt, &mut out);
    assert_eq!(out.len(), 2);
    let BronzeEventFamily::AssetObservation(a) = &out[1].family else { panic!() };
    assert_eq!(a.vendor, None);
    assert!(a.hostnames.is_empty());
}
