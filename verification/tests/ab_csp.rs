use ot_decoders::ab_csp::{
    command_operation, status_string, AbCspDecoder, CMD_PCCC_REPLY, CMD_PCCC_REQUEST,
    CMD_READ_WITH_OFFSET, CMD_REGISTER_SESSION, CSP_HEADER_LEN,
};
use ot_decoders::events::{BronzeEvent, BronzeEventFamily};
use ot_decoders::packet::{IpAddress, PacketContext, StreamChunk, Timestamp, TransportProtocol};

const NOW: Timestamp = Timestamp { seconds: 1_700_000_000, nanos: 0 };

const OFF_COMMAND: usize = 0;
const OFF_STATUS: usize = 2;
const OFF_PACKET_SIZE: usize = 4;
const OFF_CLIENT_HANDLE: usize = 10;
const OFF_TARGET_ADDR_HI: usize = 14;
const OFF_TARGET_ADDR_LO: usize = 18;
const OFF_TRANSACTION_ID: usize = 22;
const OFF_TNS: usize = 24;
const OFF_FUNCTION: usize = 26;

/// Build a hand-crafted 28-byte CSP header. All reserved/unused bytes
/// are zeroed. `packet_size` is set to `buf_total_len` unless overridden.
#[allow(clippy::too_many_arguments)]
fn make_csp_frame(
    command: u16,
    status: u16,
    packet_size_override: Option<u16>,
    function: u16,
    transaction_id: u16,
    target_addr_hi: u32,
    target_addr_lo: u32,
    extra_payload: &[u8],
) -> Vec<u8> {
    let total = CSP_HEADER_LEN + extra_payload.len();
    let declared = packet_size_override.unwrap_or(total as u16);

    let mut buf = vec![0u8; total];
    buf[OFF_COMMAND..OFF_COMMAND + 2].copy_from_slice(&command.to_le_bytes());
    buf[OFF_STATUS..OFF_STATUS + 2].copy_from_slice(&status.to_le_bytes());
    buf[OFF_PACKET_SIZE..OFF_PACKET_SIZE + 2].copy_from_slice(&declared.to_le_bytes());
    // client_handle = 0xCAFEBABE for easy identification in assertions
    buf[OFF_CLIENT_HANDLE..OFF_CLIENT_HANDLE + 4]
        .copy_from_slice(&0xCAFEBABE_u32.to_le_bytes());
    buf[OFF_TARGET_ADDR_HI..OFF_TARGET_ADDR_HI + 4]
        .copy_from_slice(&target_addr_hi.to_le_bytes());
    buf[OFF_TARGET_ADDR_LO..OFF_TARGET_ADDR_LO + 4]
        .copy_from_slice(&target_addr_lo.to_le_bytes());
    buf[OFF_TRANSACTION_ID..OFF_TRANSACTION_ID + 2]
        .copy_from_slice(&transaction_id.to_le_bytes());
    buf[OFF_TNS..OFF_TNS + 2].copy_from_slice(&0x0042_u16.to_le_bytes());
    buf[OFF_FUNCTION..OFF_FUNCTION + 2].copy_from_slice(&function.to_le_bytes());
    if !extra_payload.is_empty() {
        buf[CSP_HEADER_LEN..].copy_from_slice(extra_payload);
    }
    buf
}

fn feed(dec: &mut AbCspDecoder, payload: &[u8], out: &mut Vec<BronzeEvent>) {
    let context = PacketContext {
        src_ip: IpAddress::V4([192, 168, 1, 10]),
        dst_ip: IpAddress::V4([192, 168, 1, 20]),
        src_port: 54321,
        dst_port: 2222,
        src_mac: [0u8; 6],
        dst_mac: [0u8; 6],
        vlan_id: None,
        timestamp: 0,
    };
    let chunk = StreamChunk {
        capture_id: "cap-test",
        segment_hash: "seg-ab-csp",
        interface_id: 0,
        frame_index: 1,
        timestamp: NOW,
        context,
        ethertype: 0x0800,
        ip_proto: Some(6),
        llc: None,
        transport: TransportProtocol::Tcp,
        payload,
        session_key: "192.168.1.10-192.168.1.20-54321-2222".to_string(),
        captured_len: payload.len() as u64,
    };
    dec.on_stream_chunk(&chunk, out);
}

/// 1. CSP Register Session (cmd=0x0001, status=0) →
///    operation="csp_register_session", status="ok", + AssetObservation.
#[test]
fn test_register_session_ok() {
    let mut dec = AbCspDecoder;
    let mut out = Vec::new();
    let frame = make_csp_frame(
        CMD_REGISTER_SESSION,
        0,
        None,
        0x01,
        1,
        0xDEAD0001,
        0xBEEF0002,
        &[],
    );
    feed(&mut dec, &frame, &mut out);

    // Expect a ProtocolTransaction and an AssetObservation.
    let txns: Vec<_> = out
        .iter()
        .filter(|e| matches!(e.family, BronzeEventFamily::ProtocolTransaction(_)))
        .collect();
    assert_eq!(txns.len(), 1, "expected one ProtocolTransaction");
    let BronzeEventFamily::ProtocolTransaction(ref txn) = txns[0].family else {
        panic!("expected ProtocolTransaction");
    };
    assert_eq!(txn.operation, "csp_register_session");
    assert_eq!(txn.status, "ok");
    assert_eq!(txn.attributes.get("command").unwrap(), "0x0001");

    let assets: Vec<_> = out
        .iter()
        .filter(|e| matches!(e.family, BronzeEventFamily::AssetObservation(_)))
        .collect();
    assert_eq!(assets.len(), 1, "expected one AssetObservation");
    let BronzeEventFamily::AssetObservation(ref obs) = assets[0].family else {
        panic!("expected AssetObservation");
    };
    assert_eq!(obs.role.as_deref(), Some("ab_csp_plc"));
    assert_eq!(obs.vendor.as_deref(), Some("Allen-Bradley"));
    assert!(obs.identifiers.contains_key("csp_addr_hi"));
    assert!(obs.identifiers.contains_key("csp_addr_lo"));
}

/// 2. CSP PCCC Request (cmd=0x00A1, status=0) →
///    operation="csp_pccc_request", status="ok".
#[test]
fn test_pccc_request_ok() {
    let mut dec = AbCspDecoder;
    let mut out = Vec::new();
    let pccc_payload = [0x0F, 0x00, 0x01, 0x00, 0x01, 0x00]; // dummy PCCC bytes
    let frame = make_csp_frame(CMD_PCCC_REQUEST, 0, None, 0x06, 42, 0, 0, &pccc_payload);
    feed(&mut dec, &frame, &mut out);

    let txns: Vec<_> = out
        .iter()
        .filter(|e| matches!(e.family, BronzeEventFamily::ProtocolTransaction(_)))
        .collect();
    assert_eq!(txns.len(), 1);
    let BronzeEventFamily::ProtocolTransaction(ref txn) = txns[0].family else {
        panic!();
    };
    assert_eq!(txn.operation, "csp_pccc_request");
    assert_eq!(txn.status, "ok");
    // No anomalies expected.
    let anomalies: Vec<_> = out
        .iter()
        .filter(|e| matches!(e.family, BronzeEventFamily::ParseAnomaly(_)))
        .collect();
    assert!(
        anomalies.is_empty(),
        "no anomalies expected for valid PCCC request"
    );
}

/// 3. CSP PCCC Reply (cmd=0x0003, status=0x0010) →
///    operation="csp_pccc_reply", status="csp_status_0x0010".
#[test]
fn test_pccc_reply_error_status() {
    let mut dec = AbCspDecoder;
    let mut out = Vec::new();
    let frame = make_csp_frame(CMD_PCCC_REPLY, 0x0010, None, 0x06, 42, 0, 0, &[]);
    feed(&mut dec, &frame, &mut out);

    let txns: Vec<_> = out
        .iter()
        .filter(|e| matches!(e.family, BronzeEventFamily::ProtocolTransaction(_)))
        .collect();
    assert_eq!(txns.len(), 1);
    let BronzeEventFamily::ProtocolTransaction(ref txn) = txns[0].family else {
        panic!();
    };
    assert_eq!(txn.operation, "csp_pccc_reply");
    assert_eq!(txn.status, "csp_status_0x0010");
}

/// 4. Unknown command 0xFFFF → operation="csp_unknown_cmd_0xffff" +
///    exactly one ParseAnomaly with severity="low".
#[test]
fn test_unknown_command_anomaly_low() {
    let mut dec = AbCspDecoder;
    let mut out = Vec::new();
    let frame = make_csp_frame(0xFFFF, 0, None, 0x00, 1, 0, 0, &[]);
    feed(&mut dec, &frame, &mut out);

    let anomalies: Vec<_> = out
        .iter()
        .filter(|e| matches!(e.family, BronzeEventFamily::ParseAnomaly(_)))
        .collect();
    assert_eq!(anomalies.len(), 1, "expected one low-severity ParseAnomaly");
    let BronzeEventFamily::ParseAnomaly(ref a) = anomalies[0].family else {
        panic!();
    };
    assert_eq!(a.severity, "low");
    assert!(
        a.reason.contains("0xffff"),
        "reason should mention the code: {}",
        a.reason
    );

    let txns: Vec<_> = out
        .iter()
        .filter(|e| matches!(e.family, BronzeEventFamily::ProtocolTransaction(_)))
        .collect();
    assert_eq!(txns.len(), 1);
    let BronzeEventFamily::ProtocolTransaction(ref txn) = txns[0].family else {
        panic!();
    };
    assert_eq!(txn.operation, "csp_unknown_cmd_0xffff");
}

/// 5. packet_size field (200) disagrees with actual buffer length (50) →
///    ParseAnomaly with severity="medium".
#[test]
fn test_packet_size_mismatch_medium_anomaly() {
    let mut dec = AbCspDecoder;
    let mut out = Vec::new();
    // Build a 50-byte buffer but declare packet_size=200.
    let extra = vec![0u8; 50 - CSP_HEADER_LEN]; // 22 bytes of payload
    let frame = make_csp_frame(
        CMD_PCCC_REQUEST,
        0,
        Some(200), // declared size intentionally wrong
        0x06,
        7,
        0,
        0,
        &extra,
    );
    assert_eq!(frame.len(), 50);
    feed(&mut dec, &frame, &mut out);

    let anomalies: Vec<_> = out
        .iter()
        .filter(|e| matches!(e.family, BronzeEventFamily::ParseAnomaly(_)))
        .collect();
    assert_eq!(
        anomalies.len(),
        1,
        "expected exactly one medium ParseAnomaly"
    );
    let BronzeEventFamily::ParseAnomaly(ref a) = anomalies[0].family else {
        panic!();
    };
    assert_eq!(a.severity, "medium");
    assert!(
        a.reason.contains("200") && a.reason.contains("50"),
        "reason should mention both sizes: {}",
        a.reason
    );
}

/// Bonus: CSP Read With Offset (cmd=0x0007) → operation="csp_read".
#[test]
fn test_read_with_offset() {
    let mut dec = AbCspDecoder;
    let mut out = Vec::new();
    let frame = make_csp_frame(CMD_READ_WITH_OFFSET, 0, None, 0x01, 5, 0, 0, &[]);
    feed(&mut dec, &frame, &mut out);

    let txns: Vec<_> = out
        .iter()
        .filter(|e| matches!(e.family, BronzeEventFamily::ProtocolTransaction(_)))
        .collect();
    assert_eq!(txns.len(), 1);
    let BronzeEventFamily::ProtocolTransaction(ref txn) = txns[0].family else {
        panic!();
    };
    assert_eq!(txn.operation, "csp_read");
    assert_eq!(txn.status, "ok");
}

/// Truncated below 28 bytes → medium anomaly, no transaction.
#[test]
fn test_truncated_frame_below_header() {
    let mut dec = AbCspDecoder;
    let mut out = Vec::new();
    let short = vec![0x01, 0x00, 0x00, 0x00, 0x10, 0x00]; // 6 bytes — far too short
    feed(&mut dec, &short, &mut out);

    assert_eq!(out.len(), 1);
    let BronzeEventFamily::ParseAnomaly(ref a) = out[0].family else {
        panic!("expected ParseAnomaly for truncated frame");
    };
    assert_eq!(a.severity, "medium");
}

// ── Tables and counts ─────────────────────────────────────────────────────

#[test]
fn csp_commands_outside_the_table_are_named_by_number() {
    for command in 0u16..0x0400 {
        let op = command_operation(command);
        let by_number = op == format!("csp_unknown_cmd_0x{command:04x}");
        let mut dec = AbCspDecoder;
        let mut out = Vec::new();
        feed(&mut dec, &make_csp_frame(command, 0, None, 0, 1, 0, 0, &[]), &mut out);
        let anomalies = out.iter().filter(|e| e.family_name() == "parse_anomaly").count();
        assert_eq!(by_number, anomalies == 1, "command {command:#06x}");
    }
    assert_eq!(status_string(0), "ok");
    assert_eq!(status_string(0x1F), "csp_status_0x001f");
}

#[test]
fn csp_whole_header_is_one_transaction() {
    for (command, status, size) in [
        (CMD_REGISTER_SESSION, 0, None),
        (CMD_REGISTER_SESSION, 5, None),
        (CMD_PCCC_REPLY, 0, Some(3)),
        (0xFFFF, 1, Some(9)),
    ] {
        let mut out = Vec::new();
        feed(&mut AbCspDecoder, &make_csp_frame(command, status, size, 0, 1, 0, 0, &[]), &mut out);
        let count = |name: &str| out.iter().filter(|e| e.family_name() == name).count();
        assert_eq!(count("protocol_transaction"), 1);
        let registered = command == CMD_REGISTER_SESSION && status == 0;
        assert_eq!(count("asset_observation"), usize::from(registered));
    }
}
