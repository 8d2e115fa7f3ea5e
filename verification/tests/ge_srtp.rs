use ot_decoders::events::{BronzeEvent, BronzeEventFamily};
use ot_decoders::ge_srtp::{
    is_known_service_code, service_code_name, GeSrtpDecoder, MSG_TYPE_REQUEST, MSG_TYPE_RESPONSE,
    SRTP_HEADER_LEN,
};
use ot_decoders::packet::{IpAddress, PacketContext, StreamChunk, Timestamp, TransportProtocol};

const NOW: Timestamp = Timestamp { seconds: 1_700_000_000, nanos: 0 };

const OFFSET_MSG_TYPE: usize = 2;
const OFFSET_SEQ_NUM: usize = 9;
const OFFSET_SERVICE_CODE: usize = 31;
const OFFSET_STATUS_CODE: usize = 42;
const OFFSET_MINOR_STATUS: usize = 43;

/// Build a 56-byte SRTP test frame. Offsets: [2]=msg_type, [9..11]=seq LE,
/// [31]=svc, [42]=status, [43]=minor; all others 0x00.
fn srtp_frame(msg_type: u8, seq: u16, svc: u8, status: u8, minor: u8) -> Vec<u8> {
    let mut buf = vec![0u8; SRTP_HEADER_LEN];
    buf[0] = 0x02;
    buf[OFFSET_MSG_TYPE] = msg_type;
    let s = seq.to_le_bytes();
    buf[OFFSET_SEQ_NUM] = s[0];
    buf[OFFSET_SEQ_NUM + 1] = s[1];
    buf[OFFSET_SERVICE_CODE] = svc;
    buf[OFFSET_STATUS_CODE] = status;
    buf[OFFSET_MINOR_STATUS] = minor;
    buf
}

fn feed(
    dec: &mut GeSrtpDecoder,
    payload: &[u8],
    src_port: u16,
    dst_port: u16,
    out: &mut Vec<BronzeEvent>,
) {
    let context = PacketContext {
        src_ip: IpAddress::V4([10, 0, 0, 1]),
        dst_ip: IpAddress::V4([10, 0, 0, 2]),
        src_port,
        dst_port,
        src_mac: [0u8; 6],
        dst_mac: [0u8; 6],
        vlan_id: None,
        timestamp: 0,
    };
    let chunk = StreamChunk {
        capture_id: "cap",
        segment_hash: "aa",
        interface_id: 0,
        frame_index: 1,
        timestamp: NOW,
        context,
        ethertype: 0x0800,
        ip_proto: Some(6),
        llc: None,
        transport: TransportProtocol::Tcp,
        payload,
        session_key: "10.0.0.1-10.0.0.2-50000-18245".to_string(),
        captured_len: payload.len() as u64,
    };
    dec.on_stream_chunk(&chunk, out);
}

/// 1. Programmer Login request alone → no events, one pending entry.
#[test]
fn test_programmer_login_request_no_emit() {
    let mut dec = GeSrtpDecoder::default();
    let mut out = Vec::new();
    let f = srtp_frame(MSG_TYPE_REQUEST, 1, 0x4E, 0, 0);
    feed(&mut dec, &f, 50000, 18245, &mut out);
    assert!(out.is_empty(), "request alone must not emit");
    assert_eq!(dec.pending.len(), 1);
}

/// 2. Login request + response status=0 → ProtocolTransaction ok, srtp_programmer_login.
#[test]
fn test_programmer_login_paired_ok() {
    let mut dec = GeSrtpDecoder::default();
    let mut out = Vec::new();
    feed(
        &mut dec,
        &srtp_frame(MSG_TYPE_REQUEST, 7, 0x4E, 0, 0),
        50000,
        18245,
        &mut out,
    );
    assert!(out.is_empty());
    feed(
        &mut dec,
        &srtp_frame(MSG_TYPE_RESPONSE, 7, 0x4E, 0, 0),
        18245,
        50000,
        &mut out,
    );
    assert_eq!(out.len(), 1);
    let BronzeEventFamily::ProtocolTransaction(ref txn) = out[0].family else {
        panic!("expected ProtocolTransaction");
    };
    assert_eq!(txn.operation, "srtp_programmer_login");
    assert_eq!(txn.status, "ok");
    assert!(dec.pending.is_empty());
}

/// 3. Read System Memory + response status=0x05 → status starts with "srtp_status_0x05".
#[test]
fn test_read_system_memory_error_status() {
    let mut dec = GeSrtpDecoder::default();
    let mut out = Vec::new();
    feed(
        &mut dec,
        &srtp_frame(MSG_TYPE_REQUEST, 42, 0x03, 0, 0),
        50000,
        18245,
        &mut out,
    );
    feed(
        &mut dec,
        &srtp_frame(MSG_TYPE_RESPONSE, 42, 0x03, 0x05, 0x01),
        18245,
        50000,
        &mut out,
    );
    assert_eq!(out.len(), 1);
    let BronzeEventFamily::ProtocolTransaction(ref txn) = out[0].family else {
        panic!("expected ProtocolTransaction");
    };
    assert_eq!(txn.operation, "srtp_read_system_memory");
    assert!(
        txn.status.starts_with("srtp_status_0x05"),
        "got: {}",
        txn.status
    );
}

/// 4. Unknown service code → ParseAnomaly emitted; flushed transaction operation contains "unknown".
#[test]
fn test_unknown_service_code_anomaly_and_operation() {
    let mut dec = GeSrtpDecoder::default();
    let mut out = Vec::new();
    feed(
        &mut dec,
        &srtp_frame(MSG_TYPE_REQUEST, 99, 0xAB, 0, 0),
        50000,
        18245,
        &mut out,
    );
    let anomalies: Vec<_> = out
        .iter()
        .filter(|e| matches!(e.family, BronzeEventFamily::ParseAnomaly(_)))
        .collect();
    assert_eq!(anomalies.len(), 1, "one low-severity ParseAnomaly expected");
    dec.on_idle_flush(NOW, &mut out);
    let txns: Vec<_> = out
        .iter()
        .filter(|e| matches!(e.family, BronzeEventFamily::ProtocolTransaction(_)))
        .collect();
    assert_eq!(txns.len(), 1);
    let BronzeEventFamily::ProtocolTransaction(ref txn) = txns[0].family else {
        panic!()
    };
    assert!(txn.operation.contains("unknown"), "got: {}", txn.operation);
}

/// 5. Truncated frame (< 56 bytes) on port 18245 → ParseAnomaly severity="medium".
#[test]
fn test_truncated_frame_medium_anomaly() {
    let mut dec = GeSrtpDecoder::default();
    let mut out = Vec::new();
    // 20-byte stub — port context marks it as SRTP but header is incomplete.
    // Bytes [0..20] = 0x02, 0x00, 0x02, ... (opaque framing; only length matters here).
    let truncated = vec![
        0x02u8, 0x00, 0x02, 0x00, 0x00, 0x00, 0x00, 0x00, 0x00, 0x01, 0x00, 0x00, 0x00, 0x00,
        0x00, 0x00, 0x00, 0x00, 0x00, 0x00,
    ];
    assert!(truncated.len() < SRTP_HEADER_LEN);
    feed(&mut dec, &truncated, 50000, 18245, &mut out);
    assert_eq!(out.len(), 1);
    let BronzeEventFamily::ParseAnomaly(ref a) = out[0].family else {
        panic!("expected ParseAnomaly, got {:?}", out[0].family);
    };
    assert_eq!(a.severity, "medium");
    assert_eq!(a.decoder, "ge_srtp");
}

/// 6. Service codes are named by number exactly where they are not known.
#[test]
fn service_codes_are_known_or_numbered() {
    for code in 0u8..=255 {
        let by_number = service_code_name(code) == format!("srtp_unknown_0x{code:02x}");
        assert_eq!(by_number, !is_known_service_code(code));
    }
}

/// 7. A response with another sequence number finds no request.
#[test]
fn responses_are_paired_by_sequence_number() {
    let mut dec = GeSrtpDecoder::default();
    let mut out = Vec::new();
    feed(&mut dec, &srtp_frame(MSG_TYPE_REQUEST, 7, 0x4E, 0, 0), 50000, 18245, &mut out);
    feed(&mut dec, &srtp_frame(MSG_TYPE_RESPONSE, 8, 0x4E, 0, 0), 18245, 50000, &mut out);
    assert_eq!(dec.pending.len(), 1);
    feed(&mut dec, &srtp_frame(MSG_TYPE_RESPONSE, 7, 0x4E, 0, 0), 18245, 50000, &mut out);
    assert!(dec.pending.is_empty());
    let last = out.last().unwrap();
    assert_eq!(last.envelope.packet_count, 2);
    assert_eq!(last.envelope.bytes_count, 112);
    assert_eq!(last.envelope.src_port, 50000);
}

/// 8. What still waits at a flush is reported and forgotten.
#[test]
fn srtp_flush_reports_what_waits() {
    let mut dec = GeSrtpDecoder::default();
    let mut out = Vec::new();
    feed(&mut dec, &srtp_frame(MSG_TYPE_REQUEST, 1, 0x4E, 0, 0), 50000, 18245, &mut out);
    feed(&mut dec, &srtp_frame(MSG_TYPE_REQUEST, 2, 0x4E, 0, 0), 50000, 18245, &mut out);
    dec.on_idle_flush(NOW, &mut out);
    assert_eq!(out.len(), 2);
    assert!(dec.pending.is_empty());
}
