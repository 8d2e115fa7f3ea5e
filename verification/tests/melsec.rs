use ot_decoders::events::BronzeEventFamily;
use ot_decoders::melsec::{
    parse_cpu_model_name, slmp_operation_name, MelsecDecoder, SUBHEADER_REQUEST, SUBHEADER_RESPONSE,
};
use ot_decoders::packet::{IpAddress, PacketContext, StreamChunk, Timestamp, TransportProtocol};

const NOW: Timestamp = Timestamp { seconds: 1_700_000_000, nanos: 0 };

// ── Frame builders ────────────────────────────────────────────────────────

// Builds a minimal 4E request: subheader|serial|reserved|net|pc|io|stn|len|timer|cmd|sub|extra
fn make_request(serial: u16, net: u8, pc: u8, cmd: u16, sub: u16, extra: &[u8]) -> Vec<u8> {
    let data_len = 6u16 + extra.len() as u16;
    let mut buf = Vec::with_capacity(19 + extra.len());
    buf.extend_from_slice(&SUBHEADER_REQUEST.to_le_bytes());
    buf.extend_from_slice(&serial.to_le_bytes());
    buf.extend_from_slice(&0x0000u16.to_le_bytes()); // reserved
    buf.push(net);
    buf.push(pc);
    buf.extend_from_slice(&0x03FFu16.to_le_bytes()); // module I/O
    buf.push(0x00); // station
    buf.extend_from_slice(&data_len.to_le_bytes());
    buf.extend_from_slice(&0x0010u16.to_le_bytes()); // monitoring timer
    buf.extend_from_slice(&cmd.to_le_bytes());
    buf.extend_from_slice(&sub.to_le_bytes());
    buf.extend_from_slice(extra);
    buf
}

// Builds a minimal 4E response: same header fields, then end_code(2) + extra.
fn make_response(serial: u16, net: u8, pc: u8, end_code: u16, extra: &[u8]) -> Vec<u8> {
    let data_len = 2u16 + extra.len() as u16;
    let mut buf = Vec::with_capacity(15 + extra.len());
    buf.extend_from_slice(&SUBHEADER_RESPONSE.to_le_bytes());
    buf.extend_from_slice(&serial.to_le_bytes());
    buf.extend_from_slice(&0x0000u16.to_le_bytes());
    buf.push(net);
    buf.push(pc);
    buf.extend_from_slice(&0x03FFu16.to_le_bytes());
    buf.push(0x00);
    buf.extend_from_slice(&data_len.to_le_bytes());
    buf.extend_from_slice(&end_code.to_le_bytes());
    buf.extend_from_slice(extra);
    buf
}

fn make_chunk<'a>(
    payload: &'a [u8],
    src_port: u16,
    dst_port: u16,
    session: &str,
) -> StreamChunk<'a> {
    StreamChunk {
        capture_id: "test_cap",
        segment_hash: "deadbeef",
        interface_id: 0,
        frame_index: 1,
        timestamp: NOW,
        context: PacketContext {
            src_ip: IpAddress::V4([10, 0, 0, 1]),
            dst_ip: IpAddress::V4([10, 0, 0, 2]),
            src_port,
            dst_port,
            src_mac: [0u8; 6],
            dst_mac: [0u8; 6],
            vlan_id: None,
            timestamp: 0,
        },
        ethertype: 0x0800,
        ip_proto: Some(6),
        llc: None,
        transport: TransportProtocol::Tcp,
        payload,
        session_key: session.to_string(),
        captured_len: payload.len() as u64,
    }
}

// ── Test 1: request alone → no events ────────────────────────────────────

#[test]
fn test_batch_read_word_request_alone_no_event() {
    let mut dec = MelsecDecoder::default();
    let mut out = Vec::new();
    let frame = make_request(0x0001, 0x00, 0xFF, 0x0401, 0x0001, &[]);
    dec.on_stream_chunk(&make_chunk(&frame, 55000, 5007, "sess-1"), &mut out);
    assert!(
        out.is_empty(),
        "request alone must not emit; got {} events",
        out.len()
    );
    assert_eq!(dec.pending.len(), 1);
}

// ── Test 2: Batch Read request + response end_code=0 → ok ────────────────

#[test]
fn test_batch_read_word_paired_ok() {
    let mut dec = MelsecDecoder::default();
    let mut out = Vec::new();
    let sess = "sess-2";
    let req = make_request(0x0002, 0x00, 0xFF, 0x0401, 0x0001, &[]);
    dec.on_stream_chunk(&make_chunk(&req, 55000, 5007, sess), &mut out);
    assert!(out.is_empty());

    let resp = make_response(0x0002, 0x00, 0xFF, 0x0000, &[0x01, 0x00, 0x02, 0x00]);
    dec.on_stream_chunk(&make_chunk(&resp, 5007, 55000, sess), &mut out);

    assert_eq!(out.len(), 1);
    let BronzeEventFamily::ProtocolTransaction(ref txn) = out[0].family else {
        panic!("expected ProtocolTransaction");
    };
    assert_eq!(txn.operation, "slmp_batch_read_word");
    assert_eq!(txn.status, "ok");
    assert!(dec.pending.is_empty());
}

// ── Test 3: Batch Write + end_code=0xC059 → error status ─────────────────

#[test]
fn test_batch_write_word_error_status() {
    let mut dec = MelsecDecoder::default();
    let mut out = Vec::new();
    let sess = "sess-3";
    let req = make_request(0x0003, 0x00, 0xFF, 0x1401, 0x0001, &[]);
    dec.on_stream_chunk(&make_chunk(&req, 55001, 5007, sess), &mut out);
    let resp = make_response(0x0003, 0x00, 0xFF, 0xC059, &[]);
    dec.on_stream_chunk(&make_chunk(&resp, 5007, 55001, sess), &mut out);

    assert_eq!(out.len(), 1);
    let BronzeEventFamily::ProtocolTransaction(ref txn) = out[0].family else {
        panic!("expected ProtocolTransaction");
    };
    assert_eq!(txn.operation, "slmp_batch_write_word");
    assert_eq!(txn.status, "slmp_error_0xc059");
}

// ── Test 4: Read CPU Model → AssetObservation with model name ─────────────

#[test]
fn test_read_cpu_model_emits_asset_observation() {
    let mut dec = MelsecDecoder::default();
    let mut out = Vec::new();
    let sess = "sess-4";

    let req = make_request(0x0004, 0x00, 0xFF, 0x0101, 0x0000, &[]);
    dec.on_stream_chunk(&make_chunk(&req, 55002, 5007, sess), &mut out);
    assert!(out.is_empty());

    // 16-byte null-padded model name + 2-byte model code.
    let mut model_data = b"Q03UDV CPU\x00\x00\x00\x00\x00\x00".to_vec();
    model_data.extend_from_slice(&[0x04, 0x00]); // model code (ignored)
    let resp = make_response(0x0004, 0x00, 0xFF, 0x0000, &model_data);
    dec.on_stream_chunk(&make_chunk(&resp, 5007, 55002, sess), &mut out);

    assert_eq!(out.len(), 2, "expected transaction + asset observation");
    let obs_ev = out
        .iter()
        .find(|e| matches!(e.family, BronzeEventFamily::AssetObservation(_)))
        .expect("AssetObservation missing");
    let BronzeEventFamily::AssetObservation(ref obs) = obs_ev.family else {
        unreachable!()
    };
    assert_eq!(obs.vendor.as_deref(), Some("Mitsubishi"));
    assert_eq!(obs.role.as_deref(), Some("mitsubishi_plc"));
    let model = obs.model.as_deref().unwrap_or("");
    assert!(
        model.starts_with("Q03UDV"),
        "expected 'Q03UDV...', got '{model}'"
    );
}

// ── Test 5: Remote Run → operation="slmp_remote_run" ─────────────────────

#[test]
fn test_remote_run_operation_name() {
    let mut dec = MelsecDecoder::default();
    let mut out = Vec::new();
    let sess = "sess-5";
    let req = make_request(0x0005, 0x00, 0xFF, 0x1810, 0x0000, &[]);
    dec.on_stream_chunk(&make_chunk(&req, 55003, 5007, sess), &mut out);
    let resp = make_response(0x0005, 0x00, 0xFF, 0x0000, &[]);
    dec.on_stream_chunk(&make_chunk(&resp, 5007, 55003, sess), &mut out);

    assert_eq!(out.len(), 1);
    let BronzeEventFamily::ProtocolTransaction(ref txn) = out[0].family else {
        panic!("expected ProtocolTransaction");
    };
    assert_eq!(txn.operation, "slmp_remote_run");
    assert_eq!(txn.status, "ok");
}

// ── Test 6: Unknown command → ParseAnomaly(low) + operation has "unknown" ─

#[test]
fn test_unknown_command_emits_anomaly_and_unknown_operation() {
    let mut dec = MelsecDecoder::default();
    let mut out = Vec::new();
    let sess = "sess-6";

    let req = make_request(0x0006, 0x00, 0xFF, 0x9999, 0x0000, &[]);
    dec.on_stream_chunk(&make_chunk(&req, 55004, 5007, sess), &mut out);

    assert_eq!(out.len(), 1, "anomaly expected after unknown request");
    let BronzeEventFamily::ParseAnomaly(ref a) = out[0].family else {
        panic!("expected ParseAnomaly");
    };
    assert_eq!(a.severity, "low");
    assert!(
        a.reason.contains("unknown") || a.reason.contains("0x9999"),
        "reason should mention unknown command: {}",
        a.reason
    );

    let resp = make_response(0x0006, 0x00, 0xFF, 0x0000, &[]);
    dec.on_stream_chunk(&make_chunk(&resp, 5007, 55004, sess), &mut out);

    let txn_ev = out
        .iter()
        .find(|e| matches!(e.family, BronzeEventFamily::ProtocolTransaction(_)))
        .expect("ProtocolTransaction missing");
    let BronzeEventFamily::ProtocolTransaction(ref txn) = txn_ev.family else {
        unreachable!()
    };
    assert!(
        txn.operation.contains("unknown"),
        "operation must contain 'unknown', got '{}'",
        txn.operation
    );
}

// ── Pairing, flush and labels ────────────────────────────────────────────

#[test]
fn responses_are_paired_within_session_and_serial() {
    let mut dec = MelsecDecoder::default();
    let mut out = Vec::new();
    let req = make_request(7, 0, 0xFF, 0x0401, 0x0001, &[]);
    dec.on_stream_chunk(&make_chunk(&req, 55000, 5007, "a"), &mut out);
    let other = make_response(8, 0, 0xFF, 0, &[]);
    let resp = make_response(7, 0, 0xFF, 0, &[]);
    dec.on_stream_chunk(&make_chunk(&other, 5007, 55000, "a"), &mut out);
    dec.on_stream_chunk(&make_chunk(&resp, 5007, 55000, "b"), &mut out);
    assert_eq!(dec.pending.len(), 1);
    dec.on_stream_chunk(&make_chunk(&resp, 5007, 55000, "a"), &mut out);
    assert!(dec.pending.is_empty());
    let BronzeEventFamily::ProtocolTransaction(txn) = &out.last().unwrap().family else { panic!() };
    assert_eq!(txn.operation, "slmp_batch_read_word");
    assert_eq!(txn.status, "ok");
}

#[test]
fn idle_flush_reports_or_keeps() {
    let mut dec = MelsecDecoder::default();
    let mut out = Vec::new();
    for (serial, seconds) in [(1u16, 100i64), (2, 300), (3, 200)] {
        let req = make_request(serial, 0, 0xFF, 0x0401, 0x0001, &[]);
        let mut c = make_chunk(&req, 55000, 5007, "s");
        c.timestamp = Timestamp { seconds, nanos: 0 };
        dec.on_stream_chunk(&c, &mut out);
    }
    assert!(out.is_empty());
    dec.on_idle_flush(Timestamp { seconds: 200, nanos: 0 }, &mut out);
    assert_eq!(out.len(), 2);
    assert_eq!(dec.pending.len(), 1);
    dec.on_idle_flush(Timestamp { seconds: 299, nanos: 1 }, &mut out);
    assert_eq!(out.len(), 3);
    assert!(dec.pending.is_empty());
}

#[test]
fn labels_are_unknown_exactly_with_an_anomaly() {
    for command in [0x0401u16, 0x1401, 0x0101, 0x1001, 0x1234, 0x0000, 0xFFFF] {
        for sub in [0u16, 1, 2, 0x0080] {
            let mut out = Vec::new();
            let req = make_request(1, 0, 0xFF, command, sub, &[]);
            MelsecDecoder::default().on_stream_chunk(&make_chunk(&req, 55000, 5007, "s"), &mut out);
            let unknown = slmp_operation_name(command, sub).contains("unknown");
            let anomalies = out.iter().filter(|e| e.family_name() == "parse_anomaly").count();
            assert_eq!(unknown, anomalies == 1, "{command:#06x} {sub:#06x}");
        }
    }
}

#[test]
fn a_controller_is_shown_once() {
    let mut dec = MelsecDecoder::default();
    let mut shown = 0;
    for serial in 0..3u16 {
        let mut out = Vec::new();
        let req = make_request(serial, 0, 0xFF, 0x0101, 0x0000, &[]);
        dec.on_stream_chunk(&make_chunk(&req, 55000, 5007, "s"), &mut out);
        let mut model = b"Q03UDECPU".to_vec();
        model.resize(18, b' ');
        let resp = make_response(serial, 0, 0xFF, 0, &model);
        dec.on_stream_chunk(&make_chunk(&resp, 5007, 55000, "s"), &mut out);
        shown += out.iter().filter(|e| e.family_name() == "asset_observation").count();
    }
    assert_eq!(shown, 1);
}

#[test]
fn cpu_model_text_is_cut_and_trimmed() {
    let mut resp = make_response(1, 0, 0xFF, 0, b" L02CPU \0rest");
    assert_eq!(parse_cpu_model_name(&resp), "L02CPU");
    resp[16] = 0xFF;
    assert_eq!(parse_cpu_model_name(&resp), "\u{FFFD}02CPU");
    assert_eq!(parse_cpu_model_name(&resp[..15]), "unknown");
}
