use ot_decoders::events::{BronzeEventFamily, ModbusRegKind, PointIdentifier};
use ot_decoders::modbus_udp::{fc_name, is_known_fc, ModbusUdpDecoder};
use ot_decoders::packet::{
    DecoderInterest, IpAddress, PacketContext, StreamChunk, Timestamp, TransportProtocol,
};

const NOW: Timestamp = Timestamp { seconds: 1_700_000_000, nanos: 0 };

fn ip(s: &str) -> IpAddress {
    let b: Vec<u8> = s.split('.').map(|p| p.parse().unwrap()).collect();
    IpAddress::V4([b[0], b[1], b[2], b[3]])
}

// ── Frame / context builders ──────────────────────────────────────────────

fn frame(txn: u16, unit: u8, pdu: &[u8]) -> Vec<u8> {
    let mbap_len = (1 + pdu.len()) as u16;
    let mut f = txn.to_be_bytes().to_vec();
    f.extend_from_slice(&0u16.to_be_bytes());
    f.extend_from_slice(&mbap_len.to_be_bytes());
    f.push(unit);
    f.extend_from_slice(pdu);
    f
}

fn pdu_rhr_req(addr: u16, qty: u16) -> Vec<u8> {
    let mut p = vec![0x03];
    p.extend_from_slice(&addr.to_be_bytes());
    p.extend_from_slice(&qty.to_be_bytes());
    p
}

fn pdu_rhr_resp(vals: &[u16]) -> Vec<u8> {
    let mut p = vec![0x03, (vals.len() * 2) as u8];
    for &v in vals { p.extend_from_slice(&v.to_be_bytes()); }
    p
}

fn ctx_c(src: &str, dst: &str) -> PacketContext {
    PacketContext {
        src_mac: [0x00, 0x11, 0x22, 0x33, 0x44, 0x55],
        dst_mac: [0x66, 0x77, 0x88, 0x99, 0xaa, 0xbb],
        src_ip: ip(src),
        dst_ip: ip(dst),
        src_port: 49152, dst_port: 502,
        vlan_id: None, timestamp: 0,
    }
}

fn ctx_s(src: &str, dst: &str) -> PacketContext {
    PacketContext {
        src_mac: [0x66, 0x77, 0x88, 0x99, 0xaa, 0xbb],
        dst_mac: [0x00, 0x11, 0x22, 0x33, 0x44, 0x55],
        src_ip: ip(src),
        dst_ip: ip(dst),
        src_port: 502, dst_port: 49152,
        vlan_id: None, timestamp: 0,
    }
}

fn dgram<'a>(payload: &'a [u8], ctx: &'a PacketContext) -> StreamChunk<'a> {
    StreamChunk {
        capture_id: "test", segment_hash: "hash",
        interface_id: 0, frame_index: 1,
        timestamp: NOW,
        context: ctx.clone(),
        ethertype: 0x0800, ip_proto: Some(17), llc: None,
        transport: TransportProtocol::Udp,
        payload,
        session_key: "udp:10.0.0.10:49152:10.0.0.20:502".into(),
        captured_len: payload.len() as u64,
    }
}

// ── Test 1: FC=03 request → parks; + response → paired ProtocolTransaction

#[test]
fn read_holding_registers_paired() {
    let mut d = ModbusUdpDecoder::default();
    let req_f = frame(1, 1, &pdu_rhr_req(100, 10));
    let mut out = vec![];
    d.on_datagram(&dgram(&req_f, &ctx_c("10.0.0.10", "10.0.0.20")), &mut out);
    assert!(out.is_empty(), "lone request must not emit");

    let resp_f = frame(1, 1, &pdu_rhr_resp(&[1,2,3,4,5,6,7,8,9,10]));
    d.on_datagram(&dgram(&resp_f, &ctx_s("10.0.0.20", "10.0.0.10")), &mut out);

    let tx = out.iter().find_map(|e| {
        if let BronzeEventFamily::ProtocolTransaction(t) = &e.family { Some(t) } else { None }
    }).expect("ProtocolTransaction required");

    assert_eq!(tx.operation, "read_holding_registers");
    assert_eq!(tx.status, "ok");
    assert_eq!(tx.attributes.get("transport").unwrap(), "udp");
    assert_eq!(tx.attributes.get("transaction_id").unwrap(), "1");
    assert_eq!(tx.attributes.get("function_code").unwrap(), "0x03");
}

// ── Test 2: FC=03 response with 5 values → 5 ProcessReadings ─────────────

#[test]
fn read_holding_registers_process_readings() {
    let mut d = ModbusUdpDecoder::default();
    let req_f  = frame(2, 1, &pdu_rhr_req(40, 5));
    let mut out = vec![];
    d.on_datagram(&dgram(&req_f, &ctx_c("10.0.0.10", "10.0.0.20")), &mut out);

    let resp_f = frame(2, 1, &pdu_rhr_resp(&[100, 200, 300, 400, 500]));
    d.on_datagram(&dgram(&resp_f, &ctx_s("10.0.0.20", "10.0.0.10")), &mut out);

    let readings: Vec<_> = out.iter().filter_map(|e| {
        if let BronzeEventFamily::ProcessReading(r) = &e.family { Some(r) } else { None }
    }).collect();
    assert_eq!(readings.len(), 5);

    for (i, r) in readings.iter().enumerate() {
        assert_eq!(r.source_protocol, "modbus_udp");
        match &r.point_id {
            PointIdentifier::ModbusRegister { unit_id, addr, register_type } => {
                assert_eq!(*unit_id, 1);
                assert_eq!(*addr, 40 + i as u16);
                assert_eq!(*register_type, ModbusRegKind::HoldingRegister);
            }
            other => panic!("expected ModbusRegister, got {other:?}"),
        }
    }
}

// ── Test 3: FC=06 Write Single Register → write_single_register ──────────

#[test]
fn write_single_register_operation() {
    let mut d = ModbusUdpDecoder::default();
    let mut pdu = vec![0x06];
    pdu.extend_from_slice(&200u16.to_be_bytes());
    pdu.extend_from_slice(&0xBEEFu16.to_be_bytes());
    let req_f = frame(3, 1, &pdu);
    let mut out = vec![];
    d.on_datagram(&dgram(&req_f, &ctx_c("10.0.0.10", "10.0.0.20")), &mut out);
    // Modbus FC06 response echoes the request.
    d.on_datagram(&dgram(&req_f, &ctx_s("10.0.0.20", "10.0.0.10")), &mut out);

    let tx = out.iter().find_map(|e| {
        if let BronzeEventFamily::ProtocolTransaction(t) = &e.family { Some(t) } else { None }
    }).expect("ProtocolTransaction required");
    assert_eq!(tx.operation, "write_single_register");
    assert_eq!(tx.status, "ok");
}

// ── Test 4: Exception FC=0x83, exc=0x02 → status=exception_0x02 ──────────

#[test]
fn exception_response_status() {
    let mut d = ModbusUdpDecoder::default();
    let req_f = frame(4, 1, &pdu_rhr_req(0, 1));
    let mut out = vec![];
    d.on_datagram(&dgram(&req_f, &ctx_c("10.0.0.10", "10.0.0.20")), &mut out);

    let exc_f = frame(4, 1, &[0x83, 0x02]);
    d.on_datagram(&dgram(&exc_f, &ctx_s("10.0.0.20", "10.0.0.10")), &mut out);

    let tx = out.iter().find_map(|e| {
        if let BronzeEventFamily::ProtocolTransaction(t) = &e.family { Some(t) } else { None }
    }).expect("ProtocolTransaction required");
    assert_eq!(tx.status, "exception_0x02");
    assert_eq!(tx.operation, "read_holding_registers");
    let mb = tx.modbus.as_ref().unwrap();
    assert_eq!(mb.exception_code, Some(0x02));
}

// ── Test 5: FC=0x5A (UMAS) → no event ────────────────────────────────────

#[test]
fn umas_fc_skipped() {
    let mut d = ModbusUdpDecoder::default();
    let f = frame(5, 1, &[0x5A, 0x01, 0x02]);
    let mut out = vec![];
    d.on_datagram(&dgram(&f, &ctx_c("10.0.0.10", "10.0.0.20")), &mut out);
    assert!(out.is_empty(), "UMAS FC must be silently skipped; got {out:?}");
}

// ── Test 6: Unknown FC=0x42 → ParseAnomaly low + modbus_unknown_fc_66 ─────

#[test]
fn unknown_fc_anomaly_and_operation() {
    let mut d = ModbusUdpDecoder::default();
    let f = frame(6, 1, &[0x42, 0xDE, 0xAD]);
    let mut out = vec![];
    d.on_datagram(&dgram(&f, &ctx_c("10.0.0.10", "10.0.0.20")), &mut out);

    let a = out.iter().find_map(|e| {
        if let BronzeEventFamily::ParseAnomaly(a) = &e.family { Some(a) } else { None }
    }).expect("ParseAnomaly required");
    assert_eq!(a.severity, "low");
    assert!(a.reason.contains("0x42"), "reason: {}", a.reason);

    let mut flush = vec![];
    d.on_idle_flush(NOW, &mut flush);
    let tx = flush.iter().find_map(|e| {
        if let BronzeEventFamily::ProtocolTransaction(t) = &e.family { Some(t) } else { None }
    }).expect("ProtocolTransaction on flush");
    assert_eq!(tx.operation, "modbus_unknown_fc_66");
    assert_eq!(tx.status, "request_only");
}

// ── Test 7: Decoder declares UdpPort(502) interest ───────────────────────

#[test]
fn interest_is_udp_502() {
    assert!(ModbusUdpDecoder::default().interest()
        .contains(&DecoderInterest::UdpPort(502)));
}

// ── Test 8: MBAP length mismatch → medium ParseAnomaly ───────────────────

#[test]
fn mbap_length_mismatch_medium_anomaly() {
    let mut d = ModbusUdpDecoder::default();
    let mut f = frame(7, 1, &pdu_rhr_req(0, 1));
    // Inflate the claimed MBAP length (bytes 4..6).
    f[4] = 0x00;
    f[5] = 0xFF;
    let mut out = vec![];
    d.on_datagram(&dgram(&f, &ctx_c("10.0.0.10", "10.0.0.20")), &mut out);

    let a = out.iter().find_map(|e| {
        if let BronzeEventFamily::ParseAnomaly(a) = &e.family { Some(a) } else { None }
    }).expect("ParseAnomaly required for MBAP length mismatch");
    assert_eq!(a.severity, "medium");
}

// ── The queue of waiting requests ─────────────────────────────────────────

#[test]
fn oldest_of_256_gives_way() {
    let mut d = ModbusUdpDecoder::default();
    let mut out = vec![];
    let client = ctx_c("10.0.0.10", "10.0.0.20");
    let server = ctx_s("10.0.0.20", "10.0.0.10");
    for txn in 0..300u16 {
        d.on_datagram(&dgram(&frame(txn, 1, &pdu_rhr_req(txn, 1)), &client), &mut out);
    }
    assert!(out.is_empty());
    // Requests 0 to 43 have given way, 44 to 299 wait.
    for (txn, status) in [(43u16, "response_only"), (44, "ok"), (299, "ok")] {
        out.clear();
        d.on_datagram(&dgram(&frame(txn, 1, &pdu_rhr_resp(&[5])), &server), &mut out);
        let BronzeEventFamily::ProtocolTransaction(t) = &out.last().unwrap().family else { panic!() };
        assert_eq!(t.status, status, "transaction {txn}");
    }
    out.clear();
    d.on_idle_flush(NOW, &mut out);
    assert_eq!(out.len(), 254);
    out.clear();
    d.on_idle_flush(NOW, &mut out);
    assert!(out.is_empty());
}

#[test]
fn responses_are_paired_between_the_same_addresses() {
    let mut d = ModbusUdpDecoder::default();
    let mut out = vec![];
    let req = frame(5, 1, &pdu_rhr_req(100, 1));
    let resp = frame(5, 1, &pdu_rhr_resp(&[7]));
    d.on_datagram(&dgram(&req, &ctx_c("10.0.0.10", "10.0.0.20")), &mut out);
    d.on_datagram(&dgram(&resp, &ctx_s("10.0.0.21", "10.0.0.10")), &mut out);
    d.on_datagram(&dgram(&resp, &ctx_s("10.0.0.20", "10.0.0.11")), &mut out);
    assert!(out.iter().all(|e| match &e.family {
        BronzeEventFamily::ProtocolTransaction(t) => t.status == "response_only",
        _ => true,
    }));
    out.clear();
    d.on_datagram(&dgram(&resp, &ctx_s("10.0.0.20", "10.0.0.10")), &mut out);
    let BronzeEventFamily::ProtocolTransaction(t) = &out.last().unwrap().family else { panic!() };
    assert_eq!(t.status, "ok");
    let m = t.modbus.as_ref().unwrap();
    assert_eq!((m.start_addr, m.qty), (Some(100), Some(1)));
    assert_eq!(m.values, [7]);
}

#[test]
fn function_codes_are_known_or_numbered() {
    for fc in 0u8..=255 {
        assert_eq!(is_known_fc(fc), !fc_name(fc).contains(&fc.to_string()), "{fc}");
    }
    assert_eq!(fc_name(3), "read_holding_registers");
}
