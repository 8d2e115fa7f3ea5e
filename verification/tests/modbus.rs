use ot_decoders::collections::Attributes;
use ot_decoders::events::{BronzeEvent, BronzeEventFamily, ProtocolTransaction};
use ot_decoders::modbus::{
    is_modbus_write, modbus_bronze_fields, modbus_function_name, modbus_summary, ModbusDecoder,
    ModbusFields, ModbusPdu,
};
use ot_decoders::packet::{IpAddress, PacketContext, StreamChunk, Timestamp, TransportProtocol};

const NOW: Timestamp = Timestamp { seconds: 1_700_000_000, nanos: 0 };

fn ctx(src_port: u16, dst_port: u16) -> PacketContext {
    PacketContext {
        src_mac: [0x02, 0, 0, 0, 0, 0x0A],
        dst_mac: [0x02, 0, 0, 0, 0, 0x0B],
        src_ip: IpAddress::V4([10, 0, 0, 1]),
        dst_ip: IpAddress::V4([10, 0, 0, 2]),
        src_port,
        dst_port,
        vlan_id: None,
        timestamp: 0,
    }
}

fn chunk<'a>(payload: &'a [u8], context: PacketContext, transport: TransportProtocol) -> StreamChunk<'a> {
    StreamChunk {
        capture_id: "cap",
        segment_hash: "seg",
        interface_id: 3,
        frame_index: 7,
        timestamp: NOW,
        context,
        ethertype: 0x0800,
        ip_proto: None,
        llc: None,
        transport,
        payload,
        session_key: "sess".to_string(),
        captured_len: 60,
    }
}

fn families(events: &[BronzeEvent]) -> Vec<&'static str> {
    events.iter().map(|e| e.family_name()).collect()
}

fn fields(transaction_id: u16, function_code: u8, registers: &[(u16, u16)]) -> ModbusFields {
    ModbusFields {
        transaction_id,
        unit_id: 1,
        function_code,
        is_exception: false,
        exception_code: 0,
        registers: registers.to_vec(),
        device_identification: Attributes::new(),
        pdu: None,
    }
}

fn pdu(start_addr: Option<u16>, qty: Option<u16>, values: &[u16]) -> ModbusPdu {
    ModbusPdu { function_code: 3, start_addr, qty, values: values.to_vec() }
}

fn request(dec: &mut ModbusDecoder, f: ModbusFields, session: &str, out: &mut Vec<BronzeEvent>) {
    let mut c = chunk(&[0xAB, 0xCD], ctx(50_000, 502), TransportProtocol::Tcp);
    c.session_key = session.to_string();
    dec.on_stream_chunk(&c, Some(f), out);
}

fn response(dec: &mut ModbusDecoder, f: ModbusFields, session: &str, out: &mut Vec<BronzeEvent>) {
    let mut c = chunk(&[0xEE], ctx(502, 50_000), TransportProtocol::Tcp);
    c.session_key = session.to_string();
    dec.on_stream_chunk(&c, Some(f), out);
}

fn tx(ev: &BronzeEvent) -> &ProtocolTransaction {
    match &ev.family {
        BronzeEventFamily::ProtocolTransaction(t) => t,
        other => panic!("expected ProtocolTransaction, got {other:?}"),
    }
}

#[test]
fn modbus_request_and_response_are_one_transaction() {
    let mut dec = ModbusDecoder::default();
    let mut out = Vec::new();
    let mut req = fields(7, 3, &[]);
    req.pdu = Some(pdu(Some(100), Some(2), &[]));
    request(&mut dec, req, "sess", &mut out);
    assert!(out.is_empty());
    assert_eq!(dec.pending.len(), 1);

    let mut resp = fields(7, 3, &[(100, 11), (101, 12)]);
    resp.pdu = Some(pdu(None, None, &[11, 12]));
    response(&mut dec, resp, "sess", &mut out);
    assert_eq!(out.len(), 1);
    assert_eq!(dec.pending.len(), 0);

    let t = tx(&out[0]);
    assert_eq!(t.operation, "read_holding_registers");
    assert_eq!(t.status, "ok");
    assert_eq!(t.request_summary.as_deref(), Some("read_holding_registers"));
    assert_eq!(t.response_summary.as_deref(), Some("read_holding_registers 100=11, 101=12"));
    assert!(t.object_refs.is_empty());
    assert_eq!(t.values.len(), 2);
    assert_eq!(t.values[1].object_ref, "register:101");
    assert_eq!(t.values[1].value.as_deref(), Some("12"));
    let m = t.modbus.as_ref().unwrap();
    assert_eq!((m.fc, m.start_addr, m.qty), (3, Some(100), Some(2)));
    assert_eq!(m.values, [11, 12]);
    assert_eq!(m.direction, "paired");
    // The envelope is the request's, with the bytes of both.
    assert_eq!(out[0].envelope.dst_port, 502);
    assert_eq!(out[0].envelope.bytes_count, 120);
    assert_eq!(out[0].envelope.packet_count, 2);
}

#[test]
fn modbus_pairing_stays_in_session() {
    let mut dec = ModbusDecoder::default();
    let mut out = Vec::new();
    request(&mut dec, fields(1, 3, &[]), "a", &mut out);
    // Another session, another transaction id and another unit: three strangers.
    response(&mut dec, fields(1, 3, &[]), "b", &mut out);
    response(&mut dec, fields(2, 3, &[]), "a", &mut out);
    let mut other_unit = fields(1, 3, &[]);
    other_unit.unit_id = 9;
    response(&mut dec, other_unit, "a", &mut out);
    assert_eq!(out.len(), 3);
    assert!(out.iter().all(|e| tx(e).status == "response_without_request"));
    assert_eq!(dec.pending.len(), 1);
    response(&mut dec, fields(1, 3, &[]), "a", &mut out);
    assert_eq!(tx(&out[3]).status, "ok");
    assert!(dec.pending.is_empty());
}

#[test]
fn modbus_flush_reports_or_keeps() {
    let mut dec = ModbusDecoder::default();
    let mut out = Vec::new();
    let mut old = chunk(&[1], ctx(50_000, 502), TransportProtocol::Tcp);
    old.timestamp = Timestamp { seconds: 100, nanos: 0 };
    dec.on_stream_chunk(&old, Some(fields(1, 3, &[])), &mut out);
    let mut young = chunk(&[2], ctx(50_000, 502), TransportProtocol::Tcp);
    young.timestamp = Timestamp { seconds: 200, nanos: 0 };
    dec.on_stream_chunk(&young, Some(fields(2, 6, &[(5, 1)])), &mut out);
    assert!(out.is_empty());

    dec.on_idle_flush(Timestamp { seconds: 150, nanos: 0 }, &mut out);
    assert_eq!(out.len(), 1);
    assert_eq!(tx(&out[0]).status, "partial_request");
    assert_eq!(tx(&out[0]).attributes.get("transaction_id").unwrap(), "1");
    assert_eq!(dec.pending.len(), 1);

    // Less than a whole second before its time is close enough.
    dec.on_idle_flush(Timestamp { seconds: 199, nanos: 0 }, &mut out);
    assert_eq!(out.len(), 1);
    dec.on_idle_flush(Timestamp { seconds: 199, nanos: 1 }, &mut out);
    assert_eq!(out.len(), 2);
    assert_eq!(tx(&out[1]).operation, "write_single_register");
    assert!(dec.pending.is_empty());
}

#[test]
fn modbus_write_response_carries_the_request_payload() {
    let mut dec = ModbusDecoder::default();
    let mut out = Vec::new();
    request(&mut dec, fields(3, 6, &[(5, 77)]), "sess", &mut out);
    response(&mut dec, fields(3, 6, &[(5, 77)]), "sess", &mut out);
    assert_eq!(families(&out), ["protocol_transaction", "extracted_artifact"]);
    assert_eq!(tx(&out[0]).object_refs, ["register:5"]);
    let BronzeEventFamily::ExtractedArtifact(a) = &out[1].family else { panic!() };
    assert_eq!(a.artifact_type, "modbus_write_payload");
    assert_eq!(a.artifact_key, "sess:3:1");
    assert_eq!(a.content, [0xAB, 0xCD]);
}

#[test]
fn modbus_exception_and_device_identification() {
    let mut dec = ModbusDecoder::default();
    let mut out = Vec::new();
    let mut refused = fields(4, 3, &[]);
    refused.is_exception = true;
    refused.exception_code = 2;
    request(&mut dec, fields(4, 3, &[]), "sess", &mut out);
    response(&mut dec, refused, "sess", &mut out);
    assert_eq!(tx(&out[0]).status, "exception:2");
    assert_eq!(
        tx(&out[0]).response_summary.as_deref(),
        Some("read_holding_registers exception 2")
    );

    out.clear();
    let mut id = fields(5, 43, &[]);
    id.device_identification.put("vendor_name", "ACME");
    id.device_identification.put("product_code", "PX-1");
    id.device_identification.put("revision", "V2.1");
    response(&mut dec, id, "sess", &mut out);
    assert_eq!(families(&out), ["protocol_transaction", "asset_observation"]);
    assert_eq!(tx(&out[0]).object_refs, ["modbus_device_identification"]);
    assert_eq!(tx(&out[0]).response_summary.as_deref(), Some("PX-1"));
    assert_eq!(tx(&out[0]).attributes.get("device_id_revision").unwrap(), "V2.1");
    let BronzeEventFamily::AssetObservation(a) = &out[1].family else { panic!() };
    assert_eq!(a.asset_key, "10.0.0.1");
    assert_eq!(a.vendor.as_deref(), Some("ACME"));
    assert_eq!(a.model.as_deref(), Some("PX-1"));
    assert_eq!(a.firmware.as_deref(), Some("V2.1"));
    assert_eq!(a.identifiers.get("modbus_product_code").unwrap(), "PX-1");
    assert_eq!(a.identifiers.get("unit_id").unwrap(), "1");
}

#[test]
fn modbus_unparsed_payload_is_an_anomaly() {
    let mut dec = ModbusDecoder::default();
    let mut out = Vec::new();
    let c = chunk(&[0], ctx(50_000, 502), TransportProtocol::Tcp);
    dec.on_stream_chunk(&c, None, &mut out);
    let BronzeEventFamily::ParseAnomaly(a) = &out[0].family else { panic!() };
    assert_eq!(a.reason, "failed to parse modbus payload");
}

#[test]
fn modbus_labels_and_typed_fields() {
    assert_eq!(modbus_function_name(1), "read_coils");
    assert_eq!(modbus_function_name(43), "read_device_identification");
    assert_eq!(modbus_function_name(99), "modbus_function");
    assert!(is_modbus_write(15) && !is_modbus_write(3));
    let mut id = fields(1, 43, &[]);
    id.device_identification.put("url", "x");
    assert_eq!(modbus_summary(&id), "device_identification");

    assert!(modbus_bronze_fields(None, None, false, 0).is_none());
    let written = pdu(Some(9), Some(1), &[42]);
    let alone = modbus_bronze_fields(Some(&written), None, false, 0).unwrap();
    assert_eq!(alone.direction, "request");
    assert_eq!(alone.values, [42]);
    let echoed = modbus_bronze_fields(Some(&written), Some(&pdu(None, None, &[])), true, 4).unwrap();
    assert_eq!(echoed.values, [42]);
    assert_eq!(echoed.exception_code, Some(4));
    let stray = modbus_bronze_fields(None, Some(&written), false, 0).unwrap();
    assert_eq!(stray.direction, "response");
    assert_eq!((stray.start_addr, stray.qty), (None, None));
}
