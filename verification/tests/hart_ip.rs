use ot_decoders::events::{BronzeEventFamily, Dissection, ProtocolFields};
use ot_decoders::hart_ip::{
    hart_ip_bronze_fields, HartDeviceIdentity, HartIpBody, HartIpDecoderWrapper, HartIpFields,
    HartPassThrough,
};
use ot_decoders::packet::{IpAddress, PacketContext, StreamChunk, Timestamp, TransportProtocol};

const NOW: Timestamp = Timestamp { seconds: 1_700_000_000, nanos: 0 };

const HART_IP_HEADER_LEN: usize = 8;

fn build_header(
    message_type: u8,
    message_id: u8,
    status: u8,
    transaction_id: u16,
    body: &[u8],
) -> Vec<u8> {
    let mut pkt = Vec::with_capacity(HART_IP_HEADER_LEN + body.len());
    let msg_len = (HART_IP_HEADER_LEN + body.len()) as u16;
    pkt.push(2); // version
    pkt.push(message_type);
    pkt.push(message_id);
    pkt.push(status);
    pkt.extend_from_slice(&transaction_id.to_be_bytes());
    pkt.extend_from_slice(&msg_len.to_be_bytes());
    pkt.extend_from_slice(body);
    pkt
}

/// Build a Pass-Through frame (message_id=3) using a polling (short)
/// address so `long_address` is None and we can test `field_device_address`.
fn build_pass_through_short(
    message_type: u8,
    command: u8,
    response: bool,
    command_data: &[u8],
) -> Vec<u8> {
    let mut body = Vec::new();
    body.extend_from_slice(&[0xFF, 0xFF]);
    // delimiter: STX (0x02) for request, ACK (0x06) for response; polling
    // address bit 7 = 0.
    body.push(if response { 0x06 } else { 0x02 });
    body.push(0x00); // short address = 0
    body.push(command);
    body.push((command_data.len() + if response { 2 } else { 0 }) as u8);
    if response {
        body.push(0x00); // response_code
        body.push(0x40); // device_status
    }
    body.extend_from_slice(command_data);
    body.push(0xAA); // checksum

    build_header(message_type, 3, 0, 0x0001, &body)
}

/// Build a Pass-Through frame using unique (long) 5-byte address.
fn build_pass_through_long(
    message_type: u8,
    command: u8,
    response: bool,
    long_addr: [u8; 5],
    command_data: &[u8],
) -> Vec<u8> {
    let mut body = Vec::new();
    body.extend_from_slice(&[0xFF, 0xFF]);
    // delimiter: bit 7 set for long (unique) address
    body.push(if response { 0x86 } else { 0x82 });
    body.extend_from_slice(&long_addr);
    body.push(command);
    body.push((command_data.len() + if response { 2 } else { 0 }) as u8);
    if response {
        body.push(0x00); // response_code
        body.push(0x00); // device_status
    }
    body.extend_from_slice(command_data);
    body.push(0xAA);

    build_header(message_type, 3, 0, 0x0002, &body)
}

/// The fields of one message.
fn parse_fields(p: &[u8]) -> HartIpFields {
    let message_type = match p[1] {
        0 => "request",
        1 => "response",
        2 => "publish",
        15 => "nak",
        _ => "unknown",
    };
    let message_id = match p[2] {
        0 => "session_initiate",
        1 => "session_close",
        2 => "keep_alive",
        3 => "pass_through",
        _ => "unknown",
    };
    let b = &p[HART_IP_HEADER_LEN..];
    let body = match (p[1], p[2]) {
        (15, _) => HartIpBody::Error { error_code: b.first().copied() },
        (_, 0) => HartIpBody::SessionInitiate {
            master_type: if b[0] == 1 { "primary_host" } else { "secondary_host" }.to_string(),
            inactivity_close_timer: u32::from_be_bytes([b[1], b[2], b[3], b[4]]),
        },
        (_, 1) => HartIpBody::SessionClose,
        (_, 2) => HartIpBody::KeepAlive,
        (_, 3) => HartIpBody::PassThrough(parse_pass_through(b)),
        _ => HartIpBody::Raw(b.to_vec()),
    };
    HartIpFields {
        version: p[0],
        message_type: message_type.to_string(),
        message_id: message_id.to_string(),
        status: p[3],
        transaction_id: u16::from_be_bytes([p[4], p[5]]),
        message_length: u16::from_be_bytes([p[6], p[7]]),
        body,
        payload: b.to_vec(),
    }
}

/// The HART frame behind its preamble of two bytes.
fn parse_pass_through(b: &[u8]) -> HartPassThrough {
    let is_long = b[2] & 0x80 != 0;
    let is_ack = b[2] & 0x07 == 0x06;
    let at = if is_long { 8 } else { 4 };
    let count = b[at + 1] as usize;
    let data = &b[at + 2..at + 2 + count];
    HartPassThrough {
        frame_type: if is_ack { "ack" } else { "stx" }.to_string(),
        physical_layer_type: "asynchronous".to_string(),
        address_type: if is_long { "unique" } else { "polling" }.to_string(),
        long_address: if is_long { Some([b[3], b[4], b[5], b[6], b[7]]) } else { None },
        command: b[at],
        device_status: if is_ack { Some(data[1]) } else { None },
        payload: if is_ack { data[2..].to_vec() } else { data.to_vec() },
        identity: None,
    }
}

// ── Session Initiate request ──────────────────────────────────────────────

#[test]
fn bronze_session_initiate_request() {
    // message_type=0 (request), message_id=0 (session_initiate)
    let data = build_header(0, 0, 0, 7, &[1, 0, 0, 0, 60]); // primary_host, 60 s timer
    let fields = parse_fields(&data);
    let bf = hart_ip_bronze_fields(&fields);

    assert_eq!(bf.message_type, 0);
    assert_eq!(bf.message_type_name, "request");
    assert_eq!(bf.message_id, 0);
    assert_eq!(bf.message_id_name, "session_initiate");
    assert_eq!(bf.status_byte, 0);
    assert_eq!(bf.sequence_number, 7);
    assert_eq!(bf.direction, "request");
    assert!(bf.passthrough_command.is_none());
    assert!(bf.device_status.is_none());
    assert!(bf.field_device_address.is_none());
}

// ── Session Initiate response ─────────────────────────────────────────────

#[test]
fn bronze_session_initiate_response() {
    let data = build_header(1, 0, 0, 7, &[1, 0, 0, 0, 60]);
    let fields = parse_fields(&data);
    let bf = hart_ip_bronze_fields(&fields);

    assert_eq!(bf.message_type, 1);
    assert_eq!(bf.message_type_name, "response");
    assert_eq!(bf.message_id, 0);
    assert_eq!(bf.message_id_name, "session_initiate");
    assert_eq!(bf.direction, "response");
}

// ── Keep-alive ────────────────────────────────────────────────────────────

#[test]
fn bronze_keep_alive() {
    let data = build_header(0, 2, 0, 42, &[]);
    let fields = parse_fields(&data);
    let bf = hart_ip_bronze_fields(&fields);

    assert_eq!(bf.message_id, 2);
    assert_eq!(bf.message_id_name, "keep_alive");
    assert_eq!(bf.sequence_number, 42);
    assert!(bf.passthrough_command.is_none());
    assert!(bf.device_status.is_none());
}

// ── Passthrough Cmd 0 (Read Unique Identifier) response with identity ─────

#[test]
fn bronze_passthrough_cmd0_read_identifier_response() {
    // Minimal cmd-0 response payload (19 bytes).
    let command_data: [u8; 19] = [
        0x00, 0x12, 0x34, // byte0 (ignored), device_type hi/lo
        0x05, 0x06,       // byte3 (ignored), hart_universal_rev=6
        0x07, 0x08,       // device_rev=7, software_rev=8
        0x09, 0xAA, 0x01, 0x02, 0x03, // hw_rev=9, ignored, device_id bytes
        0x04, 0x05, 0x00, 0x10, 0x11, // more bytes
        0x00, 0x2A,       // manufacturer_id = 42
    ];
    let data = build_pass_through_short(1, 0, true, &command_data);
    let fields = parse_fields(&data);
    let bf = hart_ip_bronze_fields(&fields);

    assert_eq!(bf.message_type, 1, "response");
    assert_eq!(bf.message_id, 3, "pass_through");
    assert_eq!(bf.passthrough_command, Some(0));
    assert_eq!(
        bf.passthrough_command_name.as_deref(),
        Some("read_unique_identifier")
    );
    // device_status comes from the ACK frame (0x40 in build_pass_through_short)
    assert_eq!(bf.device_status, Some(0x40));
    // polling address — no long address
    assert!(bf.field_device_address.is_none());
    assert_eq!(bf.direction, "response");
}

// ── Passthrough Cmd 3 (Read Dynamic Variables) with long address ──────────

#[test]
fn bronze_passthrough_cmd3_long_address() {
    let long_addr: [u8; 5] = [0x26, 0x12, 0x34, 0x00, 0x01];
    let data = build_pass_through_long(0, 3, false, long_addr, &[]);
    let fields = parse_fields(&data);
    let bf = hart_ip_bronze_fields(&fields);

    assert_eq!(bf.passthrough_command, Some(3));
    assert_eq!(
        bf.passthrough_command_name.as_deref(),
        Some("pass_through_command")
    );
    assert_eq!(
        bf.field_device_address,
        Some(vec![0x26, 0x12, 0x34, 0x00, 0x01])
    );
    assert!(bf.device_status.is_none(), "request frame has no device_status");
}

// ── NAK ───────────────────────────────────────────────────────────────────

#[test]
fn bronze_nak() {
    // message_type=15 (NAK)
    let data = build_header(15, 3, 0x05, 99, &[0x10]);
    let fields = parse_fields(&data);
    let bf = hart_ip_bronze_fields(&fields);

    assert_eq!(bf.message_type, 15);
    assert_eq!(bf.message_type_name, "nak");
    assert_eq!(bf.status_byte, 0x05);
    assert_eq!(bf.direction, "error");
}

// ── The typed fields of a message travel in the transaction ───────────────

#[test]
fn bronze_attributes_still_populated_alongside_typed_fields() {
    let data = build_header(0, 0, 0, 5, &[0, 0, 0, 0, 15]);
    let f = parse_fields(&data);

    // Typed surface
    let bf = hart_ip_bronze_fields(&f);
    assert_eq!(bf.message_type, 0);
    assert_eq!(bf.message_id_name, "session_initiate");

    // The decoder hands out both surfaces.
    let chunk = StreamChunk {
        capture_id: "cap",
        segment_hash: "aa",
        interface_id: 0,
        frame_index: 1,
        timestamp: NOW,
        context: PacketContext {
            src_mac: [0; 6],
            dst_mac: [0; 6],
            src_port: 50000,
            dst_port: 5094,
            src_ip: IpAddress::V4([10, 0, 0, 1]),
            dst_ip: IpAddress::V4([10, 0, 0, 2]),
            vlan_id: None,
            timestamp: 0,
        },
        ethertype: 0x0800,
        ip_proto: Some(17),
        llc: None,
        transport: TransportProtocol::Udp,
        payload: &data,
        session_key: "sess".to_string(),
        captured_len: data.len() as u64,
    };
    let mut out = Vec::new();
    HartIpDecoderWrapper.on_datagram(&chunk, Dissection::Parsed(f), &mut out);
    let BronzeEventFamily::ProtocolTransaction(tx) = &out[0].family else {
        panic!("expected ProtocolTransaction");
    };
    assert_eq!(tx.attributes.get("message_id").map(String::as_str), Some("session_initiate"));
    assert_eq!(tx.attributes.get("master_type").map(String::as_str), Some("secondary_host"));
    assert_eq!(tx.attributes.get("inactivity_close_timer").map(String::as_str), Some("15"));
    let Some(ProtocolFields::HartIp(pf)) = &tx.protocol_fields else {
        panic!("expected ProtocolFields::HartIp");
    };
    assert_eq!(pf.message_type, bf.message_type);
    assert_eq!(pf.message_id_name, bf.message_id_name);
    assert_eq!(pf.sequence_number, 5);
    assert_eq!(pf.payload_length, 13);
}

// ── The decoder ───────────────────────────────────────────────────────────

fn chunk(payload: &[u8], transport: TransportProtocol) -> StreamChunk<'_> {
    StreamChunk {
        capture_id: "cap",
        segment_hash: "aa",
        interface_id: 0,
        frame_index: 1,
        timestamp: NOW,
        context: PacketContext {
            src_mac: [0; 6],
            dst_mac: [0; 6],
            src_port: 5094,
            dst_port: 50000,
            src_ip: IpAddress::V4([10, 0, 0, 1]),
            dst_ip: IpAddress::V4([10, 0, 0, 2]),
            vlan_id: None,
            timestamp: 0,
        },
        ethertype: 0x0800,
        ip_proto: Some(17),
        llc: None,
        transport,
        payload,
        session_key: "sess".to_string(),
        captured_len: payload.len() as u64,
    }
}

fn identity() -> HartDeviceIdentity {
    HartDeviceIdentity {
        manufacturer_id: Some(38),
        device_type: Some(0x1234),
        device_id: Some(vec![0x00, 0xAB, 0x0F]),
        tag: Some("FT-101".to_string()),
        hart_universal_revision: Some(7),
        device_revision: Some(3),
        software_revision: Some(2),
        hardware_revision: Some(1),
        configuration_change_counter: Some(5),
        extended_device_status: Some(0),
    }
}

#[test]
fn hart_device_identity_is_shown_with_its_id_in_hexadecimal() {
    let data = build_pass_through_short(1, 0, true, &[]);
    let mut f = parse_fields(&data);
    let HartIpBody::PassThrough(pass) = &mut f.body else { panic!() };
    pass.identity = Some(identity());
    let mut out = Vec::new();
    HartIpDecoderWrapper.on_datagram(
        &chunk(&data, TransportProtocol::Udp),
        Dissection::Parsed(f),
        &mut out,
    );
    let devices: Vec<_> = out
        .iter()
        .filter_map(|e| match &e.family {
            BronzeEventFamily::AssetObservation(a) => Some(a),
            _ => None,
        })
        .collect();
    assert_eq!(devices.len(), 1);
    assert_eq!(devices[0].identifiers.get("hart_device_id").unwrap(), "00ab0f");
    let BronzeEventFamily::ProtocolTransaction(tx) = &out[0].family else { panic!() };
    assert!(tx.object_refs.contains(&"hart_manufacturer:38".to_string()));
    assert_eq!(tx.request_summary.as_deref(), Some("ack read_unique_identifier"));
}

#[test]
fn hart_frames_are_one_transaction_each() {
    let frames = [
        (build_header(0, 0, 0, 1, &[1, 0, 0, 0, 60]), 1),
        (build_header(0, 1, 0, 2, &[]), 0),
        (build_header(0, 2, 0, 3, &[]), 0),
        (build_pass_through_short(0, 3, false, &[]), 0),
        (build_header(15, 3, 5, 9, &[1]), 0),
    ];
    let mut all = Vec::new();
    for (bytes, hosts) in &frames {
        let mut out = Vec::new();
        HartIpDecoderWrapper.on_stream_chunk(
            &chunk(bytes, TransportProtocol::Tcp),
            Some(vec![parse_fields(bytes)]),
            &mut out,
        );
        let count = |name: &str| out.iter().filter(|e| e.family_name() == name).count();
        assert_eq!(count("protocol_transaction"), 1);
        assert_eq!(count("asset_observation"), *hosts);
        let BronzeEventFamily::ProtocolTransaction(tx) = &out[0].family else { panic!() };
        let Some(ProtocolFields::HartIp(pf)) = &tx.protocol_fields else { panic!() };
        assert_eq!(pf.direction, tx.status);
        all.push(parse_fields(bytes));
    }
    let mut out = Vec::new();
    HartIpDecoderWrapper.on_stream_chunk(&chunk(&[0], TransportProtocol::Tcp), Some(all), &mut out);
    assert_eq!(out.iter().filter(|e| e.family_name() == "protocol_transaction").count(), 5);
}

#[test]
fn hart_foreign_and_unparsed_payloads() {
    let mut out = Vec::new();
    let c = chunk(&[9, 9], TransportProtocol::Udp);
    HartIpDecoderWrapper.on_datagram(&c, Dissection::Foreign, &mut out);
    HartIpDecoderWrapper.on_stream_chunk(&c, None, &mut out);
    assert!(out.is_empty());
    HartIpDecoderWrapper.on_datagram(&c, Dissection::Malformed, &mut out);
    HartIpDecoderWrapper.on_stream_chunk(&c, Some(Vec::new()), &mut out);
    assert_eq!(out.len(), 2);
    assert!(out.iter().all(|e| e.family_name() == "parse_anomaly"));
    assert_eq!(out[0].envelope.transport, TransportProtocol::Udp);
    assert_eq!(out[1].envelope.transport, TransportProtocol::Tcp);
}
