use ot_decoders::events::{BronzeEvent, BronzeEventFamily, Dissection, ProtocolFields};
use ot_decoders::opc_ua::{
    msg_body, opc_ua_operation_name, service_type_to_name, OpcUaBronzeFields, OpcUaDecoderWrapper,
    OpcUaFields,
};
use ot_decoders::packet::{IpAddress, PacketContext, StreamChunk, Timestamp, TransportProtocol};

const NOW: Timestamp = Timestamp { seconds: 1_700_000_000, nanos: 0 };

fn client_ctx() -> PacketContext {
    PacketContext {
        src_mac: [0; 6],
        dst_mac: [0; 6],
        src_ip: IpAddress::V4([10, 0, 0, 1]),
        dst_ip: IpAddress::V4([10, 0, 0, 2]),
        src_port: 49500,
        dst_port: 4840,
        vlan_id: None,
        timestamp: 1_700_000_000_000_000,
    }
}

fn server_ctx() -> PacketContext {
    PacketContext {
        src_mac: [0; 6],
        dst_mac: [0; 6],
        src_ip: IpAddress::V4([10, 0, 0, 2]),
        dst_ip: IpAddress::V4([10, 0, 0, 1]),
        src_port: 4840,
        dst_port: 49500,
        vlan_id: None,
        timestamp: 1_700_000_001_000_000,
    }
}

fn chunk<'a>(
    payload: &'a [u8],
    ctx: &'a PacketContext,
    session_key: &'a str,
) -> StreamChunk<'a> {
    StreamChunk {
        capture_id: "cap1",
        interface_id: 0,
        frame_index: 0,
        timestamp: NOW,
        segment_hash: "seg",
        session_key: session_key.to_string(),
        captured_len: payload.len() as u64,
        payload,
        context: ctx.clone(),
        ethertype: 0x0800,
        ip_proto: Some(6),
        llc: None,
        transport: TransportProtocol::Tcp,
    }
}

fn build_hdr(msg_type: &[u8; 3], chunk_type: u8, size: u32) -> Vec<u8> {
    let mut p = Vec::new();
    p.extend_from_slice(msg_type);
    p.push(chunk_type);
    p.extend_from_slice(&size.to_le_bytes());
    p
}

/// The first layer of a message.
fn dissect(p: &[u8]) -> OpcUaFields {
    let message_type: String = p[..3].iter().map(|b| *b as char).collect();
    let service_type = match message_type.as_str() {
        "HEL" => "Hello",
        "ACK" => "Acknowledge",
        "OPN" => "OpenSecureChannel",
        "ERR" => "Error (0x800D0000)",
        _ => "Message",
    };
    OpcUaFields {
        request_id: if message_type == "MSG" && p.len() >= 24 {
            u32::from_le_bytes([p[20], p[21], p[22], p[23]])
        } else {
            0
        },
        service_type: service_type.to_string(),
        message_type,
    }
}

fn extract_opc_ua_fields(events: &[BronzeEvent]) -> &OpcUaBronzeFields {
    for ev in events {
        if let BronzeEventFamily::ProtocolTransaction(tx) = &ev.family {
            if let Some(ProtocolFields::OpcUa(f)) = &tx.protocol_fields {
                return f;
            }
        }
    }
    panic!("no OpcUa ProtocolFields found in events");
}

// --- HEL/ACK handshake ---

#[test]
fn hel_ack_handshake_typed_fields() {
    let mut decoder = OpcUaDecoderWrapper::default();
    let ctx = client_ctx();

    // HEL — client sends to server port 4840
    let mut hel = build_hdr(b"HEL", b'F', 64);
    hel.extend_from_slice(&[0u8; 24]); // Hello body padding
    let mut out = Vec::new();
    decoder.on_stream_chunk(
        &chunk(&hel, &ctx, "sess1"),
        Dissection::Parsed(dissect(&hel)),
        Vec::new(),
        &mut out,
    );
    let f = extract_opc_ua_fields(&out);
    assert_eq!(f.message_type, "HEL");
    assert_eq!(f.chunk_type, "F");
    assert_eq!(f.direction, "session");
    assert!(f.is_request); // dst_port 4840
    assert!(!f.is_response);
    assert_eq!(f.service_name.as_deref(), Some("Hello"));
    assert!(f.secure_channel_id.is_none());
    assert!(f.status_code.is_none());

    // ACK — server responds from port 4840
    let ack_ctx = server_ctx();
    let ack = build_hdr(b"ACK", b'F', 28);
    let mut out2 = Vec::new();
    decoder.on_stream_chunk(
        &chunk(&ack, &ack_ctx, "sess1"),
        Dissection::Parsed(dissect(&ack)),
        Vec::new(),
        &mut out2,
    );
    let f2 = extract_opc_ua_fields(&out2);
    assert_eq!(f2.message_type, "ACK");
    assert_eq!(f2.direction, "session");
    assert!(!f2.is_request);
    assert!(f2.is_response); // src_port 4840
    assert_eq!(f2.service_name.as_deref(), Some("Acknowledge"));
}

// --- OPN OpenSecureChannelRequest ---

#[test]
fn opn_open_secure_channel_typed_fields() {
    let mut decoder = OpcUaDecoderWrapper::default();
    let ctx = client_ctx();

    let mut opn = build_hdr(b"OPN", b'F', 132);
    opn.extend_from_slice(&7u32.to_le_bytes()); // secure_channel_id
    opn.extend_from_slice(&[0u8; 64]); // body padding

    let mut out = Vec::new();
    decoder.on_stream_chunk(
        &chunk(&opn, &ctx, "sess1"),
        Dissection::Parsed(dissect(&opn)),
        Vec::new(),
        &mut out,
    );
    let f = extract_opc_ua_fields(&out);
    assert_eq!(f.message_type, "OPN");
    assert_eq!(f.secure_channel_id, Some(7));
    assert_eq!(f.direction, "session");
    assert_eq!(f.service_name.as_deref(), Some("OpenSecureChannel"));
    assert!(f.request_id.is_none()); // OPN has no request_id
}

// --- MSG ReadRequest with secure_channel_id + request_id ---

#[test]
fn msg_read_request_typed_fields() {
    let mut decoder = OpcUaDecoderWrapper::default();
    let ctx = client_ctx();

    let mut msg = build_hdr(b"MSG", b'F', 100);
    msg.extend_from_slice(&42u32.to_le_bytes()); // secure_channel_id
    msg.extend_from_slice(&3u32.to_le_bytes()); // security_token_id
    msg.extend_from_slice(&11u32.to_le_bytes()); // sequence_number
    msg.extend_from_slice(&99u32.to_le_bytes()); // request_id
    // body: fill enough bytes that service decoder can try to parse
    msg.extend_from_slice(&[0u8; 64]);

    let mut out = Vec::new();
    decoder.on_stream_chunk(
        &chunk(&msg, &ctx, "sess1"),
        Dissection::Parsed(dissect(&msg)),
        Vec::new(),
        &mut out,
    );
    let f = extract_opc_ua_fields(&out);
    assert_eq!(f.message_type, "MSG");
    assert_eq!(f.chunk_type, "F");
    assert_eq!(f.secure_channel_id, Some(42));
    assert_eq!(f.sequence_number, Some(11));
    assert_eq!(f.request_id, Some(99));
    assert!(f.is_request);
    assert!(!f.is_response);
    assert_eq!(f.direction, "request");
}

// --- ERR with status_code ---

#[test]
fn err_frame_status_code_typed_fields() {
    let mut decoder = OpcUaDecoderWrapper::default();
    let ctx = server_ctx(); // ERR can come from either side

    let mut err = build_hdr(b"ERR", b'F', 16);
    err.extend_from_slice(&0x800D0000u32.to_le_bytes()); // error code
    err.extend_from_slice(&[0u8; 4]); // reason string length

    let mut out = Vec::new();
    decoder.on_stream_chunk(
        &chunk(&err, &ctx, "sess1"),
        Dissection::Parsed(dissect(&err)),
        Vec::new(),
        &mut out,
    );
    let f = extract_opc_ua_fields(&out);
    assert_eq!(f.message_type, "ERR");
    assert_eq!(f.status_code, Some(0x800D0000));
    assert_eq!(f.direction, "error");
}

// --- MSG response (server→client direction) ---

#[test]
fn msg_response_direction() {
    let mut decoder = OpcUaDecoderWrapper::default();
    let ctx = server_ctx();

    let mut msg = build_hdr(b"MSG", b'F', 100);
    msg.extend_from_slice(&42u32.to_le_bytes()); // secure_channel_id
    msg.extend_from_slice(&3u32.to_le_bytes()); // security_token_id
    msg.extend_from_slice(&12u32.to_le_bytes()); // sequence_number
    msg.extend_from_slice(&99u32.to_le_bytes()); // request_id
    msg.extend_from_slice(&[0u8; 64]);

    let mut out = Vec::new();
    decoder.on_stream_chunk(
        &chunk(&msg, &ctx, "sess1"),
        Dissection::Parsed(dissect(&msg)),
        Vec::new(),
        &mut out,
    );
    let f = extract_opc_ua_fields(&out);
    assert!(!f.is_request);
    assert!(f.is_response);
    assert_eq!(f.direction, "response");
}

// --- The attribute map ---

#[test]
fn attributes_still_populated_for_backward_compat() {
    let mut decoder = OpcUaDecoderWrapper::default();
    let ctx = client_ctx();

    let mut msg = build_hdr(b"MSG", b'F', 100);
    msg.extend_from_slice(&5u32.to_le_bytes()); // secure_channel_id
    msg.extend_from_slice(&1u32.to_le_bytes()); // security_token_id
    msg.extend_from_slice(&2u32.to_le_bytes()); // sequence_number
    msg.extend_from_slice(&77u32.to_le_bytes()); // request_id
    msg.extend_from_slice(&[0u8; 64]);

    let mut out = Vec::new();
    decoder.on_stream_chunk(
        &chunk(&msg, &ctx, "sess1"),
        Dissection::Parsed(dissect(&msg)),
        Vec::new(),
        &mut out,
    );
    for ev in &out {
        if let BronzeEventFamily::ProtocolTransaction(tx) = &ev.family {
            assert!(
                tx.attributes.contains_key("message_type"),
                "attributes.message_type missing"
            );
            assert!(
                tx.attributes.contains_key("service_type"),
                "attributes.service_type missing"
            );
            assert!(
                tx.attributes.contains_key("request_id"),
                "attributes.request_id missing"
            );
            return;
        }
    }
    panic!("no ProtocolTransaction event found");
}

// --- What the service decoder is handed ---

#[test]
fn body_of_a_message_lies_behind_its_header() {
    let ctx = client_ctx();
    let mut msg = build_hdr(b"MSG", b'F', 28);
    msg.extend_from_slice(&42u32.to_le_bytes());
    msg.extend_from_slice(&3u32.to_le_bytes());
    msg.extend_from_slice(&11u32.to_le_bytes());
    msg.extend_from_slice(&99u32.to_le_bytes());
    msg.extend_from_slice(&[1, 2, 3, 4]);
    let c = chunk(&msg, &ctx, "sess1");
    let body = msg_body(&c, &dissect(&msg)).unwrap();
    assert_eq!(body.body, [1, 2, 3, 4]);
    assert_eq!((body.secure_channel_id, body.request_id), (42, 99));
    assert_eq!(body.now_us, 1_700_000_000_000);

    let short = &msg[..23];
    assert!(msg_body(&chunk(short, &ctx, "sess1"), &dissect(&msg)).is_none());
    let hel = build_hdr(b"HEL", b'F', 64);
    assert!(msg_body(&chunk(&hel, &ctx, "sess1"), &dissect(&hel)).is_none());
}

#[test]
fn service_events_count_only_with_a_body() {
    let ctx = client_ctx();
    let mut msg = build_hdr(b"MSG", b'F', 24);
    msg.extend_from_slice(&[0u8; 16]);
    let hel = build_hdr(b"HEL", b'F', 64);
    let mut decoder = OpcUaDecoderWrapper::default();
    let mut service = Vec::new();
    decoder.on_stream_chunk(
        &chunk(&hel, &ctx, "sess1"),
        Dissection::Malformed,
        Vec::new(),
        &mut service,
    );
    let mut out = Vec::new();
    decoder.on_stream_chunk(
        &chunk(&hel, &ctx, "sess1"),
        Dissection::Parsed(dissect(&hel)),
        service.clone(),
        &mut out,
    );
    assert_eq!(out.len(), 1);
    decoder.on_stream_chunk(
        &chunk(&msg, &ctx, "sess1"),
        Dissection::Parsed(dissect(&msg)),
        service,
        &mut out,
    );
    assert_eq!(out.len(), 3);
    assert_eq!(out[2].family_name(), "parse_anomaly");
}

#[test]
fn a_message_is_never_request_and_response() {
    for (src, dst) in [(4840, 4840), (4840, 9), (9, 4840), (9, 9), (12001, 4840), (12001, 9)] {
        let mut ctx = client_ctx();
        ctx.src_port = src;
        ctx.dst_port = dst;
        let msg = build_hdr(b"MSG", b'C', 8);
        let mut out = Vec::new();
        OpcUaDecoderWrapper::default().on_stream_chunk(
            &chunk(&msg, &ctx, "sess1"),
            Dissection::Parsed(dissect(&msg)),
            Vec::new(),
            &mut out,
        );
        let f = extract_opc_ua_fields(&out);
        assert!(!(f.is_request && f.is_response));
        assert_eq!(f.is_request, dst == 4840 || dst == 12001);
        assert_eq!(f.chunk_type, "C");
    }
}

#[test]
fn event_ids_count_up() {
    let mut decoder = OpcUaDecoderWrapper::default();
    assert_eq!(decoder.next_event_id(), "opcua-1");
    assert_eq!(decoder.next_event_id(), "opcua-2");
}

#[test]
fn service_labels() {
    assert_eq!(service_type_to_name("Error (0x1)"), "Error");
    assert_eq!(service_type_to_name("Hello"), "Hello");
    assert_eq!(opc_ua_operation_name("Open Secure-Channel"), "open_secure_channel");
    assert_eq!(opc_ua_operation_name(""), "opc_ua_message");
}
