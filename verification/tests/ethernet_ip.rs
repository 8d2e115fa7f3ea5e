use ot_decoders::ethernet_ip::{
    cip_service_code_name, cip_vendor_name, ethernet_ip_command_name, parse_enip_list_identity,
    EthernetIpBronzeFields, EthernetIpDecoderWrapper, EthernetIpFields,
};
use ot_decoders::events::{BronzeEvent, BronzeEventFamily, ProtocolFields};
use ot_decoders::packet::{IpAddress, PacketContext, StreamChunk, Timestamp, TransportProtocol};

const NOW: Timestamp = Timestamp { seconds: 1_700_000_000, nanos: 0 };

// ── Frame builders ────────────────────────────────────────────────────────

const ENCAP_HEADER_SIZE: usize = 24;

/// Build a minimal EIP encapsulation header.
fn build_encap(command: u16, encap_len: u16, session: u32) -> Vec<u8> {
    let mut pkt = Vec::with_capacity(ENCAP_HEADER_SIZE + encap_len as usize);
    pkt.extend_from_slice(&command.to_le_bytes());
    pkt.extend_from_slice(&encap_len.to_le_bytes());
    pkt.extend_from_slice(&session.to_le_bytes());
    pkt.extend_from_slice(&0u32.to_le_bytes()); // status
    pkt.extend_from_slice(&[0u8; 8]);           // sender_context
    pkt.extend_from_slice(&0u32.to_le_bytes()); // options
    pkt
}

/// Build the CIP common packet format (CPF) wrapping a single data item.
///
/// `item_type`: 0x00B2 = unconnected data item.
fn build_cpf(item_type: u16, data: &[u8]) -> Vec<u8> {
    // CPF: timeout(2) + null address item(4) + item header(4) + item data
    let mut cpf = Vec::new();
    cpf.extend_from_slice(&0u32.to_le_bytes()); // interface_handle (4 bytes for SendRRData)
    cpf.extend_from_slice(&0u16.to_le_bytes()); // timeout
    cpf.extend_from_slice(&2u16.to_le_bytes()); // item count = 2
    // null address item
    cpf.extend_from_slice(&0x0000u16.to_le_bytes()); // type: null address
    cpf.extend_from_slice(&0u16.to_le_bytes());       // length 0
    // data item
    cpf.extend_from_slice(&item_type.to_le_bytes());
    cpf.extend_from_slice(&(data.len() as u16).to_le_bytes());
    cpf.extend_from_slice(data);
    cpf
}

/// Build a CIP request message: service + path_size(words) + path + data.
fn build_cip_request(service: u8, path: &[u8], extra: &[u8]) -> Vec<u8> {
    assert!(path.len() % 2 == 0, "path must be word-aligned");
    let mut msg = vec![service, (path.len() / 2) as u8];
    msg.extend_from_slice(path);
    msg.extend_from_slice(extra);
    msg
}

/// Build a CIP response message: (service | 0x80) + reserved + general_status + ext_size.
fn build_cip_response(service: u8, general_status: u8, ext_status: Option<u16>) -> Vec<u8> {
    let mut msg = vec![service | 0x80, 0x00, general_status];
    if let Some(ext) = ext_status {
        msg.push(1); // ext_status_size = 1 word
        msg.extend_from_slice(&ext.to_le_bytes());
    } else {
        msg.push(0);
    }
    msg
}

/// 8-byte logical path: class (8-bit) + instance (8-bit).
fn logical_path_class_instance(class: u8, instance: u8) -> Vec<u8> {
    // class segment: 0x20 (logical, class, 8-bit)
    // instance segment: 0x24 (logical, instance, 8-bit)
    vec![0x20, class, 0x24, instance]
}

/// 12-byte logical path: class + instance + attribute (all 8-bit).
fn logical_path_class_instance_attr(class: u8, instance: u8, attr: u8) -> Vec<u8> {
    let mut p = logical_path_class_instance(class, instance);
    p.push(0x30); // logical, attribute, 8-bit
    p.push(attr);
    p
}

// ── PacketContext helpers ─────────────────────────────────────────────────

fn ctx_request() -> PacketContext {
    PacketContext {
        src_mac: [0x00; 6],
        dst_mac: [0x00; 6],
        src_ip: IpAddress::V4([10, 0, 0, 1]),
        dst_ip: IpAddress::V4([10, 0, 0, 2]),
        src_port: 49200,
        dst_port: 44818,
        vlan_id: None,
        timestamp: 0,
    }
}

fn ctx_response() -> PacketContext {
    PacketContext {
        src_mac: [0x00; 6],
        dst_mac: [0x00; 6],
        src_ip: IpAddress::V4([10, 0, 0, 2]),
        dst_ip: IpAddress::V4([10, 0, 0, 1]),
        src_port: 44818,
        dst_port: 49200,
        vlan_id: None,
        timestamp: 0,
    }
}

fn chunk<'a>(payload: &'a [u8], ctx: &'a PacketContext) -> StreamChunk<'a> {
    StreamChunk {
        capture_id: "test",
        segment_hash: "hash",
        interface_id: 0,
        frame_index: 1,
        timestamp: NOW,
        captured_len: payload.len() as u64,
        session_key: "sess".to_string(),
        payload,
        context: ctx.clone(),
        ethertype: 0x0800,
        ip_proto: Some(6),
        llc: None,
        transport: TransportProtocol::Tcp,
    }
}

/// The fields of an encapsulated message.
fn dissect(p: &[u8]) -> Option<EthernetIpFields> {
    if p.len() < ENCAP_HEADER_SIZE {
        return None;
    }
    Some(EthernetIpFields {
        command: u16::from_le_bytes([p[0], p[1]]),
        session_handle: u32::from_le_bytes([p[4], p[5], p[6], p[7]]),
        encap_status: u32::from_le_bytes([p[8], p[9], p[10], p[11]]),
        encap_options: u32::from_le_bytes([p[20], p[21], p[22], p[23]]),
        cip_data: p[ENCAP_HEADER_SIZE..].to_vec(),
    })
}

fn extract_tx(events: &[BronzeEvent]) -> &EthernetIpBronzeFields {
    for ev in events {
        if let BronzeEventFamily::ProtocolTransaction(tx) = &ev.family {
            if let Some(ProtocolFields::EthernetIp(ref f)) = tx.protocol_fields {
                return f;
            }
        }
    }
    panic!("no EthernetIp protocol_fields found in events");
}

// ── Tests ─────────────────────────────────────────────────────────────────

/// RegisterSession request: cmd=0x65, session_handle=0, no CIP PDU.
#[test]
fn register_session_request_typed() {
    let mut pkt = build_encap(0x0065, 4, 0);
    pkt.extend_from_slice(&[0x01, 0x00, 0x00, 0x00]); // protocol_version + option_flags

    let ctx = ctx_request();
    let mut dec = EthernetIpDecoderWrapper::default();
    let mut out = Vec::new();
    dec.on_stream_chunk(&chunk(&pkt, &ctx), dissect(&pkt), Vec::new(), &mut out);

    let f = extract_tx(&out);
    assert_eq!(f.encap_command, 0x0065);
    assert_eq!(f.encap_command_name, "register_session");
    assert_eq!(f.session_handle, None); // handle is 0 on the request
    assert_eq!(f.encap_status, Some(0));
    assert!(f.is_request);
    assert_eq!(f.direction, "request");
    assert_eq!(f.cip_service, None);
}

/// RegisterSession response: cmd=0x65, session_handle non-zero assigned by target.
#[test]
fn register_session_response_typed() {
    let mut pkt = build_encap(0x0065, 4, 0x0000_ABCD); // target assigns handle
    pkt.extend_from_slice(&[0x01, 0x00, 0x00, 0x00]);

    let ctx = ctx_response();
    let mut dec = EthernetIpDecoderWrapper::default();
    let mut out = Vec::new();
    dec.on_stream_chunk(&chunk(&pkt, &ctx), dissect(&pkt), Vec::new(), &mut out);

    let f = extract_tx(&out);
    assert_eq!(f.encap_command, 0x0065);
    assert_eq!(f.session_handle, Some(0x0000_ABCD));
    assert!(!f.is_request);
    assert_eq!(f.direction, "response");
}

/// SendRRData carrying a CIP GetAttributeSingle request (service=0x0E,
/// class=0x01 Identity, instance=1, attribute=7).
#[test]
fn send_rr_data_get_attribute_single_typed() {
    let path = logical_path_class_instance_attr(0x01, 0x01, 0x07);
    let cip_msg = build_cip_request(0x0E, &path, &[]);
    let cpf = build_cpf(0x00B2, &cip_msg);
    let mut pkt = build_encap(0x006F, cpf.len() as u16, 0x1234_5678);
    pkt.extend_from_slice(&cpf);

    let ctx = ctx_request();
    let mut dec = EthernetIpDecoderWrapper::default();
    let mut out = Vec::new();
    dec.on_stream_chunk(&chunk(&pkt, &ctx), dissect(&pkt), Vec::new(), &mut out);

    let f = extract_tx(&out);
    assert_eq!(f.encap_command, 0x006F);
    assert_eq!(f.encap_command_name, "send_rr_data");
    assert_eq!(f.session_handle, Some(0x1234_5678));
    assert_eq!(f.cip_service, Some(0x0E));
    assert_eq!(f.cip_service_name.as_deref(), Some("get_attribute_single"));
    assert_eq!(f.cip_class_id, Some(0x01));
    assert_eq!(f.cip_instance_id, Some(0x01));
    assert_eq!(f.cip_attribute_id, Some(0x07));
    assert!(f.is_request);
    assert_eq!(f.cip_general_status, None); // request has no status
}

/// Forward_Open request: service=0x54, class=0x06 (Connection Manager), instance=1.
#[test]
fn forward_open_request_typed() {
    let path = logical_path_class_instance(0x06, 0x01);
    // Forward_Open request body is longer but we only need enough for parsing
    let forward_open_body = vec![0u8; 36]; // minimal stub
    let cip_msg = build_cip_request(0x54, &path, &forward_open_body);
    let cpf = build_cpf(0x00B2, &cip_msg);
    let mut pkt = build_encap(0x006F, cpf.len() as u16, 0x0000_0001);
    pkt.extend_from_slice(&cpf);

    let ctx = ctx_request();
    let mut dec = EthernetIpDecoderWrapper::default();
    let mut out = Vec::new();
    dec.on_stream_chunk(&chunk(&pkt, &ctx), dissect(&pkt), Vec::new(), &mut out);

    let f = extract_tx(&out);
    assert_eq!(f.cip_service, Some(0x54));
    assert_eq!(f.cip_service_name.as_deref(), Some("forward_open"));
    assert_eq!(f.cip_class_id, Some(0x06));
    assert_eq!(f.cip_instance_id, Some(0x01));
    assert!(f.is_request);
}

/// Read Tag request: service=0x4C, class=0x6B (Symbol object), instance=1.
#[test]
fn read_tag_request_typed() {
    let path = logical_path_class_instance(0x6B, 0x01);
    // Read Tag body: element count (2 bytes)
    let cip_msg = build_cip_request(0x4C, &path, &[0x01, 0x00]);
    let cpf = build_cpf(0x00B2, &cip_msg);
    let mut pkt = build_encap(0x006F, cpf.len() as u16, 0x0000_0002);
    pkt.extend_from_slice(&cpf);

    let ctx = ctx_request();
    let mut dec = EthernetIpDecoderWrapper::default();
    let mut out = Vec::new();
    dec.on_stream_chunk(&chunk(&pkt, &ctx), dissect(&pkt), Vec::new(), &mut out);

    let f = extract_tx(&out);
    assert_eq!(f.cip_service, Some(0x4C));
    assert_eq!(f.cip_service_name.as_deref(), Some("read_tag"));
    assert_eq!(f.cip_class_id, Some(0x6B));
    assert_eq!(f.cip_instance_id, Some(0x01));
    assert!(f.is_request);
}

/// CIP error response: general_status non-zero (0x08 = Service not supported).
#[test]
fn cip_error_response_general_status_typed() {
    let cip_msg = build_cip_response(0x0E, 0x08, None);
    let cpf = build_cpf(0x00B2, &cip_msg);
    let mut pkt = build_encap(0x006F, cpf.len() as u16, 0x0000_0003);
    pkt.extend_from_slice(&cpf);

    let ctx = ctx_response();
    let mut dec = EthernetIpDecoderWrapper::default();
    let mut out = Vec::new();
    dec.on_stream_chunk(&chunk(&pkt, &ctx), dissect(&pkt), Vec::new(), &mut out);

    let f = extract_tx(&out);
    assert_eq!(f.cip_service, Some(0x0E)); // reply bit stripped
    assert_eq!(f.cip_general_status, Some(0x08));
    assert_eq!(f.cip_extended_status, None);
    assert!(!f.is_request);
}

/// CIP error response with extended status (general_status=0x1F).
#[test]
fn cip_error_response_with_extended_status_typed() {
    let cip_msg = build_cip_response(0x4C, 0x1F, Some(0x0012));
    let cpf = build_cpf(0x00B2, &cip_msg);
    let mut pkt = build_encap(0x006F, cpf.len() as u16, 0x0000_0004);
    pkt.extend_from_slice(&cpf);

    let ctx = ctx_response();
    let mut dec = EthernetIpDecoderWrapper::default();
    let mut out = Vec::new();
    dec.on_stream_chunk(&chunk(&pkt, &ctx), dissect(&pkt), Vec::new(), &mut out);

    let f = extract_tx(&out);
    assert_eq!(f.cip_general_status, Some(0x1F));
    assert_eq!(f.cip_extended_status, Some(0x0012));
}

/// The `attributes` map is populated alongside `protocol_fields`.
#[test]
fn attributes_backward_compat() {
    let mut pkt = build_encap(0x0065, 4, 0);
    pkt.extend_from_slice(&[0x01, 0x00, 0x00, 0x00]);

    let ctx = ctx_request();
    let mut dec = EthernetIpDecoderWrapper::default();
    let mut out = Vec::new();
    dec.on_stream_chunk(&chunk(&pkt, &ctx), dissect(&pkt), Vec::new(), &mut out);

    for ev in &out {
        if let BronzeEventFamily::ProtocolTransaction(tx) = &ev.family {
            assert!(tx.attributes.contains_key("session_handle"),
                "legacy attributes missing 'session_handle'");
            assert!(tx.attributes.contains_key("encapsulation_command"),
                "legacy attributes missing 'encapsulation_command'");
            assert!(tx.protocol_fields.is_some(),
                "protocol_fields should be populated");
            return;
        }
    }
    panic!("no ProtocolTransaction event found");
}

// ── Identities ────────────────────────────────────────────────────────────

fn identity_item(ip: [u8; 4], name: &[u8], state: Option<u8>) -> Vec<u8> {
    let mut item = vec![1, 0, 0, 2, 0xAF, 0x12];
    item.extend_from_slice(&ip);
    item.extend_from_slice(&[0u8; 8]);
    item.extend_from_slice(&1u16.to_le_bytes()); // vendor
    item.extend_from_slice(&14u16.to_le_bytes()); // device type
    item.extend_from_slice(&54u16.to_le_bytes()); // product code
    item.extend_from_slice(&[20, 11]); // revision
    item.extend_from_slice(&0x0030u16.to_le_bytes()); // status
    item.extend_from_slice(&0xC0FFEEu32.to_le_bytes()); // serial number
    item.push(name.len() as u8);
    item.extend_from_slice(name);
    item.extend(state);
    item
}

fn list_identity(items: &[Vec<u8>], declared: u16) -> Vec<u8> {
    let mut data = declared.to_le_bytes().to_vec();
    for item in items {
        data.extend_from_slice(&0x000Cu16.to_le_bytes());
        data.extend_from_slice(&(item.len() as u16).to_le_bytes());
        data.extend_from_slice(item);
    }
    data
}

#[test]
fn list_identity_items_are_read() {
    let a = identity_item([10, 0, 0, 5], b"1756-L61/B", Some(3));
    let b = identity_item([10, 0, 0, 6], b"PV+", None);
    let claims = parse_enip_list_identity(&list_identity(&[a.clone(), b.clone()], 2));
    assert_eq!(claims.len(), 2);
    assert_eq!(claims[0].vendor_id, 1);
    assert_eq!(claims[0].device_type, 14);
    assert_eq!(claims[0].product_code, 54);
    assert_eq!(claims[0].revision, "20.11");
    assert_eq!(claims[0].serial_number, 0xC0FFEE);
    assert_eq!(claims[0].product_name, "1756-L61/B");
    assert_eq!(claims[0].state, Some(3));
    assert_eq!(claims[0].ip_address.as_deref(), Some("10.0.0.5"));
    assert_eq!(claims[1].state, None);

    // No more than the reply declares, and none that is cut short.
    assert_eq!(parse_enip_list_identity(&list_identity(&[a.clone(), b], 1)).len(), 1);
    let mut short = list_identity(&[a], 1);
    short.pop();
    assert!(parse_enip_list_identity(&short).is_empty());
    assert!(parse_enip_list_identity(&[5]).is_empty());
}

#[test]
fn product_name_that_is_no_text_is_mended() {
    let item = identity_item([10, 0, 0, 5], &[b'A', 0xFF, b'B'], Some(0));
    let claims = parse_enip_list_identity(&list_identity(&[item], 1));
    assert_eq!(claims[0].product_name, "A\u{FFFD}B");
}

#[test]
fn direction_is_the_status_and_tells_the_port() {
    for (ctx, direction) in [(ctx_request(), "request"), (ctx_response(), "response")] {
        let pkt = build_encap(0x0063, 0, 0);
        let mut out = Vec::new();
        EthernetIpDecoderWrapper.on_stream_chunk(
            &chunk(&pkt, &ctx),
            dissect(&pkt),
            Vec::new(),
            &mut out,
        );
        let f = extract_tx(&out);
        assert_eq!(f.direction, direction);
        assert_eq!(f.is_request, direction == "request");
        let BronzeEventFamily::ProtocolTransaction(tx) = &out[0].family else { panic!() };
        assert_eq!(tx.status, direction);
    }
}

#[test]
fn unparsed_ethernet_ip_is_an_anomaly() {
    let ctx = ctx_request();
    let mut out = Vec::new();
    EthernetIpDecoderWrapper.on_stream_chunk(&chunk(&[1, 2], &ctx), None, Vec::new(), &mut out);
    assert_eq!(out.len(), 1);
    assert_eq!(out[0].family_name(), "parse_anomaly");
}

#[test]
fn command_and_service_tables() {
    assert_eq!(ethernet_ip_command_name(0x0063), "list_identity");
    assert_eq!(ethernet_ip_command_name(0x0065), "register_session");
    assert_eq!(cip_service_code_name(0x0E), Some("get_attribute_single"));
    assert_eq!(cip_service_code_name(0x7F), None);
    assert_eq!(cip_vendor_name(1), Some("Rockwell Automation/Allen-Bradley"));
}
