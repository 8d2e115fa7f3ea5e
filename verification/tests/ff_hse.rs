use ot_decoders::events::{AssetObservation, BronzeEvent, BronzeEventFamily, ProtocolTransaction};
use ot_decoders::ff_hse::{FfHseDecoder, PORT_ANNUNCIATION, PORT_FMS, PORT_SYSTEM_MGMT};
use ot_decoders::packet::{IpAddress, PacketContext, StreamChunk, Timestamp, TransportProtocol};

const NOW: Timestamp = Timestamp { seconds: 1_700_000_000, nanos: 0 };

fn ctx(src_ip: [u8; 4], src_port: u16, dst_ip: [u8; 4], dst_port: u16) -> PacketContext {
    PacketContext {
        src_mac: [0; 6], dst_mac: [0; 6],
        src_ip: IpAddress::V4(src_ip),
        dst_ip: IpAddress::V4(dst_ip),
        src_port, dst_port, vlan_id: None, timestamp: 0,
    }
}

fn make_chunk<'a>(
    payload: &'a [u8],
    context: PacketContext,
    session: &str,
    transport: TransportProtocol,
) -> StreamChunk<'a> {
    let ip_proto = if transport == TransportProtocol::Tcp { Some(6u8) } else { Some(17u8) };
    StreamChunk {
        capture_id: "test-cap", segment_hash: "deadbeef",
        interface_id: 0, frame_index: 0,
        timestamp: NOW,
        context, ethertype: 0x0800, ip_proto, llc: None,
        transport, payload,
        session_key: session.to_string(),
        captured_len: payload.len() as u64,
    }
}
fn tcp<'a>(p: &'a [u8], c: PacketContext, s: &str) -> StreamChunk<'a> {
    make_chunk(p, c, s, TransportProtocol::Tcp)
}
fn udp<'a>(p: &'a [u8], c: PacketContext, s: &str) -> StreamChunk<'a> {
    make_chunk(p, c, s, TransportProtocol::Udp)
}

fn transactions(events: &[BronzeEvent]) -> Vec<&ProtocolTransaction> {
    events.iter().filter_map(|e| match &e.family {
        BronzeEventFamily::ProtocolTransaction(t) => Some(t), _ => None,
    }).collect()
}

fn asset_observations(events: &[BronzeEvent]) -> Vec<&AssetObservation> {
    events.iter().filter_map(|e| match &e.family {
        BronzeEventFamily::AssetObservation(a) => Some(a), _ => None,
    }).collect()
}

fn hse_payload(version: u8, msg_type: u8, declared_len: u16, suffix: &[u8]) -> Vec<u8> {
    let mut b = vec![version, msg_type, (declared_len >> 8) as u8, declared_len as u8];
    b.extend_from_slice(suffix);
    b
}

#[test]
fn tcp_1089_annunciation_and_asset_observation() {
    let mut dec = FfHseDecoder::default();
    let mut out = Vec::new();

    let payload = hse_payload(1, 2, 16, b"\x00\x01binary alarm data");
    let c = ctx([10, 0, 0, 5], 54321, [192, 168, 1, 10], PORT_ANNUNCIATION);
    dec.on_stream_chunk(&tcp(&payload, c, "sess-1"), &mut out);

    let txns = transactions(&out);
    assert_eq!(txns.len(), 1);
    assert_eq!(txns[0].operation, "ff_hse_annunciation");
    assert_eq!(txns[0].status, "observed");
    assert_eq!(txns[0].attributes.get("port").map(String::as_str), Some("1089"));
    assert_eq!(txns[0].attributes.get("transport").map(String::as_str), Some("tcp"));
    assert_eq!(txns[0].attributes.get("version_byte").map(String::as_str), Some("1"));
    assert_eq!(txns[0].attributes.get("message_type_byte").map(String::as_str), Some("2"));
    assert_eq!(txns[0].attributes.get("declared_length").map(String::as_str), Some("16"));

    let assets = asset_observations(&out);
    assert_eq!(assets.len(), 1);
    assert_eq!(assets[0].role.as_deref(), Some("foundation_fieldbus_hse_node"));
    assert_eq!(assets[0].vendor, None);
    assert_eq!(assets[0].identifiers.get("ff_function").map(String::as_str), Some("annunciation"));
    assert_eq!(assets[0].identifiers.get("port").map(String::as_str), Some("1089"));
}

#[test]
fn udp_1090_fms_transport_udp() {
    let mut dec = FfHseDecoder::default();
    let mut out = Vec::new();

    let payload = hse_payload(1, 5, 32, b"\xff\xfe device data");
    let c = ctx([10, 0, 0, 20], 60001, [10, 0, 0, 50], PORT_FMS);
    dec.on_datagram(&udp(&payload, c, "sess-2"), &mut out);

    let txns = transactions(&out);
    assert_eq!(txns.len(), 1);
    assert_eq!(txns[0].operation, "ff_hse_fms");
    assert_eq!(txns[0].attributes.get("transport").map(String::as_str), Some("udp"));
    assert_eq!(txns[0].attributes.get("port").map(String::as_str), Some("1090"));

    let assets = asset_observations(&out);
    assert_eq!(assets.len(), 1);
    assert_eq!(assets[0].identifiers.get("ff_function").map(String::as_str), Some("fms"));
}

#[test]
fn port_1091_foundation_magic_captured() {
    let mut dec = FfHseDecoder::default();
    let mut out = Vec::new();

    let mut payload = hse_payload(1, 1, 20, b"FOUNDATION\x00\x01\x02");
    payload.truncate(16);

    let c = ctx([172, 16, 0, 1], 52000, [172, 16, 0, 200], PORT_SYSTEM_MGMT);
    dec.on_stream_chunk(&tcp(&payload, c, "sess-3"), &mut out);

    let txns = transactions(&out);
    assert_eq!(txns.len(), 1);
    assert_eq!(txns[0].operation, "ff_hse_system_management");
    assert_eq!(
        txns[0].attributes.get("magic_seen").map(String::as_str),
        Some("FOUNDATION")
    );
}

#[test]
fn ff_hse_second_chunk_same_session_no_duplicate_transaction() {
    let mut dec = FfHseDecoder::default();
    let mut out = Vec::new();

    let payload1 = hse_payload(1, 3, 8, b"\x00binary");
    let c1 = ctx([10, 1, 0, 5], 55000, [10, 1, 0, 100], PORT_ANNUNCIATION);
    dec.on_stream_chunk(&tcp(&payload1, c1, "sess-4"), &mut out);

    let payload2 = hse_payload(1, 3, 8, b"FF-HSE\x00more data");
    let c2 = ctx([10, 1, 0, 5], 55000, [10, 1, 0, 100], PORT_ANNUNCIATION);
    dec.on_stream_chunk(&tcp(&payload2, c2, "sess-4"), &mut out);

    let txns = transactions(&out);
    assert_eq!(txns.len(), 1, "ProtocolTransaction emitted exactly once per session");
    assert!(txns[0].attributes.get("magic_seen").is_none());
}

#[test]
fn two_server_ips_two_asset_observations() {
    let mut dec = FfHseDecoder::default();
    let mut out = Vec::new();

    let payload = hse_payload(1, 2, 12, b"\x00\x01\x02\x03");
    let c_a = ctx([10, 0, 0, 1], 50000, [192, 168, 10, 1], PORT_ANNUNCIATION);
    dec.on_stream_chunk(&tcp(&payload, c_a, "sess-5a"), &mut out);
    let c_b = ctx([10, 0, 0, 2], 50001, [192, 168, 10, 2], PORT_ANNUNCIATION);
    dec.on_stream_chunk(&tcp(&payload, c_b, "sess-5b"), &mut out);

    let assets = asset_observations(&out);
    assert_eq!(assets.len(), 2, "one AssetObservation per distinct server IP");

    let ips: Vec<&str> = assets.iter().map(|a| a.asset_key.as_str()).collect();
    assert!(ips.contains(&"192.168.10.1"));
    assert!(ips.contains(&"192.168.10.2"));

    for a in &assets {
        assert_eq!(a.role.as_deref(), Some("foundation_fieldbus_hse_node"));
        assert_eq!(a.vendor, None);
        assert_eq!(
            a.identifiers.get("ff_function").map(String::as_str),
            Some("annunciation")
        );
    }
}

#[test]
fn ff_hse_magic_string_captured() {
    let mut dec = FfHseDecoder::default();
    let mut out = Vec::new();

    let payload = hse_payload(1, 0, 18, b"FF-HSE\x00announce");
    let c = ctx([10, 2, 0, 1], 51000, [10, 2, 0, 50], PORT_ANNUNCIATION);
    dec.on_stream_chunk(&tcp(&payload, c, "sess-6"), &mut out);

    let txns = transactions(&out);
    assert_eq!(txns.len(), 1);
    assert_eq!(
        txns[0].attributes.get("magic_seen").map(String::as_str),
        Some("FF-HSE")
    );
}

// 7. Sessions and servers are reported once each, whatever comes between.
#[test]
fn hse_sessions_and_servers_are_reported_once() {
    let mut dec = FfHseDecoder::default();
    let p = hse_payload(1, 2, 4, &[]);
    let mut seen = Vec::new();
    for (session, server) in [("a", 1u8), ("b", 1), ("a", 2), ("a", 1), ("b", 2), ("c", 3)] {
        let mut out = Vec::new();
        let c = ctx([10, 0, 0, 9], 50_000, [10, 0, 0, server], PORT_FMS);
        dec.on_stream_chunk(&tcp(&p, c, session), &mut out);
        seen.push((transactions(&out).len(), asset_observations(&out).len()));
        assert_eq!(out.len(), transactions(&out).len() + asset_observations(&out).len());
    }
    assert_eq!(seen, [(1, 1), (1, 0), (0, 1), (0, 0), (0, 0), (1, 1)]);
}
