use ot_decoders::events::{AssetObservation, BronzeEvent, BronzeEventFamily, ProtocolTransaction};
use ot_decoders::osi_pi::{find_magic, find_version, OsiPiDecoder};
use ot_decoders::packet::{IpAddress, PacketContext, StreamChunk, Timestamp, TransportProtocol};

const NOW: Timestamp = Timestamp { seconds: 1_700_000_000, nanos: 0 };

fn ctx(src_ip: [u8; 4], src_port: u16, dst_ip: [u8; 4], dst_port: u16) -> PacketContext {
    PacketContext {
        src_mac: [0; 6],
        dst_mac: [0; 6],
        src_ip: IpAddress::V4(src_ip),
        dst_ip: IpAddress::V4(dst_ip),
        src_port,
        dst_port,
        vlan_id: None,
        timestamp: 0,
    }
}

fn chunk<'a>(payload: &'a [u8], context: PacketContext, session: &str) -> StreamChunk<'a> {
    StreamChunk {
        capture_id: "test-cap",
        segment_hash: "deadbeef",
        interface_id: 0,
        frame_index: 0,
        timestamp: NOW,
        context,
        ethertype: 0x0800,
        ip_proto: Some(6),
        llc: None,
        transport: TransportProtocol::Tcp,
        payload,
        session_key: session.to_string(),
        captured_len: payload.len() as u64,
    }
}

fn transactions(events: &[BronzeEvent]) -> Vec<&ProtocolTransaction> {
    events
        .iter()
        .filter_map(|e| match &e.family {
            BronzeEventFamily::ProtocolTransaction(t) => Some(t),
            _ => None,
        })
        .collect()
}

fn asset_observations(events: &[BronzeEvent]) -> Vec<&AssetObservation> {
    events
        .iter()
        .filter_map(|e| match &e.family {
            BronzeEventFamily::AssetObservation(a) => Some(a),
            _ => None,
        })
        .collect()
}

// 1. port 5450 + "PINETMGR" → ProtocolTransaction
#[test]
fn port_5450_pinetmgr_emits_transaction() {
    let mut dec = OsiPiDecoder::default();
    let mut out = Vec::new();

    // Client (ephemeral) → PI Net Manager (5450).
    let payload = b"PINETMGR\x00\x01\x02\x03some binary data follows";
    let c = ctx([10, 0, 0, 10], 52000, [192, 168, 1, 100], 5450);
    dec.on_stream_chunk(&chunk(payload, c, "sess-a"), &mut out);

    let txns = transactions(&out);
    assert_eq!(txns.len(), 1);
    assert_eq!(txns[0].operation, "pi_session_observed");
    assert_eq!(txns[0].status, "observed");
    assert_eq!(
        txns[0].attributes.get("magic_seen").map(String::as_str),
        Some("PINETMGR")
    );
    assert_eq!(
        txns[0].attributes.get("connector_kind").map(String::as_str),
        Some("pi_net_manager")
    );
    assert_eq!(
        txns[0].attributes.get("port").map(String::as_str),
        Some("5450")
    );
}

// 2. port 5460 + "PISystem 3.4.430.460" → version captured
#[test]
fn port_5460_pisystem_version_captured() {
    let mut dec = OsiPiDecoder::default();
    let mut out = Vec::new();

    let payload = b"\x00\x00PISystem 3.4.430.460\x00trailing bytes";
    let c = ctx([10, 0, 0, 20], 61000, [192, 168, 1, 101], 5460);
    dec.on_stream_chunk(&chunk(payload, c, "sess-b"), &mut out);

    let txns = transactions(&out);
    assert_eq!(txns.len(), 1);
    assert_eq!(txns[0].operation, "pi_session_observed");
    assert_eq!(
        txns[0].attributes.get("magic_seen").map(String::as_str),
        Some("PISystem")
    );
    assert_eq!(
        txns[0].attributes.get("version_string").map(String::as_str),
        Some("3.4.430.460")
    );
    assert_eq!(
        txns[0].attributes.get("connector_kind").map(String::as_str),
        Some("pi_connector")
    );
}

// 3. port 5450, no magic → no ProtocolTransaction; AssetObservation still emitted.
// Port alone is authoritative for the asset; magic is required for the transaction.
#[test]
fn port_5450_no_magic_no_transaction() {
    let mut dec = OsiPiDecoder::default();
    let mut out = Vec::new();

    let payload = b"\x00\x00\x00\x00generic binary garbage with no pi magic";
    let c = ctx([10, 0, 0, 30], 53000, [192, 168, 1, 102], 5450);
    dec.on_stream_chunk(&chunk(payload, c, "sess-c"), &mut out);

    assert!(
        transactions(&out).is_empty(),
        "no ProtocolTransaction without magic bytes"
    );
    let assets = asset_observations(&out);
    assert_eq!(assets.len(), 1, "AssetObservation emitted on port match");
    assert_eq!(assets[0].vendor.as_deref(), Some("OSIsoft"));
}

// 4. Two distinct PI server destinations → two AssetObservations
#[test]
fn two_pi_servers_two_asset_observations() {
    let mut dec = OsiPiDecoder::default();
    let mut out = Vec::new();

    let payload_a = b"PINETMGR\x00\x01";
    let c_a = ctx([10, 0, 0, 1], 50000, [192, 168, 1, 10], 5450);
    dec.on_stream_chunk(&chunk(payload_a, c_a, "sess-d1"), &mut out);

    let payload_b = b"PISystem\x00\x01";
    let c_b = ctx([10, 0, 0, 2], 50001, [192, 168, 1, 20], 5450);
    dec.on_stream_chunk(&chunk(payload_b, c_b, "sess-d2"), &mut out);

    let assets = asset_observations(&out);
    assert_eq!(
        assets.len(),
        2,
        "each distinct PI server emits an AssetObservation"
    );
    let ips: Vec<&str> = assets.iter().map(|a| a.asset_key.as_str()).collect();
    assert!(ips.contains(&"192.168.1.10") && ips.contains(&"192.168.1.20"));
    for a in &assets {
        assert_eq!(a.role.as_deref(), Some("osisoft_pi_server"));
        assert_eq!(a.vendor.as_deref(), Some("OSIsoft"));
    }
}

// 5. Second chunk on same session → no duplicate ProtocolTransaction
#[test]
fn osi_pi_second_chunk_same_session_no_duplicate_transaction() {
    let mut dec = OsiPiDecoder::default();
    let mut out = Vec::new();

    let payload = b"PINETMGR\x00continuation";
    let c1 = ctx([10, 0, 0, 5], 54321, [10, 0, 0, 99], 5450);
    dec.on_stream_chunk(&chunk(payload, c1, "sess-e"), &mut out);

    // Different magic on chunk 2 — confirms it's the session gate, not the magic gate.
    let payload2 = b"PI-API\x00\x01\x02 second frame same session";
    let c2 = ctx([10, 0, 0, 5], 54321, [10, 0, 0, 99], 5450);
    dec.on_stream_chunk(&chunk(payload2, c2, "sess-e"), &mut out);

    let txns = transactions(&out);
    assert_eq!(
        txns.len(),
        1,
        "ProtocolTransaction emitted exactly once per session"
    );
    assert_eq!(
        txns[0].attributes.get("magic_seen").map(String::as_str),
        Some("PINETMGR")
    );
}

// 6. "AFServer" magic on port 5461
#[test]
fn afserver_magic_port_5461() {
    let mut dec = OsiPiDecoder::default();
    let mut out = Vec::new();

    let payload = b"\x00\xFFAFServer\x01connected";
    let c = ctx([10, 1, 0, 1], 60000, [10, 1, 0, 200], 5461);
    dec.on_stream_chunk(&chunk(payload, c, "sess-f"), &mut out);

    let txns = transactions(&out);
    assert_eq!(txns.len(), 1);
    assert_eq!(
        txns[0].attributes.get("magic_seen").map(String::as_str),
        Some("AFServer")
    );
    assert_eq!(
        txns[0].attributes.get("connector_kind").map(String::as_str),
        Some("pi_connector")
    );
    assert_eq!(
        txns[0].attributes.get("port").map(String::as_str),
        Some("5461")
    );
}

// 7. Servers once, sessions once with their first magic string.
#[test]
fn pi_sessions_and_servers_are_reported_once() {
    let mut dec = OsiPiDecoder::default();
    let mut seen = Vec::new();
    for (session, server, payload) in [
        ("a", 1u8, &b"nothing"[..]),
        ("a", 1, b"..PINETMGR"),
        ("a", 1, b"PINETMGR again"),
        ("b", 1, b"PISystem 1.2.3"),
        ("b", 2, b"PISystem 1.2.3"),
    ] {
        let mut out = Vec::new();
        let c = ctx([10, 0, 0, 9], 50_000, [10, 0, 0, server], 5450);
        dec.on_stream_chunk(&chunk(payload, c, session), &mut out);
        seen.push((transactions(&out).len(), asset_observations(&out).len()));
    }
    assert_eq!(seen, [(0, 1), (1, 0), (0, 0), (1, 0), (0, 1)]);
}

#[test]
fn pi_magic_and_version_are_found_within_the_limit() {
    assert_eq!(find_magic(b"xxPINETMGR", 256), Some("PINETMGR"));
    assert_eq!(find_magic(b"xxPINETMGR", 5), None);
    assert_eq!(find_magic(b"", 256), None);
    assert_eq!(find_version(b"PISystem 3.4.430.460 x", 256).as_deref(), Some("3.4.430.460"));
    assert_eq!(find_version(b"3.4.430", 256), None);
    assert_eq!(find_version(b"2.4.430.460 3.4.1.2", 256).as_deref(), Some("3.4.1.2"));
    assert_eq!(find_version(b"3.4.430.460", 9).as_deref(), Some("3.4.430.4"));
}
