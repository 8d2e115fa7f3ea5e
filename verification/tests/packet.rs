use chrono::{DateTime, Utc};
use ot_decoders::packet::{
    context_asset_key, context_remote_asset_key, format_mac, IpAddress, PacketContext, Timestamp,
};
use ot_decoders::events::build_envelope;
use ot_decoders::packet::TransportProtocol;

fn ctx(src_ip: IpAddress, dst_ip: IpAddress) -> PacketContext {
    PacketContext {
        src_mac: [0x00, 0x1B, 0x1B, 0xAA, 0x0F, 0xF0],
        dst_mac: [1, 2, 3, 4, 5, 6],
        src_ip,
        dst_ip,
        src_port: 1,
        dst_port: 2,
        vlan_id: Some(12),
        timestamp: 0,
    }
}

#[test]
fn asset_keys_fall_back_to_the_hardware_address() {
    let known = ctx(IpAddress::V4([192, 168, 0, 9]), IpAddress::V4([0, 0, 0, 0]));
    assert_eq!(context_asset_key(&known), "192.168.0.9");
    assert_eq!(context_remote_asset_key(&known), "01:02:03:04:05:06");
    let six = ctx(IpAddress::V6("fe80::1".to_string()), IpAddress::V4([10, 0, 0, 255]));
    assert_eq!(context_asset_key(&six), "fe80::1");
    assert_eq!(context_remote_asset_key(&six), "10.0.0.255");
    let none = ctx(IpAddress::V6("::".to_string()), IpAddress::V6("::1".to_string()));
    assert_eq!(context_asset_key(&none), "00:1b:1b:aa:0f:f0");
    assert_eq!(context_remote_asset_key(&none), "::1");
}

#[test]
fn hardware_address_text() {
    assert_eq!(format_mac(&[0, 0xFF, 0x0A, 0x10, 0x9C, 1]), "00:ff:0a:10:9c:01");
}

#[test]
fn microseconds_of_a_time() {
    assert_eq!(Timestamp { seconds: 0, nanos: 0 }.timestamp_micros(), 0);
    assert_eq!(
        Timestamp { seconds: 1_700_000_000, nanos: 123_456_789 }.timestamp_micros(),
        1_700_000_000_123_456
    );
    // Before the epoch the number is negative; its bits are handed out.
    assert_eq!(Timestamp { seconds: -1, nanos: 0 }.timestamp_micros(), (-1_000_000i64) as u64);
    assert_eq!(Timestamp { seconds: -1, nanos: 999_999_999 }.timestamp_micros(), u64::MAX);
}

#[test]
fn a_wait_is_over_when_no_whole_second_is_missing() {
    let begun = Timestamp { seconds: 10, nanos: 500_000_000 };
    assert!(Timestamp { seconds: 10, nanos: 500_000_000 }.reached(&begun));
    assert!(Timestamp { seconds: 9, nanos: 500_000_001 }.reached(&begun));
    assert!(!Timestamp { seconds: 9, nanos: 500_000_000 }.reached(&begun));
    assert!(Timestamp { seconds: 11, nanos: 0 }.reached(&begun));
    // Across a leap second: 23:59:60.5 on a first day, and midnight of the next.
    let leap = Timestamp { seconds: 86_399, nanos: 1_500_000_000 };
    let midnight = Timestamp { seconds: 86_400, nanos: 0 };
    assert!(midnight.reached(&leap));
    let noon = Timestamp { seconds: -43_200, nanos: 0 };
    assert!(!Timestamp { seconds: -86_401, nanos: 1_500_000_000 }.reached(&noon));
    let later = Timestamp { seconds: 43_259, nanos: 1_000_000_000 };
    assert!(Timestamp { seconds: 43_260, nanos: 0 }.reached(&later));
    assert!(Timestamp { seconds: 43_259, nanos: 1 }.reached(&later));
    assert!(!Timestamp { seconds: 43_259, nanos: 0 }.reached(&later));
    assert!(!Timestamp { seconds: 43_258, nanos: 0 }.reached(&later));
}

#[test]
fn envelope_of_one_packet() {
    let c = ctx(IpAddress::V4([10, 1, 2, 3]), IpAddress::V4([0, 0, 0, 0]));
    let e = build_envelope(
        &c,
        4,
        5,
        Timestamp { seconds: 6, nanos: 7 },
        "hash",
        TransportProtocol::Udp,
        Some("p"),
        99,
        "key".to_string(),
    );
    assert_eq!(e.src_ip.as_deref(), Some("10.1.2.3"));
    assert_eq!(e.dst_ip, None);
    assert_eq!((e.src_port, e.dst_port, e.vlan_id), (1, 2, Some(12)));
    assert_eq!((e.interface_id, e.frame_index), (4, 5));
    assert_eq!((e.bytes_count, e.packet_count), (99, 1));
    assert_eq!(e.protocol.as_deref(), Some("p"));
    assert_eq!(e.segment_hash, "hash");
    let m = e.merge(1);
    assert_eq!((m.bytes_count, m.packet_count), (100, 2));
}

#[test]
fn transport_names() {
    assert_eq!(TransportProtocol::Tcp.as_str(), "tcp");
    assert_eq!(TransportProtocol::Udp.as_str(), "udp");
    assert_eq!(TransportProtocol::Ethernet.as_str(), "ethernet");
}

#[test]
fn times_agree_with_the_calendar() {
    let seconds = [-86_401, -86_400, -1, 0, 59, 60, 43_259, 43_260, 86_399, 86_400, 1_700_000_039];
    let mut times = Vec::new();
    for s in seconds {
        for nanos in [0, 1, 500_000_000, 999_999_999, 1_000_000_000, 1_999_999_999] {
            if let Some(t) = DateTime::<Utc>::from_timestamp(s, nanos) {
                times.push((t, Timestamp { seconds: s, nanos }));
            }
        }
    }
    assert!(times.len() > 50);
    for (a, x) in &times {
        assert_eq!(a.timestamp_micros() as u64, x.timestamp_micros());
        for (b, y) in &times {
            assert_eq!((*a - *b).num_seconds() >= 0, x.reached(y), "{a} {b}");
        }
    }
}
