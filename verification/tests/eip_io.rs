use ot_decoders::eip_io::{EipIoDecoder, ITEM_CONNECTED_DATA, ITEM_SEQUENCED_ADDR};
use ot_decoders::events::{
    AssetObservation, BronzeEvent, BronzeEventFamily, ParseAnomaly, ProtocolTransaction,
};
use ot_decoders::packet::{IpAddress, PacketContext, StreamChunk, Timestamp, TransportProtocol};

const NOW: Timestamp = Timestamp { seconds: 1_700_000_000, nanos: 0 };

fn ctx(src: [u8; 4], dst: [u8; 4]) -> PacketContext {
    PacketContext {
        src_mac: [0u8; 6], dst_mac: [0u8; 6],
        src_ip: IpAddress::V4(src),
        dst_ip: IpAddress::V4(dst),
        src_port: 2222, dst_port: 2222,
        vlan_id: None, timestamp: 1_700_000_000_000_000,
    }
}

fn chunk<'a>(payload: &'a [u8], context: PacketContext, sk: &str) -> StreamChunk<'a> {
    StreamChunk {
        capture_id: "test", segment_hash: "seg", interface_id: 0, frame_index: 1,
        timestamp: NOW,
        context, ethertype: 0x0800, ip_proto: Some(17), llc: None,
        transport: TransportProtocol::Udp, payload,
        session_key: sk.to_string(), captured_len: payload.len() as u64,
    }
}

/// CPF with Sequenced Address Item + Connected Data Item.
fn cpf_seq(connection_id: u32, seq: u32, io: &[u8]) -> Vec<u8> {
    let mut b = Vec::new();
    b.extend_from_slice(&2u16.to_le_bytes());
    b.extend_from_slice(&ITEM_SEQUENCED_ADDR.to_le_bytes());
    b.extend_from_slice(&8u16.to_le_bytes());
    b.extend_from_slice(&connection_id.to_le_bytes());
    b.extend_from_slice(&seq.to_le_bytes());
    let data_len = (2 + io.len()) as u16;
    b.extend_from_slice(&ITEM_CONNECTED_DATA.to_le_bytes());
    b.extend_from_slice(&data_len.to_le_bytes());
    b.extend_from_slice(&(seq as u16).to_le_bytes()); // CIP seq count
    b.extend_from_slice(io);
    b
}

fn txns(events: &[BronzeEvent]) -> Vec<&ProtocolTransaction> {
    events.iter().filter_map(|e| {
        if let BronzeEventFamily::ProtocolTransaction(ref tx) = e.family { Some(tx) } else { None }
    }).collect()
}

fn assets(events: &[BronzeEvent]) -> Vec<&AssetObservation> {
    events.iter().filter_map(|e| {
        if let BronzeEventFamily::AssetObservation(ref a) = e.family { Some(a) } else { None }
    }).collect()
}

fn anomalies(events: &[BronzeEvent]) -> Vec<&ParseAnomaly> {
    events.iter().filter_map(|e| {
        if let BronzeEventFamily::ParseAnomaly(ref a) = e.family { Some(a) } else { None }
    }).collect()
}

// 1. First datagram → open event + two AssetObservations.
#[test]
fn test_first_datagram_open_and_assets() {
    let p = cpf_seq(0x1234_5678, 0, &[0x01, 0xAB]);
    let mut dec = EipIoDecoder::default();
    let mut ev = Vec::new();
    dec.on_datagram(&chunk(&p, ctx([10,0,0,1], [10,0,0,2]), "sk1"), &mut ev);

    let tx = txns(&ev);
    assert_eq!(tx.len(), 1);
    assert_eq!(tx[0].operation, "eip_io_class1_open");
    assert_eq!(tx[0].status, "observed");
    assert_eq!(tx[0].attributes.get("connection_id").map(String::as_str), Some("0x12345678"));
    assert_eq!(tx[0].attributes.get("sequence_number_initial").map(String::as_str), Some("0"));
    assert_eq!(tx[0].attributes.get("run_idle").map(String::as_str), Some("run"));

    let a = assets(&ev);
    assert_eq!(a.len(), 2);
    for obs in &a {
        assert_eq!(obs.role.as_deref(), Some("eip_io_endpoint"));
        assert_eq!(obs.identifiers.get("connection_id").map(String::as_str), Some("0x12345678"));
    }
}

// 2. Normal sequential datagrams → no events.
#[test]
fn test_sequential_datagrams_silent() {
    let conn_id = 0xDEAD_BEEF;
    let mut dec = EipIoDecoder::default();
    let mut ev = Vec::new();
    dec.on_datagram(&chunk(&cpf_seq(conn_id, 0, &[0x00]), ctx([10,0,1,1],[10,0,1,2]), "sk2"), &mut ev);
    ev.clear();
    dec.on_datagram(&chunk(&cpf_seq(conn_id, 1, &[0x00]), ctx([10,0,1,1],[10,0,1,2]), "sk2"), &mut ev);
    assert!(ev.is_empty(), "sequential datagram must emit no events");
}

// 3. Sequence gap → gap transaction + low ParseAnomaly.
#[test]
fn test_sequence_gap() {
    let conn_id = 0xCAFE_BABE;
    let mut dec = EipIoDecoder::default();
    let mut ev = Vec::new();
    dec.on_datagram(&chunk(&cpf_seq(conn_id, 10, &[0x00]), ctx([10,0,2,1],[10,0,2,2]), "sk3"), &mut ev);
    ev.clear();
    dec.on_datagram(&chunk(&cpf_seq(conn_id, 99, &[0x00]), ctx([10,0,2,1],[10,0,2,2]), "sk3"), &mut ev);

    let tx = txns(&ev);
    assert_eq!(tx.len(), 1);
    assert_eq!(tx[0].operation, "eip_io_class1_sequence_gap");
    assert_eq!(tx[0].status, "observed");

    let an = anomalies(&ev);
    assert_eq!(an.len(), 1);
    assert_eq!(an[0].severity, "low");
    assert!(an[0].reason.contains("sequence number gap"));
}

// 4. Two distinct connection_ids → two open events, four AssetObservations.
#[test]
fn test_two_connections_independent() {
    let mut dec = EipIoDecoder::default();
    let mut ev = Vec::new();
    dec.on_datagram(&chunk(&cpf_seq(0xAAAA_0001, 0, &[0x00]), ctx([10,0,3,1],[10,0,3,2]), "sk4"), &mut ev);
    dec.on_datagram(&chunk(&cpf_seq(0xBBBB_0002, 0, &[0x00]), ctx([10,0,3,1],[10,0,3,2]), "sk4"), &mut ev);

    let opens: Vec<_> = txns(&ev).into_iter().filter(|t| t.operation == "eip_io_class1_open").collect();
    assert_eq!(opens.len(), 2);
    assert_eq!(assets(&ev).len(), 4);

    let ids: Vec<_> = opens.iter()
        .map(|t| t.attributes.get("connection_id").map(String::as_str).unwrap_or(""))
        .collect();
    assert!(ids.contains(&"0xaaaa0001"));
    assert!(ids.contains(&"0xbbbb0002"));
}

// 5. Malformed CPF (item_count implies more data than available) → medium anomaly.
#[test]
fn test_malformed_cpf_medium_anomaly() {
    // item_count=10, but datagram is only 8 bytes total.
    let bad: Vec<u8> = vec![0x0A, 0x00, 0xAB, 0xCD, 0xEF, 0x01, 0x02, 0x03];
    let mut dec = EipIoDecoder::default();
    let mut ev = Vec::new();
    dec.on_datagram(&chunk(&bad, ctx([10,0,4,1],[10,0,4,2]), "sk5"), &mut ev);

    let an = anomalies(&ev);
    assert_eq!(an.len(), 1);
    assert_eq!(an[0].severity, "medium");
    assert!(txns(&ev).is_empty(), "no transaction for malformed datagram");
}

// 6. Run/Idle bit: set→"run", clear→"idle", empty payload→"unknown".
#[test]
fn test_run_idle_variants() {
    let mut dec = EipIoDecoder::default();

    // run
    let mut ev = Vec::new();
    dec.on_datagram(&chunk(&cpf_seq(0x01, 0, &[0x01]), ctx([10,0,5,1],[10,0,5,2]), "sk6a"), &mut ev);
    assert_eq!(txns(&ev)[0].attributes.get("run_idle").map(String::as_str), Some("run"));

    // idle
    ev.clear();
    dec.on_datagram(&chunk(&cpf_seq(0x02, 0, &[0x00]), ctx([10,0,5,1],[10,0,5,2]), "sk6b"), &mut ev);
    assert_eq!(txns(&ev)[0].attributes.get("run_idle").map(String::as_str), Some("idle"));

    // unknown — Connected Data Item with only the 2-byte CIP seq count, no I/O.
    ev.clear();
    let mut no_io: Vec<u8> = Vec::new();
    no_io.extend_from_slice(&2u16.to_le_bytes());
    no_io.extend_from_slice(&ITEM_SEQUENCED_ADDR.to_le_bytes());
    no_io.extend_from_slice(&8u16.to_le_bytes());
    no_io.extend_from_slice(&0x03u32.to_le_bytes());
    no_io.extend_from_slice(&0u32.to_le_bytes());
    no_io.extend_from_slice(&ITEM_CONNECTED_DATA.to_le_bytes());
    no_io.extend_from_slice(&2u16.to_le_bytes()); // only CIP seq count, no I/O
    no_io.extend_from_slice(&0u16.to_le_bytes());
    dec.on_datagram(&chunk(&no_io, ctx([10,0,5,1],[10,0,5,2]), "sk6c"), &mut ev);
    assert_eq!(txns(&ev)[0].attributes.get("run_idle").map(String::as_str), Some("unknown"));
}

// 7. A gap is any number but the next one, counted modulo 2^32.
#[test]
fn gap_is_any_number_but_the_next() {
    for (first, second, gap) in
        [(5u32, 6u32, false), (5, 5, true), (5, 7, true), (5, 4, true), (u32::MAX, 0, false)]
    {
        let mut dec = EipIoDecoder::default();
        let mut ev = Vec::new();
        dec.on_datagram(&chunk(&cpf_seq(1, first, &[0]), ctx([10, 0, 0, 1], [10, 0, 0, 2]), "s"), &mut ev);
        ev.clear();
        dec.on_datagram(&chunk(&cpf_seq(1, second, &[0]), ctx([10, 0, 0, 1], [10, 0, 0, 2]), "s"), &mut ev);
        assert_eq!(txns(&ev).len(), usize::from(gap), "{first} then {second}");
        assert_eq!(anomalies(&ev).len(), usize::from(gap));
    }
}

// 8. In sequence, only every thousandth datagram is reported.
#[test]
fn in_sequence_every_thousandth_is_reported() {
    let mut dec = EipIoDecoder::default();
    for n in 0..2100u32 {
        let mut ev = Vec::new();
        dec.on_datagram(&chunk(&cpf_seq(9, n, &[0]), ctx([10, 0, 0, 1], [10, 0, 0, 2]), "s"), &mut ev);
        let count = n + 1;
        if count == 1 {
            assert_eq!(txns(&ev).len(), 1);
        } else {
            assert_eq!(ev.len(), usize::from(count % 1000 == 0), "datagram {count}");
        }
    }
}
