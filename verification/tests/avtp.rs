use ot_decoders::avtp::{
    is_media_subtype, subtype_name, AvtpDecoder, SUBTYPE_AAF, SUBTYPE_ADP, SUBTYPE_CVF,
};
use ot_decoders::collections::Attributes;
use ot_decoders::events::{
    AssetObservation, BronzeEvent, BronzeEventFamily, ParseAnomaly, ProtocolTransaction,
};
use ot_decoders::packet::{
    DecoderInterest, IpAddress, PacketContext, StreamChunk, Timestamp, TransportProtocol,
};

const NOW: Timestamp = Timestamp { seconds: 1_700_000_000, nanos: 0 };

// ── Helpers ───────────────────────────────────────────────────────────────

/// 16-byte AVTP common header with sv=1, version=1 (2016), tv=1.
fn avtp_hdr(subtype: u8, stream_id: u64) -> Vec<u8> {
    let mut v = Vec::with_capacity(16);
    v.push(subtype);
    v.push(0x91); // sv=1 | version=1 | tv=1
    v.push(0x00); // sequence_num
    v.push(0x00); // reserved
    v.extend_from_slice(&stream_id.to_be_bytes());
    v.extend_from_slice(&0x0001_2345u32.to_be_bytes()); // avtp_timestamp
    v
}

fn ctx() -> PacketContext {
    PacketContext {
        src_mac: [0x00, 0x1B, 0x21, 0xAA, 0xBB, 0xCC],
        dst_mac: [0x91, 0xE0, 0xF0, 0x00, 0x0E, 0x80],
        src_ip: IpAddress::V4([0, 0, 0, 0]),
        dst_ip: IpAddress::V4([0, 0, 0, 0]),
        src_port: 0,
        dst_port: 0,
        vlan_id: None,
        timestamp: 0,
    }
}

fn chunk<'a>(payload: &'a [u8], ctx: &'a PacketContext) -> StreamChunk<'a> {
    StreamChunk {
        capture_id: "test_cap",
        segment_hash: "deadbeef",
        interface_id: 0,
        frame_index: 1,
        timestamp: NOW,
        context: ctx.clone(),
        ethertype: 0x22F0,
        ip_proto: None,
        llc: None,
        transport: TransportProtocol::Ethernet,
        payload,
        session_key: "avtp-sess-1".to_string(),
        captured_len: payload.len() as u64,
    }
}

fn tx(ev: &BronzeEvent) -> &ProtocolTransaction {
    match &ev.family {
        BronzeEventFamily::ProtocolTransaction(t) => t,
        other => panic!("expected ProtocolTransaction, got {other:?}"),
    }
}
fn asset(ev: &BronzeEvent) -> &AssetObservation {
    match &ev.family {
        BronzeEventFamily::AssetObservation(a) => a,
        other => panic!("expected AssetObservation, got {other:?}"),
    }
}
fn anomaly(ev: &BronzeEvent) -> &ParseAnomaly {
    match &ev.family {
        BronzeEventFamily::ParseAnomaly(a) => a,
        other => panic!("expected ParseAnomaly, got {other:?}"),
    }
}

// ── Test 1: AAF first packet ──────────────────────────────────────────────

#[test]
fn aaf_first_packet_stream_open() {
    let mut dec = AvtpDecoder::default();
    let mut out = Vec::new();
    let sid: u64 = 0x001B_21AA_BBCC_0001;
    let mut frame = avtp_hdr(SUBTYPE_AAF, sid);
    frame.extend_from_slice(&[0u8; 8]);
    let c = ctx();
    dec.on_datagram(&chunk(&frame, &c), &mut out);

    assert_eq!(out.len(), 1);
    let t = tx(&out[0]);
    assert_eq!(t.operation, "avtp_aaf_stream_open");
    assert_eq!(
        t.attributes.get("subtype_name").map(String::as_str),
        Some("aaf")
    );
    assert_eq!(
        t.attributes.get("stream_id_hex").map(String::as_str),
        Some(format!("{sid:016x}").as_str())
    );
    assert_eq!(
        t.attributes.get("stream_valid").map(String::as_str),
        Some("true")
    );
    assert_eq!(
        t.attributes.get("timestamp_valid").map(String::as_str),
        Some("true")
    );
}

// ── Test 2: CVF first packet ──────────────────────────────────────────────

#[test]
fn cvf_first_packet_stream_open() {
    let mut dec = AvtpDecoder::default();
    let mut out = Vec::new();
    let mut frame = avtp_hdr(SUBTYPE_CVF, 0xAABB_CCDD_EEFF_0002);
    frame.extend_from_slice(&[0u8; 8]);
    let c = ctx();
    dec.on_datagram(&chunk(&frame, &c), &mut out);
    assert_eq!(out.len(), 1);
    assert_eq!(tx(&out[0]).operation, "avtp_cvf_stream_open");
}

// ── Test 3: ADP ENTITY_AVAILABLE ─────────────────────────────────────────

#[test]
fn adp_entity_available_emits_tx_and_asset() {
    let mut dec = AvtpDecoder::default();
    let mut out = Vec::new();

    let entity_id: u64 = 0x001B21FFEEDDCC00;
    let entity_model: u64 = 0xABCD_EF01_2345_6789;
    let gptp_gm: u64 = 0x0011_2233_4455_6677;

    // ADP payload: 68 bytes after the 16-byte common header.
    let mut adp = vec![0u8; 68];
    adp[0] = 0x05; // message_type=0 (ENTITY_AVAILABLE, upper nibble) | valid_time=5
    adp[4..12].copy_from_slice(&entity_id.to_be_bytes());
    adp[12..20].copy_from_slice(&entity_model.to_be_bytes());
    adp[20..24].copy_from_slice(&0x0000_C596u32.to_be_bytes()); // entity_capabilities
    adp[24..26].copy_from_slice(&2u16.to_be_bytes()); // talker_stream_sources=2
    adp[40..48].copy_from_slice(&gptp_gm.to_be_bytes());
    adp[48] = 7; // gptp_domain_number

    let mut frame = avtp_hdr(SUBTYPE_ADP, entity_id);
    frame.extend_from_slice(&adp);
    let c = ctx();
    dec.on_datagram(&chunk(&frame, &c), &mut out);

    assert_eq!(out.len(), 2, "ADP ENTITY_AVAILABLE → tx + AssetObservation");

    let t = tx(&out[0]);
    assert_eq!(t.operation, "avtp_adp_entity_available");
    let eid_hex = format!("{entity_id:016x}");
    assert_eq!(
        t.attributes.get("entity_id_hex").map(String::as_str),
        Some(eid_hex.as_str())
    );
    assert_eq!(
        t.attributes.get("gptp_domain_number").map(String::as_str),
        Some("7")
    );

    let a = asset(&out[1]);
    assert_eq!(a.role.as_deref(), Some("avtp_talker")); // talker_sources=2 > 0
    assert_eq!(
        a.identifiers.get("avtp_entity_id").map(String::as_str),
        Some(eid_hex.as_str())
    );
    assert!(a.asset_key.contains(&eid_hex));
}

// ── Test 4: Unknown subtype 0x55 ─────────────────────────────────────────

#[test]
fn unknown_subtype_emits_tx_and_low_anomaly() {
    let mut dec = AvtpDecoder::default();
    let mut out = Vec::new();
    let mut frame = avtp_hdr(0x55, 0x0011_2233_4455_6677);
    frame.extend_from_slice(&[0xDE, 0xAD]);
    let c = ctx();
    dec.on_datagram(&chunk(&frame, &c), &mut out);

    assert_eq!(out.len(), 2, "unknown subtype → tx + low anomaly");
    assert_eq!(tx(&out[0]).operation, "avtp_unknown_subtype_0x55");
    let a = anomaly(&out[1]);
    assert_eq!(a.severity, "low");
    assert!(a.reason.contains("0x55"));
}

// ── Test 5: Truncated 6-byte frame ───────────────────────────────────────

#[test]
fn truncated_frame_emits_medium_anomaly() {
    let mut dec = AvtpDecoder::default();
    let mut out = Vec::new();
    let payload = [0x03u8, 0x91, 0x00, 0x00, 0xAA, 0xBB]; // only 6 bytes
    let c = ctx();
    dec.on_datagram(&chunk(&payload, &c), &mut out);

    assert_eq!(out.len(), 1);
    let a = anomaly(&out[0]);
    assert_eq!(a.severity, "medium");
    assert!(a.reason.contains("12-byte"));
}

// ── Test 6: AAF periodic heartbeat at 1000th packet ──────────────────────

#[test]
fn aaf_periodic_heartbeat_emitted_at_1000th_packet() {
    let mut dec = AvtpDecoder::default();
    let sid: u64 = 0xCAFE_BABE_DEAD_BEEF;
    let c = ctx();

    let mut ops: Vec<String> = Vec::new();
    let mut last_periodic_attrs: Option<Attributes> = None;

    for _i in 0u32..1000 {
        let mut frame = avtp_hdr(SUBTYPE_AAF, sid);
        frame.extend_from_slice(&[0u8; 4]);
        let mut out = Vec::new();
        dec.on_datagram(&chunk(&frame, &c), &mut out);
        for ev in &out {
            if let BronzeEventFamily::ProtocolTransaction(t) = &ev.family {
                ops.push(t.operation.clone());
                if t.operation == "avtp_aaf_stream_periodic" {
                    last_periodic_attrs = Some(t.attributes.clone());
                }
            }
        }
    }

    assert!(ops.contains(&"avtp_aaf_stream_open".to_string()));
    assert!(ops.contains(&"avtp_aaf_stream_periodic".to_string()));
    let attrs = last_periodic_attrs.expect("periodic event must have been emitted");
    assert_eq!(
        attrs.get("packet_count_observed").map(String::as_str),
        Some("1000")
    );
}

// ── Test 7: interest() ────────────────────────────────────────────────────

#[test]
fn decoder_interest_is_ethertype_22f0() {
    let dec = AvtpDecoder::default();
    assert!(dec.interest().contains(&DecoderInterest::EtherType(0x22F0)));
}

// ── Test 8: which packets of a stream are reported ────────────────────────

#[test]
fn first_and_every_thousandth_packet_of_each_stream() {
    let mut dec = AvtpDecoder::default();
    let ctx = ctx();
    let one = avtp_hdr(SUBTYPE_AAF, 1);
    let two = avtp_hdr(SUBTYPE_AAF, 2);
    for n in 1..=2001u32 {
        let mut out = Vec::new();
        dec.on_datagram(&chunk(&one, &ctx), &mut out);
        assert_eq!(out.len(), usize::from(n == 1 || n % 1000 == 0), "packet {n}");
        if n == 500 {
            // A packet of another stream does not count here.
            let mut other = Vec::new();
            dec.on_datagram(&chunk(&two, &ctx), &mut other);
            assert_eq!(other.len(), 1);
        }
    }
}

#[test]
fn a_subtype_is_media_control_or_unknown() {
    let ctx = ctx();
    for s in 0u8..=255 {
        let mut out = Vec::new();
        AvtpDecoder::default().on_datagram(&chunk(&avtp_hdr(s, 5), &ctx), &mut out);
        let op = &tx(&out[0]).operation;
        let named = op.starts_with("avtp_unknown_subtype_");
        assert_eq!(named, subtype_name(s) == "unknown");
        if is_media_subtype(s) {
            assert!(!named);
        }
    }
}
