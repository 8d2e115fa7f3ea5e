use ot_decoders::ads::{AMS_PKT_HDR, AdsDecoder};
use ot_decoders::events::{BronzeEvent, BronzeEventFamily, ParseAnomaly, ProtocolTransaction};
use ot_decoders::packet::{IpAddress, PacketContext, StreamChunk, Timestamp, TransportProtocol};

const NOW: Timestamp = Timestamp { seconds: 1_700_000_000, nanos: 0 };

fn ctx(src_port: u16, dst_port: u16) -> PacketContext {
    PacketContext {
        src_mac: [0; 6],
        dst_mac: [0; 6],
        src_ip: IpAddress::V4([10, 0, 0, 1]),
        dst_ip: IpAddress::V4([10, 0, 0, 2]),
        src_port,
        dst_port,
        vlan_id: None,
        timestamp: 0,
    }
}

fn chunk<'a>(payload: &'a [u8], context: PacketContext, session: &str) -> StreamChunk<'a> {
    StreamChunk {
        capture_id: "test",
        segment_hash: "aa",
        interface_id: 0,
        frame_index: 0,
        timestamp: NOW,
        context,
        ethertype: 0x0800,
        ip_proto: Some(6),
        llc: None,
        transport: TransportProtocol::Tcp,
        payload,
        session_key: session.to_string(),
        captured_len: payload.len() as u64,
    }
}

/// Minimal AMS/TCP frame (no payload after AMS header).
#[allow(clippy::too_many_arguments)]
fn frame(
    src_n: [u8; 6],
    src_p: u16,
    dst_n: [u8; 6],
    dst_p: u16,
    cmd: u16,
    flags: u16,
    err: u32,
    invoke: u32,
    reserved: u16,
) -> Vec<u8> {
    let mut f = Vec::new();
    f.extend_from_slice(&reserved.to_le_bytes());
    f.extend_from_slice(&(AMS_PKT_HDR as u32).to_le_bytes());
    f.extend_from_slice(&dst_n);
    f.extend_from_slice(&dst_p.to_le_bytes());
    f.extend_from_slice(&src_n);
    f.extend_from_slice(&src_p.to_le_bytes());
    f.extend_from_slice(&cmd.to_le_bytes());
    f.extend_from_slice(&flags.to_le_bytes());
    f.extend_from_slice(&0u32.to_le_bytes()); // data_len = 0
    f.extend_from_slice(&err.to_le_bytes());
    f.extend_from_slice(&invoke.to_le_bytes());
    f
}

fn txns(events: &[BronzeEvent]) -> Vec<&ProtocolTransaction> {
    events
        .iter()
        .filter_map(|e| {
            if let BronzeEventFamily::ProtocolTransaction(ref t) = e.family {
                Some(t)
            } else {
                None
            }
        })
        .collect()
}

fn anomalies(events: &[BronzeEvent]) -> Vec<&ParseAnomaly> {
    events
        .iter()
        .filter_map(|e| {
            if let BronzeEventFamily::ParseAnomaly(ref a) = e.family {
                Some(a)
            } else {
                None
            }
        })
        .collect()
}

// 1. Request alone — no ProtocolTransaction emitted.
#[test]
fn request_alone_no_transaction() {
    let mut dec = AdsDecoder::default();
    let mut out = Vec::new();
    let f = frame(
        [10, 0, 0, 1, 1, 1],
        1000,
        [10, 0, 0, 2, 1, 1],
        851,
        2,
        0x04,
        0,
        42,
        0,
    );
    dec.on_stream_chunk(&chunk(&f, ctx(1000, 48898), "s1"), &mut out);
    assert!(txns(&out).is_empty());
    assert_eq!(dec.pending.len(), 1);
}

// 2. Request + matching response → ProtocolTransaction status="ok", correct operation.
#[test]
fn request_response_pair_ok() {
    let mut dec = AdsDecoder::default();
    let mut out = Vec::new();
    let sn = [10, 0, 0, 1, 1, 1];
    let dn = [10, 0, 0, 2, 1, 1];
    let req = frame(sn, 1000, dn, 851, 2, 0x04, 0, 7, 0);
    let resp = frame(dn, 851, sn, 1000, 2, 0x05, 0, 7, 0); // bit 0 set = response
    dec.on_stream_chunk(&chunk(&req, ctx(1000, 48898), "s2"), &mut out);
    dec.on_stream_chunk(&chunk(&resp, ctx(48898, 1000), "s2"), &mut out);
    let tx = txns(&out);
    assert_eq!(tx.len(), 1);
    assert_eq!(tx[0].operation, "ads_read");
    assert_eq!(tx[0].status, "ok");
}

// 3. Response with error_code 0x710 → status "ads_error_0x00000710".
#[test]
fn response_nonzero_error_code() {
    let mut dec = AdsDecoder::default();
    let mut out = Vec::new();
    let sn = [10, 0, 0, 3, 1, 1];
    let dn = [10, 0, 0, 4, 1, 1];
    dec.on_stream_chunk(
        &chunk(
            &frame(sn, 2000, dn, 851, 4, 0x04, 0, 99, 0),
            ctx(2000, 48898),
            "s3",
        ),
        &mut out,
    );
    dec.on_stream_chunk(
        &chunk(
            &frame(dn, 851, sn, 2000, 4, 0x05, 0x710, 99, 0),
            ctx(48898, 2000),
            "s3",
        ),
        &mut out,
    );
    assert_eq!(txns(&out)[0].status, "ads_error_0x00000710");
}

// 4. Reserved != 0 → ParseAnomaly severity "medium".
#[test]
fn reserved_nonzero_anomaly_medium() {
    let mut dec = AdsDecoder::default();
    let mut out = Vec::new();
    let f = frame(
        [1, 2, 3, 4, 5, 6],
        3000,
        [6, 5, 4, 3, 2, 1],
        851,
        2,
        0x04,
        0,
        1,
        1,
    );
    dec.on_stream_chunk(&chunk(&f, ctx(3000, 48898), "s4"), &mut out);
    let a = anomalies(&out);
    assert!(!a.is_empty());
    assert_eq!(a[0].severity, "medium");
}

// 5. Unknown command ID → anomaly severity "low" + operation contains "unknown".
#[test]
fn unknown_command_id_anomaly_and_operation() {
    let mut dec = AdsDecoder::default();
    let mut out = Vec::new();
    let f = frame(
        [10, 1, 1, 1, 1, 1],
        4000,
        [10, 1, 1, 2, 1, 1],
        851,
        0xFF,
        0x04,
        0,
        5,
        0,
    );
    dec.on_stream_chunk(&chunk(&f, ctx(4000, 48898), "s5"), &mut out);
    assert_eq!(anomalies(&out)[0].severity, "low");
    dec.on_idle_flush(NOW, &mut out);
    assert!(txns(&out).iter().any(|t| t.operation.contains("unknown")));
}

// 6. Two distinct source NetIDs → two AssetObservations.
#[test]
fn two_netids_two_asset_observations() {
    let mut dec = AdsDecoder::default();
    let mut out = Vec::new();
    let fa = frame(
        [10, 0, 0, 1, 1, 1],
        5001,
        [10, 0, 0, 10, 1, 1],
        851,
        2,
        0x04,
        0,
        1,
        0,
    );
    let fb = frame(
        [172, 16, 0, 5, 1, 1],
        5002,
        [10, 0, 0, 10, 1, 1],
        851,
        2,
        0x04,
        0,
        2,
        0,
    );
    dec.on_stream_chunk(&chunk(&fa, ctx(5001, 48898), "s6"), &mut out);
    dec.on_stream_chunk(&chunk(&fb, ctx(5002, 48898), "s6"), &mut out);
    let obs: Vec<_> = out
        .iter()
        .filter(|e| matches!(e.family, BronzeEventFamily::AssetObservation(_)))
        .collect();
    assert_eq!(obs.len(), 2);
}

// 7. Same NetID seen twice → only one AssetObservation.
#[test]
fn same_netid_one_observation() {
    let mut dec = AdsDecoder::default();
    let mut out = Vec::new();
    let netid = [10, 0, 0, 1, 1, 1];
    for iv in [10u32, 11u32] {
        let f = frame(netid, 6000, [10, 0, 0, 2, 1, 1], 851, 2, 0x04, 0, iv, 0);
        dec.on_stream_chunk(&chunk(&f, ctx(6000, 48898), "s7"), &mut out);
    }
    let count = out
        .iter()
        .filter(|e| matches!(e.family, BronzeEventFamily::AssetObservation(_)))
        .count();
    assert_eq!(count, 1);
}

// 8. Frame split across two TCP chunks — reassembly must work.
#[test]
fn fragmented_reassembly() {
    let mut dec = AdsDecoder::default();
    let mut out = Vec::new();
    let f = frame(
        [10, 0, 0, 1, 1, 1],
        7000,
        [10, 0, 0, 2, 1, 1],
        851,
        3,
        0x04,
        0,
        55,
        0,
    );
    let mid = f.len() / 2;
    dec.on_stream_chunk(&chunk(&f[..mid], ctx(7000, 48898), "s8"), &mut out);
    assert!(txns(&out).is_empty(), "no events before frame complete");
    dec.on_stream_chunk(&chunk(&f[mid..], ctx(7000, 48898), "s8"), &mut out);
    assert_eq!(dec.pending.len(), 1); // request buffered, awaiting response
}

// 9. However the bytes are cut, the same events come out.
#[test]
fn cutting_the_stream_elsewhere_changes_nothing() {
    let sn = [10, 0, 0, 1, 1, 1];
    let dn = [10, 0, 0, 2, 1, 1];
    let mut stream = frame(sn, 1000, dn, 851, 3, 0x04, 0, 1, 0);
    stream.extend(frame(dn, 851, sn, 1000, 3, 0x05, 0, 1, 0));
    stream.extend(frame(sn, 1000, dn, 851, 0x99, 0x04, 0, 2, 7));
    let mut whole = AdsDecoder::default();
    let mut all = Vec::new();
    let mut c = chunk(&stream, ctx(1000, 48898), "s");
    c.captured_len = 0;
    whole.on_stream_chunk(&c, &mut all);
    for cut in 0..=stream.len() {
        let mut dec = AdsDecoder::default();
        let mut out = Vec::new();
        for part in [&stream[..cut], &stream[cut..]] {
            let mut c = chunk(part, ctx(1000, 48898), "s");
            c.captured_len = 0;
            dec.on_stream_chunk(&c, &mut out);
        }
        assert_eq!(format!("{out:?}"), format!("{all:?}"), "cut at {cut}");
        assert_eq!(dec.pending.len(), whole.pending.len());
    }
}

// 10. No more than 1024 requests wait.
#[test]
fn waiting_requests_are_bounded() {
    let mut dec = AdsDecoder::default();
    let mut out = Vec::new();
    for invoke in 0..1100u32 {
        let f = frame([1; 6], 1000, [2; 6], 851, 2, 0x04, 0, invoke, 0);
        dec.on_stream_chunk(&chunk(&f, ctx(1000, 48898), "s"), &mut out);
        assert!(dec.pending.len() <= 1024);
    }
    assert_eq!(dec.pending.len(), 1024);
}

// 11. An answer of another session, requester or invoke id finds no request.
#[test]
fn answers_are_paired_within_session_requester_and_invoke_id() {
    let sn = [10, 0, 0, 1, 1, 1];
    let dn = [10, 0, 0, 2, 1, 1];
    let mut dec = AdsDecoder::default();
    let mut out = Vec::new();
    let req = frame(sn, 1000, dn, 851, 2, 0x04, 0, 7, 0);
    dec.on_stream_chunk(&chunk(&req, ctx(1000, 48898), "s"), &mut out);
    let other_id = frame(dn, 851, sn, 1000, 2, 0x05, 0, 8, 0);
    let other_requester = frame(dn, 851, [9; 6], 1000, 2, 0x05, 0, 7, 0);
    let answer = frame(dn, 851, sn, 1000, 2, 0x05, 0, 7, 0);
    dec.on_stream_chunk(&chunk(&other_id, ctx(48898, 1000), "s"), &mut out);
    dec.on_stream_chunk(&chunk(&other_requester, ctx(48898, 1000), "s"), &mut out);
    dec.on_stream_chunk(&chunk(&answer, ctx(48898, 1000), "other"), &mut out);
    assert_eq!(dec.pending.len(), 1);
    assert!(txns(&out).iter().all(|t| t.status != "ok"));
    dec.on_stream_chunk(&chunk(&answer, ctx(48898, 1000), "s"), &mut out);
    assert_eq!(dec.pending.len(), 0);
    assert_eq!(txns(&out).last().unwrap().status, "ok");
}

// 12. What still waits at a flush is reported and forgotten.
#[test]
fn flush_reports_what_waits() {
    let mut dec = AdsDecoder::default();
    let mut out = Vec::new();
    let req = frame([1; 6], 1000, [2; 6], 851, 6, 0x04, 0, 7, 0);
    dec.on_stream_chunk(&chunk(&req, ctx(1000, 48898), "s"), &mut out);
    out.clear();
    dec.on_idle_flush(NOW, &mut out);
    assert_eq!(txns(&out).len(), 1);
    assert_eq!(dec.pending.len(), 0);
    dec.on_idle_flush(NOW, &mut out);
    assert_eq!(out.len(), 1);
}

// 13. Nor do the times, frame numbers and hashes of the chunks: they say the same, and the same
// bytes are left.
#[test]
fn many_chunks_say_what_the_stream_says() {
    let sn = [10, 0, 0, 1, 1, 1];
    let dn = [10, 0, 0, 2, 1, 1];
    let mut stream = frame(sn, 1000, dn, 851, 3, 0x04, 0, 1, 0);
    stream.extend(frame(dn, 851, sn, 1000, 3, 0x05, 0, 1, 0));
    stream.extend(frame(dn, 851, sn, 1000, 2, 0x05, 7, 9, 0));
    stream.extend(frame(sn, 1000, dn, 851, 0x99, 0x04, 0, 2, 7));
    let tail = frame(sn, 1000, dn, 851, 3, 0x04, 0, 3, 0);
    stream.extend(&tail[..20]);
    let mut whole = AdsDecoder::default();
    let mut all = Vec::new();
    whole.on_stream_chunk(&chunk(&stream, ctx(1000, 48898), "s"), &mut all);
    let said: Vec<_> = all.iter().map(|e| format!("{:?}", e.family)).collect();
    for size in 1..=stream.len() {
        let mut dec = AdsDecoder::default();
        let mut out = Vec::new();
        for (i, part) in stream.chunks(size).enumerate() {
            let mut c = chunk(part, ctx(1000, 48898), "s");
            c.timestamp = Timestamp { seconds: i as i64, nanos: 1 };
            c.frame_index = i as u64;
            c.segment_hash = "bb";
            dec.on_stream_chunk(&c, &mut out);
        }
        let parts: Vec<_> = out.iter().map(|e| format!("{:?}", e.family)).collect();
        assert_eq!(parts, said, "chunks of {size}");
        assert_eq!(dec.buf, tail[..20]);
        assert_eq!(dec.pending.len(), whole.pending.len());
    }
}
