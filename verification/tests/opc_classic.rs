use ot_decoders::events::{
    AssetObservation, BronzeEvent, BronzeEventFamily, ParseAnomaly, ProtocolTransaction,
};
use ot_decoders::opc_classic::{decode_uuid_le, resolve_opc, OpcClassicDecoder, PTYPE_BIND};
use ot_decoders::packet::{IpAddress, PacketContext, StreamChunk, Timestamp, TransportProtocol};

const NOW: Timestamp = Timestamp { seconds: 1_700_000_000, nanos: 0 };

fn ctx() -> PacketContext {
    PacketContext {
        src_mac: [0;6], dst_mac: [0;6],
        src_ip: IpAddress::V4([10,0,0,1]),
        dst_ip: IpAddress::V4([10,0,0,2]),
        src_port: 49152, dst_port: 135, vlan_id: None, timestamp: 0,
    }
}

fn mk<'a>(payload: &'a [u8], session: &'a str) -> StreamChunk<'a> {
    StreamChunk {
        capture_id: "t", segment_hash: "s", interface_id: 0, frame_index: 0,
        timestamp: NOW, context: ctx(), ethertype: 0x0800, ip_proto: Some(6),
        llc: None, transport: TransportProtocol::Tcp,
        payload, session_key: session.to_string(), captured_len: payload.len() as u64,
    }
}

fn txns(ev: &[BronzeEvent]) -> Vec<&ProtocolTransaction> {
    ev.iter().filter_map(|e|
        if let BronzeEventFamily::ProtocolTransaction(ref t) = e.family { Some(t) } else { None }
    ).collect()
}
fn obs(ev: &[BronzeEvent]) -> Vec<&AssetObservation> {
    ev.iter().filter_map(|e|
        if let BronzeEventFamily::AssetObservation(ref a) = e.family { Some(a) } else { None }
    ).collect()
}
fn anoms(ev: &[BronzeEvent]) -> Vec<&ParseAnomaly> {
    ev.iter().filter_map(|e|
        if let BronzeEventFamily::ParseAnomaly(ref a) = e.family { Some(a) } else { None }
    ).collect()
}

/// 16-byte LE DCE/RPC common header. rpc_vers=5, LE data representation.
fn hdr(ptype: u8, call_id: u32) -> Vec<u8> {
    let mut v = vec![5, 0, ptype, 0x03, 0x10, 0, 0, 0, 0, 0, 0, 0];
    v.extend_from_slice(&call_id.to_le_bytes());
    v
}

/// Encode canonical UUID string to LE wire bytes.
///
/// "d1d1d1d1-d2d2-d3d3-d4d4-d4d4d4d4d4d4" →
///   Data1 u32 LE | Data2 u16 LE | Data3 u16 LE | Data4[8] verbatim (BE)
fn uuid_le(s: &str) -> [u8; 16] {
    let hex: String = s.chars().filter(|c| *c != '-').collect();
    let b: Vec<u8> = (0..16).map(|i| u8::from_str_radix(&hex[i*2..i*2+2], 16).unwrap()).collect();
    let mut out = [0u8; 16];
    out[0..4].copy_from_slice(&u32::from_be_bytes([b[0],b[1],b[2],b[3]]).to_le_bytes());
    out[4..6].copy_from_slice(&u16::from_be_bytes([b[4],b[5]]).to_le_bytes());
    out[6..8].copy_from_slice(&u16::from_be_bytes([b[6],b[7]]).to_le_bytes());
    out[8..16].copy_from_slice(&b[8..16]);
    out
}

const NDR_UUID: &str = "8a885d04-1ceb-11c9-9fe8-08002b104860";

fn bind_pdu_multi(call_id: u32, iface_uuids: &[&str]) -> Vec<u8> {
    let ndr = uuid_le(NDR_UUID);
    let mut body: Vec<u8> = Vec::new();
    body.extend_from_slice(&4280u16.to_le_bytes()); // max_xmit_frag
    body.extend_from_slice(&4280u16.to_le_bytes()); // max_recv_frag
    body.extend_from_slice(&0u32.to_le_bytes());    // assoc_group_id
    body.push(iface_uuids.len() as u8);
    body.extend_from_slice(&[0,0,0]);               // reserved
    for (i, uuid) in iface_uuids.iter().enumerate() {
        body.extend_from_slice(&(i as u16).to_le_bytes()); // p_cont_id
        body.push(1); body.push(0);                         // n_transfer_syn, reserved
        body.extend_from_slice(&uuid_le(uuid));             // abstract syntax uuid
        body.extend_from_slice(&1u32.to_le_bytes());       // abstract version
        body.extend_from_slice(&ndr);                       // transfer syntax
        body.extend_from_slice(&2u32.to_le_bytes());       // transfer version
    }
    let mut pdu = hdr(PTYPE_BIND, call_id);
    pdu.extend_from_slice(&body);
    pdu
}

fn bind_pdu(call_id: u32, uuid: &str) -> Vec<u8> { bind_pdu_multi(call_id, &[uuid]) }

// ── Test 1: BIND with IOPCServer → ProtocolTransaction op=opc_classic_bind,
//           opc_family=da, opc_interfaces contains IOPCServer ─────────────
#[test]
fn bind_iopc_server_emits_da_transaction() {
    let mut dec = OpcClassicDecoder::default();
    let mut out = Vec::new();
    dec.on_stream_chunk(&mk(&bind_pdu(1, "39c13a4d-011e-11d0-9675-0020afd8adb3"), "s1"), &mut out);
    let txs = txns(&out);
    assert_eq!(txs.len(), 1);
    assert_eq!(txs[0].operation, "opc_classic_bind");
    assert_eq!(txs[0].status,    "observed");
    assert_eq!(txs[0].attributes.get("opc_family").unwrap(), "da");
    assert!(txs[0].attributes.get("opc_interfaces").unwrap().contains("IOPCServer"));
    assert_eq!(txs[0].attributes.get("call_id").unwrap(), "1");
}

// ── Test 2: BIND with IOPCAsyncIO2 → opc_interfaces contains IOPCAsyncIO2 ─
#[test]
fn bind_iopc_async_io2() {
    let mut dec = OpcClassicDecoder::default();
    let mut out = Vec::new();
    dec.on_stream_chunk(&mk(&bind_pdu(7, "39c13a71-011e-11d0-9675-0020afd8adb3"), "s2"), &mut out);
    let txs = txns(&out);
    assert_eq!(txs.len(), 1);
    assert!(txs[0].attributes.get("opc_interfaces").unwrap().contains("IOPCAsyncIO2"));
    assert_eq!(txs[0].attributes.get("opc_family").unwrap(), "da");
}

// ── Test 3: BIND with IOPCHDA_Server → opc_family=hda ────────────────────
#[test]
fn bind_hda_server() {
    let mut dec = OpcClassicDecoder::default();
    let mut out = Vec::new();
    dec.on_stream_chunk(&mk(&bind_pdu(42, "1f1217b1-deef-11d1-b04d-00c04fa31a86"), "s3"), &mut out);
    let txs = txns(&out);
    assert_eq!(txs.len(), 1);
    assert_eq!(txs[0].attributes.get("opc_family").unwrap(), "hda");
    assert!(txs[0].attributes.get("opc_interfaces").unwrap().contains("IOPCHDA_Server"));
}

// ── Test 4: BIND with DA + HDA → opc_family contains both ────────────────
#[test]
fn bind_mixed_da_hda() {
    let mut dec = OpcClassicDecoder::default();
    let mut out = Vec::new();
    let pdu = bind_pdu_multi(99, &[
        "39c13a4d-011e-11d0-9675-0020afd8adb3", // IOPCServer (DA)
        "1f1217b2-deef-11d1-b04d-00c04fa31a86", // IOPCHDA_Browser (HDA)
    ]);
    dec.on_stream_chunk(&mk(&pdu, "s4"), &mut out);
    let txs = txns(&out);
    assert_eq!(txs.len(), 1);
    let fam = &txs[0].attributes.get("opc_family").unwrap();
    assert!(fam.contains("da"),  "expected 'da' in opc_family, got: {fam}");
    assert!(fam.contains("hda"), "expected 'hda' in opc_family, got: {fam}");
    let ifaces = &txs[0].attributes.get("opc_interfaces").unwrap();
    assert!(ifaces.contains("IOPCServer"));
    assert!(ifaces.contains("IOPCHDA_Browser"));
}

// ── Test 5: BIND with non-OPC UUID (samr) → no event ─────────────────────
#[test]
fn bind_non_opc_uuid_no_event() {
    let mut dec = OpcClassicDecoder::default();
    let mut out = Vec::new();
    dec.on_stream_chunk(&mk(&bind_pdu(5, "12345778-1234-abcd-ef00-0123456789ac"), "s5"), &mut out);
    assert!(out.is_empty(), "non-OPC BIND must produce no events, got {}", out.len());
}

// ── Test 6: Truncated context list → ParseAnomaly severity=low ───────────
#[test]
fn bind_truncated_context_list_anomaly() {
    let mut dec = OpcClassicDecoder::default();
    let mut out = Vec::new();
    // n_ctx=2 but only one complete element provided — second is truncated
    let mut pdu = hdr(PTYPE_BIND, 3);
    pdu.extend_from_slice(&4280u16.to_le_bytes()); // max_xmit_frag
    pdu.extend_from_slice(&4280u16.to_le_bytes()); // max_recv_frag
    pdu.extend_from_slice(&0u32.to_le_bytes());    // assoc_group_id
    pdu.push(2); pdu.extend_from_slice(&[0,0,0]); // n_ctx=2 (lie), reserved
    // First element (IOPCServer — complete)
    pdu.extend_from_slice(&0u16.to_le_bytes());
    pdu.push(1); pdu.push(0);
    pdu.extend_from_slice(&uuid_le("39c13a4d-011e-11d0-9675-0020afd8adb3"));
    pdu.extend_from_slice(&1u32.to_le_bytes());
    pdu.extend_from_slice(&uuid_le(NDR_UUID));
    pdu.extend_from_slice(&2u32.to_le_bytes());
    // Second element: absent (truncated)
    dec.on_stream_chunk(&mk(&pdu, "s6"), &mut out);
    assert!(anoms(&out).iter().any(|a| a.severity == "low"), "expected low anomaly");
    // Partial parse should still emit a transaction for the valid first element
    let txs = txns(&out);
    assert_eq!(txs.len(), 1, "expected 1 transaction from partial parse");
    assert!(txs[0].attributes.get("opc_interfaces").unwrap().contains("IOPCServer"));
}

// ── Test 7: AssetObservation targets destination IP with correct role ──────
#[test]
fn bind_emits_asset_observation_for_server() {
    let mut dec = OpcClassicDecoder::default();
    let mut out = Vec::new();
    dec.on_stream_chunk(&mk(&bind_pdu(1, "39c13a4d-011e-11d0-9675-0020afd8adb3"), "s7"), &mut out);
    let observations = obs(&out);
    assert_eq!(observations.len(), 1);
    assert_eq!(observations[0].asset_key, "10.0.0.2");
    assert_eq!(observations[0].role.as_deref(), Some("opc_classic_server"));
    assert_eq!(observations[0].identifiers.get("opc_families").unwrap(), "da");
}

// ── Interfaces are named once, and only they are reported ─────────────────
#[test]
fn interfaces_are_named_once() {
    let server = "39c13a4d-011e-11d0-9675-0020afd8adb3";
    let group = "39c13a50-011e-11d0-9675-0020afd8adb3";
    let mut out = Vec::new();
    OpcClassicDecoder::default()
        .on_stream_chunk(&mk(&bind_pdu_multi(1, &[server, group, server, NDR_UUID]), "s"), &mut out);
    assert_eq!(txns(&out).len(), 1);
    assert_eq!(obs(&out).len(), 1);
    let names = txns(&out)[0].attributes.get("opc_interfaces").unwrap();
    assert_eq!(names.matches("IOPCServer").count(), 1, "{names}");
    assert_eq!(resolve_opc(server).unwrap().name, "IOPCServer");
    assert!(resolve_opc(NDR_UUID).is_none());
    assert_eq!(decode_uuid_le(&uuid_le(server)), server);
}

#[test]
fn other_protocols_and_short_headers_are_silent() {
    let mut out = Vec::new();
    let mut dec = OpcClassicDecoder::default();
    dec.on_stream_chunk(&mk(&[1, 2, 3], "s"), &mut out);
    dec.on_stream_chunk(&mk(&bind_pdu(1, NDR_UUID), "s"), &mut out);
    assert!(txns(&out).is_empty());
    assert!(obs(&out).is_empty());
}

// ── A broken PDU that names no OPC interface is silent ────────────────────
#[test]
fn truncated_bind_without_opc_is_silent() {
    let mut dec = OpcClassicDecoder::default();
    let mut out = Vec::new();
    // One context element announced, none present.
    let mut pdu = hdr(PTYPE_BIND, 1);
    pdu.extend_from_slice(&[0xb8, 0x10, 0xb8, 0x10, 0, 0, 0, 0, 1, 0, 0, 0]);
    dec.on_stream_chunk(&mk(&pdu, "s"), &mut out);
    assert!(out.is_empty());
    // Two announced, one present that is not OPC.
    let mut pdu = bind_pdu(1, NDR_UUID);
    pdu[24] = 2;
    dec.on_stream_chunk(&mk(&pdu, "s"), &mut out);
    assert!(out.is_empty());
    // A body too short for a list.
    dec.on_stream_chunk(&mk(&hdr(PTYPE_BIND, 1), "s"), &mut out);
    assert!(out.is_empty());
}
