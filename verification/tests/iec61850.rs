use ot_decoders::events::{BronzeEvent, BronzeEventFamily, Dissection, ProtocolFields};
use ot_decoders::iec61850::{
    iec61850_bronze_fields, IEC61850_GOOSE_ETHERTYPE, IEC61850_MMS_PORT, IEC61850_SV_ETHERTYPE,
    Iec61850BronzeFields, Iec61850DecoderWrapper, Iec61850Fields, Iec61850Profile,
};
use ot_decoders::packet::{IpAddress, PacketContext, StreamChunk, Timestamp, TransportProtocol};

const NOW: Timestamp = Timestamp { seconds: 1_700_000_000, nanos: 0 };

const TPKT_HEADER_SIZE: usize = 4;

fn build_tpkt_cotp_mms(payload: &[u8]) -> Vec<u8> {
    let cotp_len = 2u8;
    let tpkt_len = (TPKT_HEADER_SIZE + 1 + cotp_len as usize + payload.len()) as u16;
    let mut pkt = Vec::new();
    pkt.push(0x03);
    pkt.push(0x00);
    pkt.extend_from_slice(&tpkt_len.to_be_bytes());
    pkt.push(cotp_len);
    pkt.push(0xF0);
    pkt.push(0x80);
    pkt.extend_from_slice(payload);
    pkt
}

fn goose_or_sv_frame(app_id: u16, payload: &[u8]) -> Vec<u8> {
    let len = (8 + payload.len()) as u16;
    let mut pkt = Vec::new();
    pkt.extend_from_slice(&app_id.to_be_bytes());
    pkt.extend_from_slice(&len.to_be_bytes());
    pkt.extend_from_slice(&[0x00, 0x00, 0x00, 0x00]);
    pkt.extend_from_slice(payload);
    pkt
}

fn make_context(src_port: u16, dst_port: u16) -> PacketContext {
    PacketContext {
        src_mac: [0x02, 0x00, 0x00, 0x00, 0x00, 0x01],
        dst_mac: [0x02, 0x00, 0x00, 0x00, 0x00, 0x02],
        src_ip: IpAddress::V4([10, 0, 0, 1]),
        dst_ip: IpAddress::V4([10, 0, 0, 2]),
        src_port,
        dst_port,
        vlan_id: None,
        timestamp: 1_700_000_000_000_000_000,
    }
}

/// The value of the first primitive element with this tag.
fn element(p: &[u8], tag: u8) -> Option<u32> {
    for i in 0..p.len().saturating_sub(2) {
        let n = p[i + 1] as usize;
        if p[i] == tag && n >= 1 && n <= 4 && i + 2 + n <= p.len() {
            return Some(p[i + 2..i + 2 + n].iter().fold(0u32, |a, b| (a << 8) | *b as u32));
        }
    }
    None
}

/// The runs of at least four printable characters.
fn visible_strings(p: &[u8]) -> Vec<String> {
    p.split(|b| !(0x20..0x7F).contains(b))
        .filter(|s| s.len() >= 4)
        .map(|s| s.iter().map(|b| *b as char).collect())
        .collect()
}

fn dissect(p: &[u8], ethertype: u16) -> Iec61850Fields {
    let is_mms = ethertype != IEC61850_GOOSE_ETHERTYPE && ethertype != IEC61850_SV_ETHERTYPE;
    let is_goose = ethertype == IEC61850_GOOSE_ETHERTYPE;
    let body = &p[if is_mms { 7 } else { 8 }..];
    let service = match body[0] {
        0x60 => "initiate_request",
        0xA0 => "confirmed_request_pdu",
        _ => "unknown",
    };
    let label = if is_mms {
        service
    } else if is_goose {
        "goose"
    } else {
        "sampled_values"
    };
    Iec61850Fields {
        profile: if is_mms {
            Iec61850Profile::MmsIsoOnTcp
        } else if is_goose {
            Iec61850Profile::Goose
        } else {
            Iec61850Profile::SampledValues
        },
        transport: if is_mms { "tcp".to_string() } else { "ethernet".to_string() },
        message_type: label.to_string(),
        tpkt_length: if is_mms { Some(u16::from_be_bytes([p[2], p[3]])) } else { None },
        cotp_pdu_type: if is_mms { Some("data".to_string()) } else { None },
        app_id: if is_mms { None } else { Some(u16::from_be_bytes([p[0], p[1]])) },
        called_tsap: None,
        calling_tsap: None,
        service: Some(label.to_string()),
        ied_name: None,
        logical_device: None,
        logical_node: None,
        dataset: None,
        visible_strings: visible_strings(body),
        object_references: visible_strings(body),
        mms_invoke_id: if is_mms { element(body, 0x02) } else { None },
        goose_st_num: if is_goose { element(body, 0x89) } else { None },
        goose_sq_num: if is_goose { element(body, 0x8A) } else { None },
        goose_test: is_goose && element(body, 0x86).unwrap_or(0) != 0,
        sv_smp_cnt: if is_mms || is_goose { None } else { element(body, 0x82).map(|v| v as u16) },
        sv_smp_synch: if is_mms || is_goose { None } else { element(body, 0x85).map(|v| v as u8) },
        payload: body.to_vec(),
    }
}

fn run_decoder(
    payload: &[u8],
    src_port: u16,
    dst_port: u16,
    ethertype: u16,
) -> Vec<BronzeEvent> {
    let context = make_context(src_port, dst_port);
    let chunk = StreamChunk {
        capture_id: "cap1",
        interface_id: 0,
        frame_index: 1,
        timestamp: NOW,
        segment_hash: "seg",
        session_key: "sess".to_string(),
        context,
        payload,
        captured_len: payload.len() as u64,
        ethertype,
        ip_proto: None,
        llc: None,
        transport: TransportProtocol::Ethernet,
    };
    let mut decoder = Iec61850DecoderWrapper::default();
    let mut out = Vec::new();
    if ethertype == IEC61850_GOOSE_ETHERTYPE || ethertype == IEC61850_SV_ETHERTYPE {
        decoder.on_datagram(&chunk, Dissection::Parsed(dissect(payload, ethertype)), &mut out);
    } else {
        decoder.on_stream_chunk(&chunk, Dissection::Parsed(dissect(payload, ethertype)), &mut out);
    }
    out
}

fn extract_iec61850_fields(events: &[BronzeEvent]) -> &Iec61850BronzeFields {
    for ev in events {
        if let BronzeEventFamily::ProtocolTransaction(tx) = &ev.family {
            if let Some(ProtocolFields::Iec61850(f)) = &tx.protocol_fields {
                return f;
            }
        }
    }
    panic!("no Iec61850BronzeFields found in events");
}

// -----------------------------------------------------------------------
// MMS tests
// -----------------------------------------------------------------------

#[test]
fn mms_initiate_request_typed_fields() {
    // MMS initiate-request (tag 0x60) — no visible strings, no invoke-id.
    let payload = &[0x60, 0x04, 0x01, 0x02, 0x03, 0x04];
    let pkt = build_tpkt_cotp_mms(payload);
    let events = run_decoder(&pkt, 50_000, IEC61850_MMS_PORT, 0);

    let f = extract_iec61850_fields(&events);
    assert_eq!(f.sub_protocol, "mms");
    assert_eq!(f.mms_service.as_deref(), Some("initiate_request"));
    assert_eq!(f.direction, "request");
    assert!(f.goose_appid.is_none());
    assert!(f.sv_appid.is_none());
    assert!(!f.goose_test);
}

#[test]
fn mms_read_request_with_visible_string() {
    // confirmed-request (0xA0) with invoke-id=1 followed by a visible string.
    // BER: tag=0xA0, len=0x1E (30), then INTEGER 0x02 0x01 0x01 (invoke-id=1),
    // then readable ASCII reference.
    let inner: &[u8] = b"\x02\x01\x01IED1LD0/MMXU1.A.phsA.cVal.mag.f";
    let mut payload = vec![0xA0u8, inner.len() as u8];
    payload.extend_from_slice(inner);
    let pkt = build_tpkt_cotp_mms(&payload);
    let events = run_decoder(&pkt, 50_000, IEC61850_MMS_PORT, 0);

    let f = extract_iec61850_fields(&events);
    assert_eq!(f.sub_protocol, "mms");
    assert_eq!(f.mms_service.as_deref(), Some("confirmed_request_pdu"));
    assert_eq!(f.mms_invoke_id, Some(1));
    assert!(
        f.mms_visible_string.is_some(),
        "expected at least one visible string"
    );
    assert_eq!(f.direction, "request");
}

#[test]
fn mms_attributes_backward_compat() {
    // The `attributes` map is populated alongside typed fields.
    let payload = &[0x60, 0x02, 0x00, 0x00];
    let pkt = build_tpkt_cotp_mms(payload);
    let events = run_decoder(&pkt, 50_000, IEC61850_MMS_PORT, 0);

    let tx = events
        .iter()
        .find_map(|ev| {
            if let BronzeEventFamily::ProtocolTransaction(tx) = &ev.family {
                Some(tx)
            } else {
                None
            }
        })
        .expect("expected ProtocolTransaction");

    assert!(
        tx.attributes.contains_key("profile"),
        "attributes must still carry profile"
    );
    assert!(
        tx.attributes.contains_key("message_type"),
        "attributes must carry message_type"
    );
    assert!(
        tx.protocol_fields.is_some(),
        "protocol_fields must be populated"
    );
}

// -----------------------------------------------------------------------
// GOOSE tests
// -----------------------------------------------------------------------

#[test]
fn goose_update_st_num_sq_num() {
    // GOOSE PDU with stNum=5, sqNum=2, test=false.
    // Outer GOOSE-PDU SEQUENCE tag 0x61, then context-primitive TLVs:
    //   [9] stNum=5   → 0x89 0x01 0x05
    //   [10] sqNum=2  → 0x8A 0x01 0x02
    let goose_body: &[u8] = &[
        0x89, 0x01, 0x05, // stNum = 5
        0x8A, 0x01, 0x02, // sqNum = 2
    ];
    let mut goose_pdu = vec![0x61u8, goose_body.len() as u8];
    goose_pdu.extend_from_slice(goose_body);
    // Prefix with dataset ref string so visible-string extraction works.
    let mut inner = b"IED2LD1/LLN0\x24GO\x24gcb1\x00".to_vec();
    inner.extend_from_slice(&goose_pdu);

    let pkt = goose_or_sv_frame(0x1001, &inner);
    let events = run_decoder(&pkt, 0, 0, IEC61850_GOOSE_ETHERTYPE);

    let f = extract_iec61850_fields(&events);
    assert_eq!(f.sub_protocol, "goose");
    assert_eq!(f.goose_appid, Some(0x1001));
    assert_eq!(f.goose_state_number, Some(5));
    assert_eq!(f.goose_sequence_number, Some(2));
    assert!(!f.goose_test);
    assert_eq!(f.direction, "publish");
}

#[test]
fn goose_test_bit_set() {
    // GOOSE PDU with test bit = true (0x86 0x01 0xFF), stNum=1, sqNum=0.
    let goose_body: &[u8] = &[
        0x86, 0x01, 0xFF, // test = true
        0x89, 0x01, 0x01, // stNum = 1
        0x8A, 0x01, 0x00, // sqNum = 0
    ];
    let mut goose_pdu = vec![0x61u8, goose_body.len() as u8];
    goose_pdu.extend_from_slice(goose_body);
    // Pad with some bytes so the frame length is valid.
    let mut inner = b"IED3LD0/LLN0\x24GO\x24testcb\x00".to_vec();
    inner.extend_from_slice(&goose_pdu);

    let pkt = goose_or_sv_frame(0x2000, &inner);
    let events = run_decoder(&pkt, 0, 0, IEC61850_GOOSE_ETHERTYPE);

    let f = extract_iec61850_fields(&events);
    assert_eq!(f.sub_protocol, "goose");
    assert!(
        f.goose_test,
        "test bit must be true for security-relevant test-mode detection"
    );
    assert_eq!(f.goose_state_number, Some(1));
    assert_eq!(f.goose_sequence_number, Some(0));
}

// -----------------------------------------------------------------------
// Sampled Values tests
// -----------------------------------------------------------------------

#[test]
fn sv_asdu_smp_cnt_extracted() {
    // SV PDU: seqOfASDU (0xA2) containing one ASDU (0x30) with:
    //   smpCnt [2] = 0x82 0x02 0x01 0xF4  (smpCnt = 500)
    //   smpSynch [5] = 0x85 0x01 0x02      (smpSynch = 2 = global)
    let asdu_inner: &[u8] = &[
        0x82, 0x02, 0x01, 0xF4, // smpCnt = 500
        0x85, 0x01, 0x02, // smpSynch = 2
    ];
    let mut asdu = vec![0x30u8, asdu_inner.len() as u8];
    asdu.extend_from_slice(asdu_inner);

    let mut seq_of_asdu = vec![0xA2u8, asdu.len() as u8];
    seq_of_asdu.extend_from_slice(&asdu);

    // Prepend a visible string for identity extraction.
    let mut inner = b"IED4LD0/LPHD1\x24SV\x24smvcb\x00".to_vec();
    inner.extend_from_slice(&seq_of_asdu);

    let pkt = goose_or_sv_frame(0x1002, &inner);
    let events = run_decoder(&pkt, 0, 0, IEC61850_SV_ETHERTYPE);

    let f = extract_iec61850_fields(&events);
    assert_eq!(f.sub_protocol, "sampled_values");
    assert_eq!(f.sv_appid, Some(0x1002));
    assert_eq!(f.sv_smp_cnt, Some(500));
    assert_eq!(f.sv_smp_synch, Some(2));
    assert_eq!(f.direction, "publish");
}

// -----------------------------------------------------------------------
// Message kinds
// -----------------------------------------------------------------------

#[test]
fn typed_fields_belong_to_one_message_kind() {
    let mut f = dissect(&goose_or_sv_frame(7, b"IED\x89\x01\x05"), IEC61850_GOOSE_ETHERTYPE);
    f.mms_invoke_id = Some(1);
    f.sv_smp_cnt = Some(2);
    f.goose_st_num = Some(3);
    f.visible_strings = vec!["v".to_string()];
    f.profile = Iec61850Profile::Goose;
    let goose = iec61850_bronze_fields(&f);
    assert_eq!(goose.goose_state_number, Some(3));
    assert_eq!((goose.mms_invoke_id, goose.sv_smp_cnt), (None, None));
    assert_eq!(goose.direction, "publish");
    f.profile = Iec61850Profile::SampledValues;
    let sv = iec61850_bronze_fields(&f);
    assert_eq!(sv.sv_smp_cnt, Some(2));
    assert_eq!((sv.goose_state_number, sv.goose_appid), (None, None));
    assert_eq!(sv.direction, "publish");
    f.profile = Iec61850Profile::MmsIsoOnTcp;
    f.service = Some("confirmed_response_pdu".to_string());
    let mms = iec61850_bronze_fields(&f);
    assert_eq!(mms.mms_invoke_id, Some(1));
    assert_eq!(mms.mms_visible_string.as_deref(), Some("v"));
    assert_eq!((mms.goose_state_number, mms.sv_smp_cnt), (None, None));
    assert_eq!(mms.direction, "response");
}

#[test]
fn goose_data_set_falls_back_to_the_first_reference() {
    let mut f = dissect(&goose_or_sv_frame(7, b"IED\x89\x01\x05"), IEC61850_GOOSE_ETHERTYPE);
    f.object_references = vec!["LD/LLN0".to_string()];
    assert_eq!(iec61850_bronze_fields(&f).goose_dataset_ref.as_deref(), Some("LD/LLN0"));
    f.dataset = Some("ds1".to_string());
    assert_eq!(iec61850_bronze_fields(&f).goose_dataset_ref.as_deref(), Some("ds1"));
}

#[test]
fn iec61850_foreign_and_malformed_payloads() {
    let payload = [0u8; 4];
    let chunk = StreamChunk {
        capture_id: "cap1",
        interface_id: 0,
        frame_index: 1,
        timestamp: NOW,
        segment_hash: "seg",
        session_key: "sess".to_string(),
        context: make_context(1, 2),
        payload: &payload,
        captured_len: 4,
        ethertype: 0,
        ip_proto: None,
        llc: None,
        transport: TransportProtocol::Tcp,
    };
    let mut out = Vec::new();
    Iec61850DecoderWrapper.on_stream_chunk(&chunk, Dissection::Foreign, &mut out);
    assert!(out.is_empty());
    Iec61850DecoderWrapper.on_stream_chunk(&chunk, Dissection::Malformed, &mut out);
    Iec61850DecoderWrapper.on_datagram(&chunk, Dissection::Malformed, &mut out);
    let reasons: Vec<_> = out
        .iter()
        .filter_map(|e| match &e.family {
            BronzeEventFamily::ParseAnomaly(a) => Some(a.reason.as_str()),
            _ => None,
        })
        .collect();
    assert_eq!(
        reasons,
        ["failed to parse iec61850 tcp payload", "failed to parse iec61850 ethernet payload"]
    );
}
