use ot_decoders::events::{BronzeEvent, BronzeEventFamily, Dissection};
use ot_decoders::omron_fins::{
    omron_fins_destination_role, omron_fins_object_refs, omron_fins_operation_name,
    omron_fins_source_role, omron_fins_status, omron_fins_summary, OmronFinsDecoder,
    OmronFinsFields,
};
use ot_decoders::packet::{IpAddress, PacketContext, StreamChunk, Timestamp, TransportProtocol};

const NOW: Timestamp = Timestamp { seconds: 1_700_000_000, nanos: 0 };

fn ctx(src_port: u16, dst_port: u16) -> PacketContext {
    PacketContext {
        src_mac: [0x02, 0, 0, 0, 0, 0x0A],
        dst_mac: [0x02, 0, 0, 0, 0, 0x0B],
        src_ip: IpAddress::V4([10, 0, 0, 1]),
        dst_ip: IpAddress::V4([10, 0, 0, 2]),
        src_port,
        dst_port,
        vlan_id: None,
        timestamp: 0,
    }
}

fn chunk<'a>(payload: &'a [u8], context: PacketContext, transport: TransportProtocol) -> StreamChunk<'a> {
    StreamChunk {
        capture_id: "cap",
        segment_hash: "seg",
        interface_id: 3,
        frame_index: 7,
        timestamp: NOW,
        context,
        ethertype: 0x0800,
        ip_proto: None,
        llc: None,
        transport,
        payload,
        session_key: "sess".to_string(),
        captured_len: 60,
    }
}

fn families(events: &[BronzeEvent]) -> Vec<&'static str> {
    events.iter().map(|e| e.family_name()).collect()
}

fn read_words() -> OmronFinsFields {
    OmronFinsFields {
        frame_variant: "tcp".to_string(),
        tcp_command: Some(2),
        tcp_error_code: Some(0),
        icf: Some(0x80),
        rsv: Some(0),
        gateway_count: Some(2),
        destination_network: Some(0),
        destination_node: Some(10),
        destination_unit: Some(0),
        source_network: None,
        source_node: Some(99),
        source_unit: None,
        service_id: Some(0x1F),
        command_code: Some(0x0101),
        command_name: Some("Memory Area Read".to_string()),
        memory_area: Some(0x82),
        memory_word: Some(100),
        memory_bit: Some(0),
        item_count: Some(4),
        payload: vec![0x82, 0x00, 0x64],
    }
}

#[test]
fn fins_memory_read_gives_all_events() {
    let mut out = Vec::new();
    let c = chunk(&[0x46], ctx(50_000, 9600), TransportProtocol::Tcp);
    OmronFinsDecoder.on_stream_chunk(&c, Dissection::Parsed(read_words()), &mut out);
    assert_eq!(
        families(&out),
        [
            "protocol_transaction",
            "asset_observation",
            "asset_observation",
            "topology_observation",
            "extracted_artifact",
        ]
    );
    let BronzeEventFamily::ProtocolTransaction(tx) = &out[0].family else { panic!() };
    assert_eq!(tx.operation, "memory_area_read");
    assert_eq!(tx.status, "request");
    assert_eq!(tx.request_summary.as_deref(), Some("Memory Area Read 99->10"));
    assert_eq!(
        tx.object_refs,
        ["memory_area:0x82", "memory_word:100", "memory_bit:0", "item_count:4"]
    );
    assert_eq!(tx.attributes.get("tcp_command").unwrap(), "0x00000002");
    assert_eq!(tx.attributes.get("command_code").unwrap(), "0x0101");
    assert_eq!(tx.attributes.get("service_id").unwrap(), "0x1f");
    assert!(!tx.attributes.contains_key("source_network"));

    let BronzeEventFamily::AssetObservation(source) = &out[1].family else { panic!() };
    assert_eq!(source.asset_key, "10.0.0.1");
    assert_eq!(source.role.as_deref(), Some("controller"));
    assert_eq!(source.vendor.as_deref(), Some("OMRON"));
    assert_eq!(source.identifiers.get("fins_node").unwrap(), "99");
    let BronzeEventFamily::AssetObservation(plc) = &out[2].family else { panic!() };
    assert_eq!(plc.asset_key, "10.0.0.2");
    assert_eq!(plc.role.as_deref(), Some("plc"));
}

#[test]
fn fins_bare_frame_is_transaction_and_link() {
    let mut f = read_words();
    f.destination_network = None;
    f.destination_node = None;
    f.destination_unit = None;
    f.source_node = None;
    f.command_name = None;
    f.payload.clear();
    let mut out = Vec::new();
    let c = chunk(&[0x46], ctx(9600, 50_000), TransportProtocol::Udp);
    OmronFinsDecoder.on_datagram(&c, Dissection::Parsed(f), &mut out);
    assert_eq!(families(&out), ["protocol_transaction", "topology_observation"]);
    let BronzeEventFamily::ProtocolTransaction(tx) = &out[0].family else { panic!() };
    assert_eq!(tx.operation, "command_0101");
    assert_eq!(tx.status, "response");
    assert_eq!(tx.request_summary.as_deref(), Some("fins_command"));
}

#[test]
fn fins_foreign_and_malformed_payloads() {
    let c = chunk(&[0x46], ctx(50_000, 9600), TransportProtocol::Udp);
    let mut out = Vec::new();
    OmronFinsDecoder.on_datagram(&c, Dissection::Foreign, &mut out);
    assert!(out.is_empty());
    OmronFinsDecoder.on_datagram(&c, Dissection::Malformed, &mut out);
    let BronzeEventFamily::ParseAnomaly(a) = &out[0].family else { panic!() };
    assert_eq!(a.reason, "failed to parse omron fins payload");
    assert_eq!(out[0].envelope.transport, TransportProtocol::Udp);
}

#[test]
fn fins_roles_follow_the_status_and_swap_with_the_direction() {
    let there = ctx(50_000, 9600);
    let back = ctx(9600, 50_000);
    let peers = ctx(9600, 9600);
    assert_eq!(omron_fins_status(&there), "request");
    assert_eq!(omron_fins_status(&back), "response");
    assert_eq!(omron_fins_status(&peers), "observed");
    assert_eq!(omron_fins_source_role(&there), Some("controller"));
    assert_eq!(omron_fins_destination_role(&there), Some("plc"));
    assert_eq!(omron_fins_source_role(&there), omron_fins_destination_role(&back));
    assert_eq!(omron_fins_destination_role(&there), omron_fins_source_role(&back));
    assert_eq!(omron_fins_source_role(&peers), None);
    assert_eq!(omron_fins_destination_role(&peers), None);
}

#[test]
fn fins_labels() {
    assert_eq!(omron_fins_operation_name(None, None), "omron_fins");
    assert_eq!(omron_fins_operation_name(None, Some(0x2A)), "command_002a");
    assert_eq!(omron_fins_operation_name(Some("--"), Some(1)), "omron_fins");
    assert_eq!(omron_fins_summary(None, Some(1), None), "fins_command");
    assert!(omron_fins_object_refs(None, None, None, None).is_empty());
}
