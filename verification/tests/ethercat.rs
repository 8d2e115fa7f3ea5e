use ot_decoders::ethercat::{
    ethercat_object_refs, ethercat_operation_name, ethercat_slave_asset_key, EthercatDatagram,
    EthercatDecoderWrapper, EthercatFields, EthercatIdentity,
};
use ot_decoders::events::{BronzeEvent, BronzeEventFamily, Dissection};
use ot_decoders::packet::{IpAddress, PacketContext, StreamChunk, Timestamp, TransportProtocol};

const NOW: Timestamp = Timestamp { seconds: 1_700_000_000, nanos: 0 };

fn ctx(src_port: u16, dst_port: u16) -> PacketContext {
    PacketContext {
        src_mac: [0x02, 0, 0, 0, 0, 0x0A],
        dst_mac: [0x02, 0, 0, 0, 0, 0x0B],
        src_ip: IpAddress::V4([10, 0, 0, 1]),
        dst_ip: IpAddress::V4([10, 0, 0, 2]),
        src_port,
        dst_port,
        vlan_id: None,
        timestamp: 0,
    }
}

fn chunk<'a>(payload: &'a [u8], context: PacketContext, transport: TransportProtocol) -> StreamChunk<'a> {
    StreamChunk {
        capture_id: "cap",
        segment_hash: "seg",
        interface_id: 3,
        frame_index: 7,
        timestamp: NOW,
        context,
        ethertype: 0x0800,
        ip_proto: None,
        llc: None,
        transport,
        payload,
        session_key: "sess".to_string(),
        captured_len: 60,
    }
}

fn families(events: &[BronzeEvent]) -> Vec<&'static str> {
    events.iter().map(|e| e.family_name()).collect()
}

fn datagram(command: &str, adp: u16, alias: Option<u16>, payload: &[u8]) -> EthercatDatagram {
    EthercatDatagram {
        command: command.to_string(),
        adp,
        ado: 0x130,
        address_mode: "position".to_string(),
        payload: payload.to_vec(),
        identity: EthercatIdentity {
            alias_address: alias,
            vendor_id: Some(2),
            product_code: Some(72_100_946),
            revision: Some(1_114_112),
            serial_number: None,
        },
    }
}

fn run(datagrams: Vec<EthercatDatagram>) -> Vec<BronzeEvent> {
    let mut out = Vec::new();
    let c = chunk(&[0x0E, 0x10], ctx(0, 0), TransportProtocol::Ethernet);
    EthercatDecoderWrapper.on_datagram(
        &c,
        Dissection::Parsed(EthercatFields { datagrams }),
        &mut out,
    );
    out
}

#[test]
fn ethercat_frame_is_one_transaction_one_master_and_each_addressed_slave() {
    let out = run(vec![
        datagram("BRD", 0, None, &[]),
        datagram("APRD", 65_535, None, &[1, 2]),
        datagram("FPRD", 0, Some(1001), &[3]),
    ]);
    assert_eq!(
        families(&out),
        [
            "protocol_transaction",
            "asset_observation",
            "asset_observation",
            "topology_observation",
            "asset_observation",
            "topology_observation",
            "extracted_artifact",
        ]
    );
    let BronzeEventFamily::ProtocolTransaction(tx) = &out[0].family else { panic!() };
    assert_eq!(tx.operation, "ethercat_multi_datagram");
    assert_eq!(tx.request_summary.as_deref(), Some("3 datagrams"));
    assert_eq!(tx.attributes.get("first_command").unwrap(), "BRD");
    assert_eq!(tx.attributes.get("first_ado").unwrap(), "0x0130");
    assert_eq!(tx.object_refs.len(), 9);

    let BronzeEventFamily::AssetObservation(master) = &out[1].family else { panic!() };
    assert_eq!(master.asset_key, "02:00:00:00:00:0a");
    assert_eq!(master.role.as_deref(), Some("master"));

    let BronzeEventFamily::AssetObservation(slave) = &out[2].family else { panic!() };
    assert_eq!(slave.asset_key, "ethercat_adp:65535");
    assert_eq!(slave.vendor.as_deref(), Some("vendor_2"));
    assert_eq!(slave.model.as_deref(), Some("product_72100946"));
    assert_eq!(slave.firmware.as_deref(), Some("1114112"));
    assert!(!slave.identifiers.contains_key("ethercat_serial_number"));

    let BronzeEventFamily::TopologyObservation(link) = &out[5].family else { panic!() };
    assert_eq!(link.remote_id.as_deref(), Some("ethercat_alias:1001"));
    assert_eq!(link.description.as_deref(), Some("FPRD"));

    let BronzeEventFamily::ExtractedArtifact(a) = &out[6].family else { panic!() };
    assert_eq!(a.content, [1, 2, 3]);
    assert_eq!(a.artifact_key, "sess:7");
}

#[test]
fn ethercat_empty_frame_is_transaction_and_master() {
    let out = run(Vec::new());
    assert_eq!(families(&out), ["protocol_transaction", "asset_observation"]);
    let BronzeEventFamily::ProtocolTransaction(tx) = &out[0].family else { panic!() };
    assert_eq!(tx.operation, "ethercat_frame");
    assert_eq!(tx.attributes.get("datagram_count").unwrap(), "0");
    assert!(!tx.attributes.contains_key("first_command"));
}

#[test]
fn ethercat_foreign_and_malformed_payloads() {
    let c = chunk(&[0xAA], ctx(0, 0), TransportProtocol::Ethernet);
    let mut out = Vec::new();
    EthercatDecoderWrapper.on_datagram(&c, Dissection::Foreign, &mut out);
    assert!(out.is_empty());
    EthercatDecoderWrapper.on_datagram(&c, Dissection::Malformed, &mut out);
    let BronzeEventFamily::ParseAnomaly(a) = &out[0].family else { panic!() };
    assert_eq!(a.reason, "failed to parse ethercat payload");
    assert_eq!(a.severity, "medium");
}

#[test]
fn ethercat_labels() {
    let one = EthercatFields { datagrams: vec![datagram("LRW Cmd", 1, None, &[])] };
    assert_eq!(ethercat_operation_name(&one), "lrw_cmd");
    assert_eq!(ethercat_object_refs(&one), ["command:LRW Cmd", "adp:1", "ado:0x0130"]);
    assert_eq!(ethercat_slave_asset_key(0, None), None);
    assert_eq!(ethercat_slave_asset_key(5, None).as_deref(), Some("ethercat_adp:5"));
    assert_eq!(ethercat_slave_asset_key(5, Some(0)).as_deref(), Some("ethercat_alias:0"));
}
