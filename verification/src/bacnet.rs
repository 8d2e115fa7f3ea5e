//! BACnet on UDP port 47808 and on the LLC service access points 0x82.
//!
//! The frame is taken apart elsewhere; this decoder turns the parsed fields into events.

use vstd::prelude::*;

use crate::collections;
use crate::collections::Attributes;
use crate::events;
use crate::events::{
    artifact_event, asset_event, asset_observation, chunk_envelope, emit, emit_all, no_events,
    no_values, parse_anomaly_event, topology_event, transaction_event, BronzeEvent, EnvelopeView,
    EventView, ProtocolFields, ProtocolFieldsView, ProtocolTransaction, TopologyObservation,
    TopologyView, TransactionView,
};
use crate::naming;
use crate::naming::normalize_operation_name;
use crate::packet::{ChunkView, DecoderInterest, StreamChunk, TransportProtocol};
use crate::text;
use crate::text::{cat, dec_text, no_texts, opt_copy, push_text, same_text};

verus! {

/// The parsed fields of a BACnet frame.
#[derive(Debug, Clone)]
pub struct BacnetFields {
    pub link_variant: String,
    pub bvlc_function: Option<String>,
    pub npdu_control: u8,
    pub apdu_type: String,
    pub service: String,
    pub invoke_id: Option<u8>,
    pub vendor_id: Option<u16>,
    pub device_instance: Option<u32>,
    pub payload: Vec<u8>,
}

/// The typed fields of a BACnet frame.
#[derive(Debug, Clone)]
pub struct BacnetBronzeFields {
    pub link_variant: String,
    pub bvlc_function: Option<String>,
    pub npdu_control: u8,
    pub apdu_type: String,
    pub service: String,
    pub invoke_id: Option<u8>,
    pub device_instance: Option<u32>,
    pub vendor_id: Option<u16>,
    pub direction: String,
}

/// BACnet fields as contracts speak of them.
pub struct BacnetFieldsView {
    pub link_variant: Seq<char>,
    pub bvlc_function: Option<Seq<char>>,
    pub npdu_control: u8,
    pub apdu_type: Seq<char>,
    pub service: Seq<char>,
    pub invoke_id: Option<u8>,
    pub device_instance: Option<u32>,
    pub vendor_id: Option<u16>,
    pub direction: Seq<char>,
}

impl View for BacnetBronzeFields {
    type V = BacnetFieldsView;

    open spec fn view(&self) -> BacnetFieldsView {
        BacnetFieldsView {
            link_variant: self.link_variant@,
            bvlc_function: text::opt_view(self.bvlc_function),
            npdu_control: self.npdu_control,
            apdu_type: self.apdu_type@,
            service: self.service@,
            invoke_id: self.invoke_id,
            device_instance: self.device_instance,
            vendor_id: self.vendor_id,
            direction: self.direction@,
        }
    }
}

/// The status of a frame, by its APDU type.
pub open spec fn status_of(apdu_type: Seq<char>) -> Seq<char> {
    if apdu_type == "confirmed_request"@ || apdu_type == "unconfirmed_request"@ {
        "request"@
    } else if apdu_type == "simple_ack"@ || apdu_type == "complex_ack"@ {
        "response"@
    } else if apdu_type == "error"@ || apdu_type == "reject"@ || apdu_type == "abort"@ {
        "error"@
    } else {
        "observed"@
    }
}

/// The status of a frame, by its APDU type.
pub fn bacnet_status(apdu_type: &str) -> (r: &'static str)
    ensures
        r@ == status_of(apdu_type@),
{
    if same_text(apdu_type, "confirmed_request") || same_text(apdu_type, "unconfirmed_request") {
        "request"
    } else if same_text(apdu_type, "simple_ack") || same_text(apdu_type, "complex_ack") {
        "response"
    } else if same_text(apdu_type, "error") || same_text(apdu_type, "reject") || same_text(
        apdu_type,
        "abort",
    ) {
        "error"
    } else {
        "observed"
    }
}

/// The typed fields of a frame. The direction is the status.
pub open spec fn typed(f: BacnetFields) -> BacnetFieldsView {
    BacnetFieldsView {
        link_variant: f.link_variant@,
        bvlc_function: text::opt_view(f.bvlc_function),
        npdu_control: f.npdu_control,
        apdu_type: f.apdu_type@,
        service: f.service@,
        invoke_id: f.invoke_id,
        device_instance: f.device_instance,
        vendor_id: f.vendor_id,
        direction: status_of(f.apdu_type@),
    }
}

/// The typed fields of a frame.
pub fn bacnet_bronze_fields(fields: &BacnetFields) -> (r: BacnetBronzeFields)
    ensures
        r@ == typed(*fields),
{
    BacnetBronzeFields {
        link_variant: fields.link_variant.as_str().to_owned(),
        bvlc_function: opt_copy(&fields.bvlc_function),
        npdu_control: fields.npdu_control,
        apdu_type: fields.apdu_type.as_str().to_owned(),
        service: fields.service.as_str().to_owned(),
        invoke_id: fields.invoke_id,
        device_instance: fields.device_instance,
        vendor_id: fields.vendor_id,
        direction: bacnet_status(fields.apdu_type.as_str()).to_owned(),
    }
}

/// The object references of a frame: its device, then its invocation, as far as it has them.
pub open spec fn refs_of(device_instance: Option<u32>, invoke_id: Option<u8>) -> Seq<Seq<char>> {
    let d = match device_instance {
        Some(n) => Seq::<Seq<char>>::empty().push("bacnet_device:"@ + text::dec(n as nat)),
        None => Seq::empty(),
    };
    match invoke_id {
        Some(n) => d.push("bacnet_invoke:"@ + text::dec(n as nat)),
        None => d,
    }
}

/// The object references of a frame.
pub fn bacnet_object_refs(device_instance: Option<u32>, invoke_id: Option<u8>) -> (r: Vec<String>)
    ensures
        text::texts(r@) == refs_of(device_instance, invoke_id),
{
    let mut refs = no_texts();
    if let Some(n) = device_instance {
        push_text(&mut refs, cat("bacnet_device:", dec_text(n).as_str()));
    }
    if let Some(n) = invoke_id {
        push_text(&mut refs, cat("bacnet_invoke:", dec_text(n).as_str()));
    }
    refs
}

/// The envelope of a parsed frame: what is not UDP counts as Ethernet.
pub open spec fn env(c: ChunkView) -> EnvelopeView {
    events::chunk_env(
        c,
        if c.transport == TransportProtocol::Udp {
            TransportProtocol::Udp
        } else {
            TransportProtocol::Ethernet
        },
        "bacnet"@,
    )
}

/// The attributes of a frame.
pub open spec fn attrs_of(f: BacnetFields) -> Map<Seq<char>, Seq<char>> {
    let m = Map::empty().insert("link_variant"@, f.link_variant@).insert(
        "npdu_control"@,
        text::hex0x(f.npdu_control as nat, 2),
    ).insert("apdu_type"@, f.apdu_type@);
    let m = collections::insert_opt(m, "bvlc_function"@, text::opt_view(f.bvlc_function));
    let m = collections::insert_opt(m, "invoke_id"@, text::opt_dec(f.invoke_id));
    let m = collections::insert_opt(m, "vendor_id"@, text::opt_dec(f.vendor_id));
    collections::insert_opt(m, "device_instance"@, text::opt_dec(f.device_instance))
}

/// The transaction of a frame.
pub open spec fn frame_seen(c: ChunkView, f: BacnetFields) -> EventView {
    events::tx_view(
        c.capture_id,
        env(c),
        TransactionView {
            object_refs: refs_of(f.device_instance, f.invoke_id),
            protocol_fields: Some(ProtocolFieldsView::Bacnet(typed(f))),
            ..events::plain_tx(
                naming::normalized(f.service@, "bacnet_message"@),
                status_of(f.apdu_type@),
                Some(f.apdu_type@ + " "@ + f.service@),
                attrs_of(f),
            )
        },
    )
}

/// The device that a frame names.
pub open spec fn device_seen(c: ChunkView, f: BacnetFields, device_instance: u32) -> EventView {
    let ip = c.context.src_ip.text();
    events::asset_event_view(
        c.capture_id,
        env(c),
        events::asset_view(
            ip,
            Some("device"@),
            None,
            None,
            None,
            "bacnet"@,
            collections::insert_opt(
                Map::empty().insert("ip"@, ip).insert(
                    "bacnet_device_instance"@,
                    text::dec(device_instance as nat),
                ),
                "bacnet_vendor_id"@,
                text::opt_dec(f.vendor_id),
            ),
        ),
    )
}

/// The two ends of a frame.
pub open spec fn ends_seen(c: ChunkView, f: BacnetFields) -> EventView {
    events::topology_event_view(
        c.capture_id,
        env(c),
        TopologyView {
            observation_type: "bacnet_transaction"@,
            local_id: c.context.src_ip.text(),
            remote_id: Some(c.context.dst_ip.text()),
            description: Some(f.service@),
            capabilities: Seq::empty(),
            metadata: Map::empty().insert("link_variant"@, f.link_variant@).insert(
                "apdu_type"@,
                f.apdu_type@,
            ),
        },
    )
}

/// The events of a datagram: its transaction, the device that it names, its two ends and its
/// payload; an anomaly where it could not be parsed.
pub open spec fn datagram_events(c: ChunkView, fields: Option<BacnetFields>) -> Seq<EventView> {
    let none = Seq::<EventView>::empty();
    match fields {
        Some(f) => {
            let t = none.push(frame_seen(c, f));
            let d = match f.device_instance {
                Some(n) => t.push(device_seen(c, f, n)),
                None => t,
            };
            events::push_if(
                d.push(ends_seen(c, f)),
                f.payload@.len() > 0,
                events::artifact_view(
                    c.capture_id,
                    env(c),
                    "bacnet_apdu"@,
                    f.service@ + ":"@ + text::dec(c.frame_index as nat),
                    Some("application/octet-stream"@),
                    Some("BACnet APDU payload"@),
                    f.payload@,
                ),
            )
        },
        None => none.push(
            events::anomaly_view(
                c.capture_id,
                events::chunk_env(c, c.transport, "bacnet"@),
                "bacnet"@,
                "medium"@,
                "failed to parse bacnet payload"@,
                c.payload,
            ),
        ),
    }
}

/// The BACnet decoder.
#[derive(Debug, Default)]
pub struct BacnetDecoder;

impl BacnetDecoder {
    /// The name of the decoder.
    pub fn name(&self) -> (r: &'static str)
        ensures
            r@ == "bacnet"@,
    {
        "bacnet"
    }

    /// The traffic that the decoder asks for.
    pub fn interest(&self) -> (r: &'static [DecoderInterest])
        ensures
            r@ == seq![
                DecoderInterest::UdpPort(47808),
                (DecoderInterest::Llc { dsap: 0x82, ssap: 0x82 }),
            ],
    {
        &[DecoderInterest::UdpPort(47808), DecoderInterest::Llc { dsap: 0x82, ssap: 0x82 }]
    }

    /// Takes in a datagram and what was parsed from it.
    pub fn on_datagram(
        &mut self,
        chunk: &StreamChunk<'_>,
        fields: Option<BacnetFields>,
        out: &mut Vec<BronzeEvent>,
    )
        ensures
            events::events(final(out)@) == events::events(old(out)@) + datagram_events(
                chunk@,
                fields,
            ),
    {
        let mut ev = no_events();
        match fields {
            Some(f) => {
                let transport = if chunk.transport == TransportProtocol::Udp {
                    TransportProtocol::Udp
                } else {
                    TransportProtocol::Ethernet
                };
                let envelope = chunk_envelope(chunk, transport, "bacnet");
                let mut attributes = Attributes::new();
                attributes.put("link_variant", f.link_variant.as_str());
                attributes.put_hex("npdu_control", f.npdu_control, 2);
                attributes.put("apdu_type", f.apdu_type.as_str());
                attributes.insert_some("bvlc_function", opt_copy(&f.bvlc_function));
                attributes.put_some_dec("invoke_id", f.invoke_id);
                attributes.put_some_dec("vendor_id", f.vendor_id);
                attributes.put_some_dec("device_instance", f.device_instance);
                let summary = cat(
                    cat(f.apdu_type.as_str(), " ").as_str(),
                    f.service.as_str(),
                );
                emit(
                    &mut ev,
                    transaction_event(
                        chunk.capture_id,
                        envelope.copy(),
                        ProtocolTransaction {
                            operation: normalize_operation_name(
                                f.service.as_str(),
                                "bacnet_message",
                            ),
                            status: bacnet_status(f.apdu_type.as_str()).to_owned(),
                            request_summary: Some(summary),
                            response_summary: None,
                            object_refs: bacnet_object_refs(f.device_instance, f.invoke_id),
                            values: no_values(),
                            attributes,
                            modbus: None,
                            protocol_fields: Some(ProtocolFields::Bacnet(bacnet_bronze_fields(&f))),
                        },
                    ),
                );
                if let Some(device_instance) = f.device_instance {
                    let ip = chunk.context.src_ip.text();
                    let mut identifiers = Attributes::new();
                    identifiers.put("ip", ip.as_str());
                    identifiers.put_dec("bacnet_device_instance", device_instance);
                    identifiers.put_some_dec("bacnet_vendor_id", f.vendor_id);
                    emit(
                        &mut ev,
                        asset_event(
                            chunk.capture_id,
                            envelope.copy(),
                            asset_observation(
                                ip,
                                Some("device"),
                                None,
                                None,
                                None,
                                "bacnet",
                                identifiers,
                            ),
                        ),
                    );
                }
                let mut metadata = Attributes::new();
                metadata.put("link_variant", f.link_variant.as_str());
                metadata.put("apdu_type", f.apdu_type.as_str());
                emit(
                    &mut ev,
                    topology_event(
                        chunk.capture_id,
                        envelope.copy(),
                        TopologyObservation {
                            observation_type: "bacnet_transaction".to_owned(),
                            local_id: chunk.context.src_ip.text(),
                            remote_id: Some(chunk.context.dst_ip.text()),
                            description: Some(f.service.as_str().to_owned()),
                            capabilities: no_texts(),
                            metadata,
                        },
                    ),
                );
                if f.payload.len() > 0 {
                    let key = cat(
                        cat(f.service.as_str(), ":").as_str(),
                        dec_text(chunk.frame_index).as_str(),
                    );
                    emit(
                        &mut ev,
                        artifact_event(
                            chunk.capture_id,
                            envelope,
                            "bacnet_apdu",
                            key.as_str(),
                            Some("application/octet-stream"),
                            Some("BACnet APDU payload"),
                            f.payload.as_slice(),
                        ),
                    );
                }
            },
            None => {
                emit(
                    &mut ev,
                    parse_anomaly_event(
                        chunk.capture_id,
                        chunk_envelope(chunk, chunk.transport, "bacnet"),
                        "bacnet",
                        "medium",
                        "failed to parse bacnet payload",
                        chunk.payload,
                    ),
                );
            },
        }
        emit_all(out, ev);
    }
}

// ---------------------------------------------------------------------------
// Laws
// ---------------------------------------------------------------------------

/// The direction in the typed fields of a frame is the status of its transaction.
pub proof fn direction_is_status(c: ChunkView, f: BacnetFields)
    ensures
        ({
            let tx = datagram_events(c, Some(f))[0].family->ProtocolTransaction_0;
            tx.protocol_fields->Some_0->Bacnet_0.direction == tx.status
        }),
{
}

/// A datagram gives one transaction where it could be parsed, and one anomaly where not.
pub proof fn a_transaction_or_an_anomaly(c: ChunkView, fields: Option<BacnetFields>)
    ensures
        events::tx_count(datagram_events(c, fields)) == (if fields is Some {
            1nat
        } else {
            0nat
        }),
        events::asset_count(datagram_events(c, fields)) == (if fields is Some
            && fields->Some_0.device_instance is Some {
            1nat
        } else {
            0nat
        }),
        events::anomaly_count(datagram_events(c, fields)) == (if fields is None {
            1nat
        } else {
            0nat
        }),
{
    let none = Seq::<EventView>::empty();
    let e = datagram_events(c, fields);
    match fields {
        Some(f) => {
            let t = none.push(frame_seen(c, f));
            let d = match f.device_instance {
                Some(n) => t.push(device_seen(c, f, n)),
                None => t,
            };
            events::counts_push_if(none, true, frame_seen(c, f));
            events::counts_push_if(t, f.device_instance is Some, d.last());
            events::counts_push_if(d, true, ends_seen(c, f));
            events::counts_push_if(d.push(ends_seen(c, f)), f.payload@.len() > 0, e.last());
        },
        None => {
            events::counts_push_if(none, true, e[0]);
        },
    }
}

/// The transaction of a frame gives each of its parts under its own name, in the attributes and in
/// the typed fields; the kind of APDU decides its status.
pub proof fn transaction_is_of_the_frame(c: ChunkView, f: BacnetFields)
    ensures
        ({
            let tx = datagram_events(c, Some(f))[0].family->ProtocolTransaction_0;
            let t = tx.protocol_fields->Some_0->Bacnet_0;
            let m = tx.attributes;
            let k = f.apdu_type@;
            &&& m["link_variant"@] == f.link_variant@
            &&& m["npdu_control"@] == "0x"@ + text::hex(f.npdu_control as nat, 2)
            &&& m["apdu_type"@] == f.apdu_type@
            &&& match f.invoke_id {
                Some(v) => m.contains_key("invoke_id"@) && m["invoke_id"@] == text::dec(v as nat),
                None => !m.contains_key("invoke_id"@),
            }
            &&& match f.vendor_id {
                Some(v) => m.contains_key("vendor_id"@) && m["vendor_id"@] == text::dec(v as nat),
                None => !m.contains_key("vendor_id"@),
            }
            &&& match f.device_instance {
                Some(v) => m.contains_key("device_instance"@)
                    && m["device_instance"@] == text::dec(v as nat),
                None => !m.contains_key("device_instance"@),
            }
            &&& t.link_variant == f.link_variant@
            &&& t.npdu_control == f.npdu_control
            &&& t.apdu_type == f.apdu_type@
            &&& t.service == f.service@
            &&& t.invoke_id == f.invoke_id
            &&& t.vendor_id == f.vendor_id
            &&& t.device_instance == f.device_instance
            &&& tx.request_summary == Some(f.apdu_type@ + " "@ + f.service@)
            &&& k == "confirmed_request"@ || k == "unconfirmed_request"@ ==> tx.status
                == "request"@
            &&& k == "simple_ack"@ || k == "complex_ack"@ ==> tx.status == "response"@
            &&& k == "error"@ || k == "reject"@ || k == "abort"@ ==> tx.status == "error"@
        }),
{
    reveal_strlit("link_variant");
    reveal_strlit("npdu_control");
    reveal_strlit("apdu_type");
    reveal_strlit("bvlc_function");
    reveal_strlit("invoke_id");
    reveal_strlit("vendor_id");
    reveal_strlit("device_instance");
    reveal_strlit("confirmed_request");
    reveal_strlit("unconfirmed_request");
    reveal_strlit("simple_ack");
    reveal_strlit("complex_ack");
    reveal_strlit("error");
    reveal_strlit("reject");
    reveal_strlit("abort");
    assert({
        &&& "link_variant"@.len() == 12
        &&& "npdu_control"@.len() == 12
        &&& "apdu_type"@.len() == 9
        &&& "bvlc_function"@.len() == 13
        &&& "invoke_id"@.len() == 9
        &&& "vendor_id"@.len() == 9
        &&& "device_instance"@.len() == 15
        &&& "confirmed_request"@.len() == 17
        &&& "unconfirmed_request"@.len() == 19
        &&& "simple_ack"@.len() == 10
        &&& "complex_ack"@.len() == 11
        &&& "error"@.len() == 5
        &&& "reject"@.len() == 6
        &&& "abort"@.len() == 5
    });
    assert("link_variant"@[0] != "npdu_control"@[0]);
    assert("apdu_type"@[0] != "invoke_id"@[0]);
    assert("apdu_type"@[0] != "vendor_id"@[0]);
    assert("invoke_id"@[0] != "vendor_id"@[0]);
    assert("error"@[0] != "abort"@[0]);
}

/// A device that gives its instance is an asset under the source address, and every frame links
/// its source to its destination.
pub proof fn device_is_the_source(c: ChunkView, f: BacnetFields)
    ensures
        ({
            let e = datagram_events(c, Some(f));
            let i: int = if f.device_instance is Some {
                2
            } else {
                1
            };
            let a = e[1].family->AssetObservation_0;
            let link = e[i].family->TopologyObservation_0;
            let ip = c.context.src_ip.text();
            &&& match f.device_instance {
                Some(n) => {
                    &&& e[1].family is AssetObservation
                    &&& a.asset_key == ip
                    &&& a.role == Some("device"@)
                    &&& a.protocols == seq!["bacnet"@]
                    &&& a.identifiers["ip"@] == ip
                    &&& a.identifiers["bacnet_device_instance"@] == text::dec(n as nat)
                    &&& match f.vendor_id {
                        Some(v) => a.identifiers.contains_key("bacnet_vendor_id"@)
                            && a.identifiers["bacnet_vendor_id"@] == text::dec(v as nat),
                        None => !a.identifiers.contains_key("bacnet_vendor_id"@),
                    }
                },
                None => true,
            }
            &&& e[i].family is TopologyObservation
            &&& link.observation_type == "bacnet_transaction"@
            &&& link.local_id == ip
            &&& link.remote_id == Some(c.context.dst_ip.text())
            &&& link.description == Some(f.service@)
            &&& e.len() == i + 1 + (if f.payload@.len() > 0 {
                1int
            } else {
                0
            })
            &&& f.payload@.len() > 0 ==> e[i + 1].family is ExtractedArtifact
                && e[i + 1].family->ExtractedArtifact_0.content == f.payload@
                && e[i + 1].family->ExtractedArtifact_0.artifact_type == "bacnet_apdu"@
        }),
{
    reveal_strlit("ip");
    reveal_strlit("bacnet_device_instance");
    reveal_strlit("bacnet_vendor_id");
    assert({
        &&& "ip"@.len() == 2
        &&& "bacnet_device_instance"@.len() == 22
        &&& "bacnet_vendor_id"@.len() == 16
    });
}

} // verus!
