//! EtherCAT, EtherType 0x88A4.
//!
//! The frame is taken apart elsewhere; this decoder turns its datagrams into events.

use vstd::prelude::*;

use crate::collections;
use crate::collections::Attributes;
use crate::events;
use crate::events::{
    artifact_event, asset_event, asset_observation, chunk_envelope, emit, emit_all, no_events,
    no_values, parse_anomaly_event, topology_event, transaction_event, AssetObservation, BronzeEvent,
    Dissection, EnvelopeView, EventEnvelope, EventView, ProtocolTransaction, TopologyObservation,
    TopologyView, TransactionView,
};
use crate::naming;
use crate::naming::normalize_operation_name;
use crate::packet;
use crate::packet::{format_mac, ChunkView, DecoderInterest, StreamChunk, TransportProtocol};
use crate::text;
use crate::text::{cat, dec_text, hex0x_text, no_texts, one_text, opt_dec_text, push_text};

verus! {

/// What a datagram says of the slave that it addresses.
#[derive(Debug, Clone, Copy, PartialEq, Eq, Structural)]
pub struct EthercatIdentity {
    pub alias_address: Option<u16>,
    pub vendor_id: Option<u32>,
    pub product_code: Option<u32>,
    pub revision: Option<u32>,
    pub serial_number: Option<u32>,
}

/// One datagram of a frame.
#[derive(Debug, Clone)]
pub struct EthercatDatagram {
    pub command: String,
    pub adp: u16,
    pub ado: u16,
    pub address_mode: String,
    pub payload: Vec<u8>,
    pub identity: EthercatIdentity,
}

/// The parsed fields of an EtherCAT frame.
#[derive(Debug, Clone)]
pub struct EthercatFields {
    pub datagrams: Vec<EthercatDatagram>,
}

/// The operation label of a frame: the command of its only datagram.
pub open spec fn operation_of(d: Seq<EthercatDatagram>) -> Seq<char> {
    if d.len() == 0 {
        "ethercat_frame"@
    } else if d.len() == 1 {
        naming::normalized(d[0].command@, "ethercat_frame"@)
    } else {
        "ethercat_multi_datagram"@
    }
}

/// The operation label of a frame.
pub fn ethercat_operation_name(fields: &EthercatFields) -> (r: String)
    ensures
        r@ == operation_of(fields.datagrams@),
{
    if fields.datagrams.len() == 0 {
        "ethercat_frame".to_owned()
    } else if fields.datagrams.len() == 1 {
        normalize_operation_name(fields.datagrams[0].command.as_str(), "ethercat_frame")
    } else {
        "ethercat_multi_datagram".to_owned()
    }
}

/// The object references of the first `n` datagrams: command and addresses of each.
pub open spec fn refs_of(d: Seq<EthercatDatagram>, n: int) -> Seq<Seq<char>>
    decreases n,
{
    if n <= 0 {
        Seq::empty()
    } else {
        refs_of(d, n - 1).push("command:"@ + d[n - 1].command@).push(
            "adp:"@ + text::dec(d[n - 1].adp as nat),
        ).push("ado:"@ + text::hex0x(d[n - 1].ado as nat, 4))
    }
}

/// The object references of a frame.
pub fn ethercat_object_refs(fields: &EthercatFields) -> (r: Vec<String>)
    ensures
        text::texts(r@) == refs_of(fields.datagrams@, fields.datagrams@.len() as int),
{
    let mut refs = no_texts();
    let mut i: usize = 0;
    while i < fields.datagrams.len()
        invariant
            i <= fields.datagrams.len(),
            text::texts(refs@) == refs_of(fields.datagrams@, i as int),
        decreases fields.datagrams.len() - i,
    {
        let d = &fields.datagrams[i];
        push_text(&mut refs, cat("command:", d.command.as_str()));
        push_text(&mut refs, cat("adp:", dec_text(d.adp).as_str()));
        push_text(&mut refs, cat("ado:", hex0x_text(d.ado, 4).as_str()));
        i = i + 1;
    }
    refs
}

/// The key of the slave that a datagram addresses: its alias, else its position, where that
/// is not zero.
pub open spec fn slave_key(adp: u16, alias_address: Option<u16>) -> Option<Seq<char>> {
    match alias_address {
        Some(a) => Some("ethercat_alias:"@ + text::dec(a as nat)),
        None => if adp != 0 {
            Some("ethercat_adp:"@ + text::dec(adp as nat))
        } else {
            None
        },
    }
}

/// The key of the slave that a datagram addresses.
pub fn ethercat_slave_asset_key(adp: u16, alias_address: Option<u16>) -> (r: Option<String>)
    ensures
        text::opt_view(r) == slave_key(adp, alias_address),
{
    match alias_address {
        Some(a) => Some(cat("ethercat_alias:", dec_text(a).as_str())),
        None => if adp != 0 {
            Some(cat("ethercat_adp:", dec_text(adp).as_str()))
        } else {
            None
        },
    }
}

/// The envelope of a chunk.
pub open spec fn env(c: ChunkView) -> EnvelopeView {
    events::chunk_env(c, TransportProtocol::Ethernet, "ethercat"@)
}

fn envelope(chunk: &StreamChunk<'_>) -> (r: EventEnvelope)
    ensures
        r@ == env(chunk@),
{
    chunk_envelope(chunk, TransportProtocol::Ethernet, "ethercat")
}

/// A number behind a word, where there is a number.
pub open spec fn tagged(word: Seq<char>, n: Option<u32>) -> Option<Seq<char>> {
    match n {
        Some(v) => Some(word + text::dec(v as nat)),
        None => None,
    }
}

fn tagged_text(word: &str, n: Option<u32>) -> (r: Option<String>)
    ensures
        text::opt_view(r) == tagged(word@, n),
{
    match n {
        Some(v) => Some(cat(word, dec_text(v).as_str())),
        None => None,
    }
}

/// The slave that a datagram addresses.
pub open spec fn slave_seen(c: ChunkView, d: EthercatDatagram, key: Seq<char>) -> EventView {
    let id = d.identity;
    let m = Map::empty().insert("ethercat_adp"@, text::dec(d.adp as nat)).insert(
        "ethercat_ado"@,
        text::hex0x(d.ado as nat, 4),
    );
    let m = collections::insert_opt(m, "ethercat_alias_address"@, text::opt_dec(id.alias_address));
    let m = collections::insert_opt(m, "ethercat_vendor_id"@, text::opt_dec(id.vendor_id));
    let m = collections::insert_opt(m, "ethercat_product_code"@, text::opt_dec(id.product_code));
    let m = collections::insert_opt(m, "ethercat_revision"@, text::opt_dec(id.revision));
    let m = collections::insert_opt(m, "ethercat_serial_number"@, text::opt_dec(id.serial_number));
    events::asset_event_view(
        c.capture_id,
        env(c),
        events::asset_view(
            key,
            Some("slave"@),
            tagged("vendor_"@, id.vendor_id),
            tagged("product_"@, id.product_code),
            text::opt_dec(id.revision),
            "ethercat"@,
            m,
        ),
    )
}

fn slave_event(chunk: &StreamChunk<'_>, d: &EthercatDatagram, key: &str) -> (r: BronzeEvent)
    ensures
        r@ == slave_seen(chunk@, *d, key@),
{
    let id = &d.identity;
    let mut m = Attributes::new();
    m.put_dec("ethercat_adp", d.adp);
    m.put_hex("ethercat_ado", d.ado, 4);
    m.put_some_dec("ethercat_alias_address", id.alias_address);
    m.put_some_dec("ethercat_vendor_id", id.vendor_id);
    m.put_some_dec("ethercat_product_code", id.product_code);
    m.put_some_dec("ethercat_revision", id.revision);
    m.put_some_dec("ethercat_serial_number", id.serial_number);
    asset_event(
        chunk.capture_id,
        envelope(chunk),
        AssetObservation {
            asset_key: key.to_owned(),
            role: Some("slave".to_owned()),
            vendor: tagged_text("vendor_", id.vendor_id),
            model: tagged_text("product_", id.product_code),
            firmware: opt_dec_text(id.revision),
            hostnames: no_texts(),
            protocols: one_text("ethercat".to_owned()),
            identifiers: m,
        },
    )
}

/// The link between the master and the slave that a datagram addresses.
pub open spec fn link_seen(c: ChunkView, d: EthercatDatagram, key: Seq<char>) -> EventView {
    events::topology_event_view(
        c.capture_id,
        env(c),
        TopologyView {
            observation_type: "ethercat_master_slave"@,
            local_id: packet::mac_text(c.context.src_mac),
            remote_id: Some(key),
            description: Some(d.command@),
            capabilities: Seq::empty(),
            metadata: Map::empty().insert("address_mode"@, d.address_mode@),
        },
    )
}

fn link_event(chunk: &StreamChunk<'_>, d: &EthercatDatagram, key: String) -> (r: BronzeEvent)
    ensures
        r@ == link_seen(chunk@, *d, key@),
{
    let mut metadata = Attributes::new();
    metadata.put("address_mode", d.address_mode.as_str());
    topology_event(
        chunk.capture_id,
        envelope(chunk),
        TopologyObservation {
            observation_type: "ethercat_master_slave".to_owned(),
            local_id: format_mac(&chunk.context.src_mac),
            remote_id: Some(key),
            description: Some(d.command.as_str().to_owned()),
            capabilities: no_texts(),
            metadata,
        },
    )
}

/// The slaves that the first `n` datagrams address and the links to them, added to `prior`.
pub open spec fn with_slaves(
    prior: Seq<EventView>,
    c: ChunkView,
    d: Seq<EthercatDatagram>,
    n: int,
) -> Seq<EventView>
    decreases n,
{
    if n <= 0 {
        prior
    } else {
        let p = with_slaves(prior, c, d, n - 1);
        match slave_key(d[n - 1].adp, d[n - 1].identity.alias_address) {
            Some(key) => p.push(slave_seen(c, d[n - 1], key)).push(link_seen(c, d[n - 1], key)),
            None => p,
        }
    }
}

/// The payloads of the first `n` datagrams, one after the other.
pub open spec fn payloads(d: Seq<EthercatDatagram>, n: int) -> Seq<u8>
    decreases n,
{
    if n <= 0 {
        Seq::empty()
    } else {
        payloads(d, n - 1) + d[n - 1].payload@
    }
}

/// The attributes of a frame.
pub open spec fn attrs_of(d: Seq<EthercatDatagram>) -> Map<Seq<char>, Seq<char>> {
    let m = Map::empty().insert("datagram_count"@, text::dec(d.len()));
    if d.len() > 0 {
        m.insert("first_command"@, d[0].command@).insert(
            "first_adp"@,
            text::dec(d[0].adp as nat),
        ).insert("first_ado"@, text::hex0x(d[0].ado as nat, 4))
    } else {
        m
    }
}

/// The transaction of a frame and its master.
pub open spec fn opening(c: ChunkView, d: Seq<EthercatDatagram>) -> Seq<EventView> {
    let mac = packet::mac_text(c.context.src_mac);
    Seq::<EventView>::empty().push(
        events::tx_view(
            c.capture_id,
            env(c),
            TransactionView {
                object_refs: refs_of(d, d.len() as int),
                ..events::plain_tx(
                    operation_of(d),
                    "observed"@,
                    Some(text::dec(d.len()) + " datagrams"@),
                    attrs_of(d),
                )
            },
        ),
    ).push(
        events::asset_event_view(
            c.capture_id,
            env(c),
            events::asset_view(
                mac,
                Some("master"@),
                None,
                None,
                None,
                "ethercat"@,
                Map::empty().insert("mac"@, mac),
            ),
        ),
    )
}

/// The events of a frame with the given datagrams: its transaction, its master, the slaves
/// with the links to them, and the payload.
pub open spec fn frame_events(c: ChunkView, d: Seq<EthercatDatagram>) -> Seq<EventView> {
    let t = opening(c, d);
    let p = payloads(d, d.len() as int);
    events::push_if(
        with_slaves(t, c, d, d.len() as int),
        p.len() > 0,
        events::artifact_view(
            c.capture_id,
            env(c),
            "ethercat_payload"@,
            c.session_key + ":"@ + text::dec(c.frame_index as nat),
            Some("application/octet-stream"@),
            Some("EtherCAT datagram payload"@),
            p,
        ),
    )
}

/// The events of a datagram.
pub open spec fn datagram_events(c: ChunkView, parsed: Dissection<EthercatFields>) -> Seq<
    EventView,
> {
    match parsed {
        Dissection::Foreign => Seq::empty(),
        Dissection::Malformed => Seq::<EventView>::empty().push(
            events::anomaly_view(
                c.capture_id,
                env(c),
                "ethercat"@,
                "medium"@,
                "failed to parse ethercat payload"@,
                c.payload,
            ),
        ),
        Dissection::Parsed(f) => frame_events(c, f.datagrams@),
    }
}

/// The EtherCAT decoder.
#[derive(Debug, Default)]
pub struct EthercatDecoderWrapper;

impl EthercatDecoderWrapper {
    /// The name of the decoder.
    pub fn name(&self) -> (r: &'static str)
        ensures
            r@ == "ethercat"@,
    {
        "ethercat"
    }

    /// The traffic that the decoder asks for.
    pub fn interest(&self) -> (r: &'static [DecoderInterest])
        ensures
            r@ == seq![DecoderInterest::EtherType(0x88A4)],
    {
        &[DecoderInterest::EtherType(0x88A4)]
    }

    /// Takes in a frame and what was parsed from it.
    pub fn on_datagram(
        &mut self,
        chunk: &StreamChunk<'_>,
        parsed: Dissection<EthercatFields>,
        out: &mut Vec<BronzeEvent>,
    )
        ensures
            events::events(final(out)@) == events::events(old(out)@) + datagram_events(
                chunk@,
                parsed,
            ),
    {
        let mut ev = no_events();
        match parsed {
            Dissection::Foreign => {},
            Dissection::Malformed => {
                emit(
                    &mut ev,
                    parse_anomaly_event(
                        chunk.capture_id,
                        envelope(chunk),
                        "ethercat",
                        "medium",
                        "failed to parse ethercat payload",
                        chunk.payload,
                    ),
                );
            },
            Dissection::Parsed(fields) => {
                self.frame(chunk, &fields, &mut ev);
            },
        }
        emit_all(out, ev);
    }

    fn frame(&mut self, chunk: &StreamChunk<'_>, fields: &EthercatFields, out: &mut Vec<BronzeEvent>)
        ensures
            events::events(final(out)@) == events::events(old(out)@) + frame_events(
                chunk@,
                fields.datagrams@,
            ),
    {
        let mut ev = no_events();
        let mut attributes = Attributes::new();
        attributes.put_dec("datagram_count", fields.datagrams.len());
        if fields.datagrams.len() > 0 {
            let first = &fields.datagrams[0];
            attributes.put("first_command", first.command.as_str());
            attributes.put_dec("first_adp", first.adp);
            attributes.put_hex("first_ado", first.ado, 4);
        }
        emit(
            &mut ev,
            transaction_event(
                chunk.capture_id,
                envelope(chunk),
                ProtocolTransaction {
                    operation: ethercat_operation_name(fields),
                    status: "observed".to_owned(),
                    request_summary: Some(
                        cat(dec_text(fields.datagrams.len()).as_str(), " datagrams"),
                    ),
                    response_summary: None,
                    object_refs: ethercat_object_refs(fields),
                    values: no_values(),
                    attributes,
                    modbus: None,
                    protocol_fields: None,
                },
            ),
        );
        let mut identifiers = Attributes::new();
        identifiers.insert("mac", format_mac(&chunk.context.src_mac));
        emit(
            &mut ev,
            asset_event(
                chunk.capture_id,
                envelope(chunk),
                asset_observation(
                    format_mac(&chunk.context.src_mac),
                    Some("master"),
                    None,
                    None,
                    None,
                    "ethercat",
                    identifiers,
                ),
            ),
        );
        let ghost before = events::events(ev@);
        let mut payload: Vec<u8> = Vec::new();
        let mut i: usize = 0;
        while i < fields.datagrams.len()
            invariant
                i <= fields.datagrams.len(),
                events::events(ev@) == with_slaves(before, chunk@, fields.datagrams@, i as int),
                payload@ == payloads(fields.datagrams@, i as int),
            decreases fields.datagrams.len() - i,
        {
            let d = &fields.datagrams[i];
            match ethercat_slave_asset_key(d.adp, d.identity.alias_address) {
                Some(key) => {
                    emit(&mut ev, slave_event(chunk, d, key.as_str()));
                    emit(&mut ev, link_event(chunk, d, key));
                },
                None => {},
            }
            let mut more = crate::bytes::copy_bytes(d.payload.as_slice());
            payload.append(&mut more);
            i = i + 1;
        }
        if payload.len() > 0 {
            let key = cat(
                cat(chunk.session_key.as_str(), ":").as_str(),
                dec_text(chunk.frame_index).as_str(),
            );
            emit(
                &mut ev,
                artifact_event(
                    chunk.capture_id,
                    envelope(chunk),
                    "ethercat_payload",
                    key.as_str(),
                    Some("application/octet-stream"),
                    Some("EtherCAT datagram payload"),
                    payload.as_slice(),
                ),
            );
        }
        emit_all(out, ev);
    }
}

// ---------------------------------------------------------------------------
// Laws
// ---------------------------------------------------------------------------

/// How many of the first `n` datagrams address a slave.
pub open spec fn addressed(d: Seq<EthercatDatagram>, n: int) -> nat
    decreases n,
{
    if n <= 0 {
        0
    } else {
        addressed(d, n - 1) + (if slave_key(d[n - 1].adp, d[n - 1].identity.alias_address) is Some {
            1nat
        } else {
            0nat
        })
    }
}

proof fn slaves_count(prior: Seq<EventView>, c: ChunkView, d: Seq<EthercatDatagram>, n: int)
    ensures
        events::tx_count(with_slaves(prior, c, d, n)) == events::tx_count(prior),
        events::asset_count(with_slaves(prior, c, d, n)) == events::asset_count(prior) + addressed(
            d,
            n,
        ),
    decreases n,
{
    if n > 0 {
        slaves_count(prior, c, d, n - 1);
        let p = with_slaves(prior, c, d, n - 1);
        if let Some(key) = slave_key(d[n - 1].adp, d[n - 1].identity.alias_address) {
            let q = p.push(slave_seen(c, d[n - 1], key));
            reveal_with_fuel(events::tx_count, 3);
            reveal_with_fuel(events::asset_count, 3);
            assert(q.drop_last() =~= p);
            assert(q.push(link_seen(c, d[n - 1], key)).drop_last() =~= q);
        }
    }
}

/// Every frame gives one transaction, one master, and one slave for each datagram that
/// addresses one.
pub proof fn one_transaction_for_a_frame(c: ChunkView, d: Seq<EthercatDatagram>)
    ensures
        events::tx_count(frame_events(c, d)) == 1,
        events::asset_count(frame_events(c, d)) == 1 + addressed(d, d.len() as int),
{
    let t = opening(c, d);
    assert(t.len() == 2);
    assert(t.drop_last().last() == t[0]);
    reveal_with_fuel(events::tx_count, 3);
    reveal_with_fuel(events::asset_count, 3);
    slaves_count(t, c, d, d.len() as int);
    let ev = frame_events(c, d);
    if payloads(d, d.len() as int).len() > 0 {
        assert(ev.drop_last() =~= with_slaves(t, c, d, d.len() as int));
    }
}

/// A frame names its datagrams by their number and the first of them, and its source is the master.
pub proof fn frame_names_its_first_datagram(c: ChunkView, d: Seq<EthercatDatagram>)
    requires
        d.len() > 0,
    ensures
        ({
            let e = opening(c, d);
            let tx = e[0].family->ProtocolTransaction_0;
            let m = tx.attributes;
            let a = e[1].family->AssetObservation_0;
            let mac = packet::mac_text(c.context.src_mac);
            &&& tx.status == "observed"@
            &&& d.len() > 1 ==> tx.operation == "ethercat_multi_datagram"@
            &&& tx.request_summary == Some(text::dec(d.len()) + " datagrams"@)
            &&& m["datagram_count"@] == text::dec(d.len())
            &&& m["first_command"@] == d[0].command@
            &&& m["first_adp"@] == text::dec(d[0].adp as nat)
            &&& m["first_ado"@] == "0x"@ + text::hex(d[0].ado as nat, 4)
            &&& a.asset_key == mac
            &&& a.role == Some("master"@)
            &&& a.identifiers["mac"@] == mac
        }),
{
    reveal_strlit("datagram_count");
    reveal_strlit("first_command");
    reveal_strlit("first_adp");
    reveal_strlit("first_ado");
    assert({
        &&& "datagram_count"@.len() == 14
        &&& "first_command"@.len() == 13
        &&& "first_adp"@.len() == 9
        &&& "first_ado"@.len() == 9
    });
    assert("first_adp"@[8] != "first_ado"@[8]);
}

/// A slave is known by its alias, or else by its position where that is not zero; the master is
/// linked to it, and it gives what it says of itself under its own names.
pub proof fn slave_is_what_it_says(c: ChunkView, d: EthercatDatagram)
    ensures
        ({
            let key = slave_key(d.adp, d.identity.alias_address);
            let id = d.identity;
            let a = slave_seen(c, d, key->Some_0).family->AssetObservation_0;
            let link = link_seen(c, d, key->Some_0).family->TopologyObservation_0;
            &&& match id.alias_address {
                Some(n) => key == Some("ethercat_alias:"@ + text::dec(n as nat)),
                None => if d.adp == 0 {
                    key is None
                } else {
                    key == Some("ethercat_adp:"@ + text::dec(d.adp as nat))
                },
            }
            &&& a.asset_key == key->Some_0
            &&& a.role == Some("slave"@)
            &&& id.vendor_id is Some ==> a.vendor == Some(
                "vendor_"@ + text::dec(id.vendor_id->Some_0 as nat),
            )
            &&& id.product_code is Some ==> a.model == Some(
                "product_"@ + text::dec(id.product_code->Some_0 as nat),
            )
            &&& id.revision is Some ==> a.firmware == Some(
                text::dec(id.revision->Some_0 as nat),
            )
            &&& a.identifiers["ethercat_adp"@] == text::dec(d.adp as nat)
            &&& a.identifiers["ethercat_ado"@] == "0x"@ + text::hex(d.ado as nat, 4)
            &&& match id.alias_address {
                Some(v) => a.identifiers.contains_key("ethercat_alias_address"@)
                    && a.identifiers["ethercat_alias_address"@] == text::dec(v as nat),
                None => !a.identifiers.contains_key("ethercat_alias_address"@),
            }
            &&& match id.vendor_id {
                Some(v) => a.identifiers.contains_key("ethercat_vendor_id"@)
                    && a.identifiers["ethercat_vendor_id"@] == text::dec(v as nat),
                None => !a.identifiers.contains_key("ethercat_vendor_id"@),
            }
            &&& match id.product_code {
                Some(v) => a.identifiers.contains_key("ethercat_product_code"@)
                    && a.identifiers["ethercat_product_code"@] == text::dec(v as nat),
                None => !a.identifiers.contains_key("ethercat_product_code"@),
            }
            &&& match id.revision {
                Some(v) => a.identifiers.contains_key("ethercat_revision"@)
                    && a.identifiers["ethercat_revision"@] == text::dec(v as nat),
                None => !a.identifiers.contains_key("ethercat_revision"@),
            }
            &&& match id.serial_number {
                Some(v) => a.identifiers.contains_key("ethercat_serial_number"@)
                    && a.identifiers["ethercat_serial_number"@] == text::dec(v as nat),
                None => !a.identifiers.contains_key("ethercat_serial_number"@),
            }
            &&& link.observation_type == "ethercat_master_slave"@
            &&& link.local_id == packet::mac_text(c.context.src_mac)
            &&& link.remote_id == Some(key->Some_0)
            &&& link.metadata["address_mode"@] == d.address_mode@
        }),
{
    reveal_strlit("ethercat_adp");
    reveal_strlit("ethercat_ado");
    reveal_strlit("ethercat_alias_address");
    reveal_strlit("ethercat_vendor_id");
    reveal_strlit("ethercat_product_code");
    reveal_strlit("ethercat_revision");
    reveal_strlit("ethercat_serial_number");
    assert({
        &&& "ethercat_adp"@.len() == 12
        &&& "ethercat_ado"@.len() == 12
        &&& "ethercat_alias_address"@.len() == 22
        &&& "ethercat_vendor_id"@.len() == 18
        &&& "ethercat_product_code"@.len() == 21
        &&& "ethercat_revision"@.len() == 17
        &&& "ethercat_serial_number"@.len() == 22
    });
    assert("ethercat_adp"@[11] != "ethercat_ado"@[11]);
    assert("ethercat_alias_address"@[9] != "ethercat_serial_number"@[9]);
}

} // verus!
