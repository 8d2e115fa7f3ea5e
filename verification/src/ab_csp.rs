//! Allen-Bradley CSP (Client/Server Protocol) on TCP port 2222.
//!
//! CSP is the Ethernet protocol of PLC-5E, SLC 5/05 and MicroLogix 1100/1400 controllers;
//! it tunnels Data Highway Plus. A frame starts with a 28-byte little-endian header:
//!
//! ```text
//!  0 command u16         2 status u16           4 packet_size u16 (header included)
//!  6 reserved u32       10 client_handle u32   14 target_addr_hi u32
//! 18 target_addr_lo u32 22 transaction_id u16  24 tns u16   26 function u16
//! ```
//!
//! Every frame is reported by itself: the decoder keeps no state.

use vstd::prelude::*;

use crate::bytes;
use crate::bytes::{get_le16, get_le32};
use crate::collections::Attributes;
use crate::events;
use crate::events::{
    asset_event, asset_observation, chunk_envelope, emit, emit_all, no_events, parse_anomaly_event,
    plain_transaction, transaction_event, BronzeEvent, EnvelopeView, EventEnvelope, EventView,
};
use crate::packet::{ChunkView, DecoderInterest, StreamChunk, TransportProtocol};
use crate::text;
use crate::text::{cat, dec_text, hex_text};

verus! {

/// The length of a frame header.
pub const CSP_HEADER_LEN: usize = 28;

pub const CMD_REGISTER_SESSION: u16 = 0x0001;

pub const CMD_UNREGISTER_SESSION: u16 = 0x0002;

pub const CMD_PCCC_REPLY: u16 = 0x0003;

pub const CMD_READ_WITH_OFFSET: u16 = 0x0007;

pub const CMD_WRITE_WITH_OFFSET: u16 = 0x0008;

pub const CMD_PCCC_REQUEST: u16 = 0x00A1;

/// The fields of a frame header.
#[derive(Debug)]
pub struct CspHeader {
    pub command: u16,
    pub status: u16,
    /// The frame length that the header declares.
    pub packet_size: u16,
    pub client_handle: u32,
    pub target_addr_hi: u32,
    pub target_addr_lo: u32,
    pub transaction_id: u16,
    pub tns: u16,
    pub function: u16,
}

/// The header at the start of a frame.
pub open spec fn header_of(b: Seq<u8>) -> CspHeader {
    CspHeader {
        command: bytes::le16(b, 0),
        status: bytes::le16(b, 2),
        packet_size: bytes::le16(b, 4),
        client_handle: bytes::le32(b, 10),
        target_addr_hi: bytes::le32(b, 14),
        target_addr_lo: bytes::le32(b, 18),
        transaction_id: bytes::le16(b, 22),
        tns: bytes::le16(b, 24),
        function: bytes::le16(b, 26),
    }
}

/// The little-endian 16-bit number at `offset`.
pub fn read_u16_le(buf: &[u8], offset: usize) -> (r: u16)
    requires
        offset + 2 <= buf.len(),
    ensures
        r == bytes::le16(buf@, offset as int),
{
    get_le16(buf, offset)
}

/// The little-endian 32-bit number at `offset`.
pub fn read_u32_le(buf: &[u8], offset: usize) -> (r: u32)
    requires
        offset + 4 <= buf.len(),
    ensures
        r == bytes::le32(buf@, offset as int),
{
    get_le32(buf, offset)
}

/// The header at the start of a frame, where the frame is long enough to have one.
pub fn parse_header(buf: &[u8]) -> (r: Option<CspHeader>)
    ensures
        r == (if buf@.len() < CSP_HEADER_LEN {
            None
        } else {
            Some(header_of(buf@))
        }),
{
    if buf.len() < CSP_HEADER_LEN {
        return None;
    }
    Some(
        CspHeader {
            command: read_u16_le(buf, 0),
            status: read_u16_le(buf, 2),
            packet_size: read_u16_le(buf, 4),
            client_handle: read_u32_le(buf, 10),
            target_addr_hi: read_u32_le(buf, 14),
            target_addr_lo: read_u32_le(buf, 18),
            transaction_id: read_u16_le(buf, 22),
            tns: read_u16_le(buf, 24),
            function: read_u16_le(buf, 26),
        },
    )
}

/// Whether a command is in the command table.
pub open spec fn known_command(command: u16) -> bool {
    ||| command == CMD_REGISTER_SESSION
    ||| command == CMD_UNREGISTER_SESSION
    ||| command == CMD_PCCC_REPLY
    ||| command == CMD_READ_WITH_OFFSET
    ||| command == CMD_WRITE_WITH_OFFSET
    ||| command == CMD_PCCC_REQUEST
}

/// The operation label of a command.
pub open spec fn operation_of(command: u16) -> Seq<char> {
    if command == CMD_REGISTER_SESSION {
        "csp_register_session"@
    } else if command == CMD_UNREGISTER_SESSION {
        "csp_unregister_session"@
    } else if command == CMD_PCCC_REPLY {
        "csp_pccc_reply"@
    } else if command == CMD_READ_WITH_OFFSET {
        "csp_read"@
    } else if command == CMD_WRITE_WITH_OFFSET {
        "csp_write"@
    } else if command == CMD_PCCC_REQUEST {
        "csp_pccc_request"@
    } else {
        "csp_unknown_cmd_0x"@ + text::hex(command as nat, 4)
    }
}

/// The operation label of a command.
pub fn command_operation(command: u16) -> (r: String)
    ensures
        r@ == operation_of(command),
{
    match command {
        CMD_REGISTER_SESSION => "csp_register_session".to_owned(),
        CMD_UNREGISTER_SESSION => "csp_unregister_session".to_owned(),
        CMD_PCCC_REPLY => "csp_pccc_reply".to_owned(),
        CMD_READ_WITH_OFFSET => "csp_read".to_owned(),
        CMD_WRITE_WITH_OFFSET => "csp_write".to_owned(),
        CMD_PCCC_REQUEST => "csp_pccc_request".to_owned(),
        other => cat("csp_unknown_cmd_0x", hex_text(other, 4).as_str()),
    }
}

/// The label of a status.
pub open spec fn status_of(status: u16) -> Seq<char> {
    if status == 0 {
        "ok"@
    } else {
        "csp_status_0x"@ + text::hex(status as nat, 4)
    }
}

/// The label of a status.
pub fn status_string(status: u16) -> (r: String)
    ensures
        r@ == status_of(status),
{
    if status == 0 {
        "ok".to_owned()
    } else {
        cat("csp_status_0x", hex_text(status, 4).as_str())
    }
}

/// The envelope of a chunk.
pub open spec fn env(c: ChunkView) -> EnvelopeView {
    events::chunk_env(c, TransportProtocol::Tcp, "ab_csp"@)
}

fn envelope(chunk: &StreamChunk<'_>) -> (r: EventEnvelope)
    ensures
        r@ == env(chunk@),
{
    chunk_envelope(chunk, TransportProtocol::Tcp, "ab_csp")
}

/// An anomaly in a chunk.
pub open spec fn anomaly_of(c: ChunkView, severity: Seq<char>, reason: Seq<char>) -> EventView {
    events::anomaly_view(c.capture_id, env(c), "ab_csp"@, severity, reason, c.payload)
}

fn anomaly(chunk: &StreamChunk<'_>, severity: &str, reason: &str) -> (r: BronzeEvent)
    ensures
        r@ == anomaly_of(chunk@, severity@, reason@),
{
    parse_anomaly_event(chunk.capture_id, envelope(chunk), "ab_csp", severity, reason, chunk.payload)
}

/// The attributes of a frame.
pub open spec fn header_attrs(h: CspHeader) -> Map<Seq<char>, Seq<char>> {
    Map::empty().insert("command"@, text::hex0x(h.command as nat, 4)).insert(
        "function"@,
        text::hex0x(h.function as nat, 4),
    ).insert("packet_size"@, text::dec(h.packet_size as nat)).insert(
        "target_addr_hi"@,
        text::hex0x(h.target_addr_hi as nat, 8),
    ).insert("target_addr_lo"@, text::hex0x(h.target_addr_lo as nat, 8)).insert(
        "client_handle"@,
        text::hex0x(h.client_handle as nat, 8),
    ).insert("transaction_id"@, text::dec(h.transaction_id as nat)).insert(
        "tns"@,
        text::hex0x(h.tns as nat, 4),
    )
}

/// The transaction of a frame.
pub open spec fn frame_seen(c: ChunkView, h: CspHeader) -> EventView {
    events::tx_view(
        c.capture_id,
        env(c),
        events::plain_tx(
            operation_of(h.command),
            status_of(h.status),
            Some(
                operation_of(h.command) + " txn="@ + text::dec(h.transaction_id as nat)
                    + " cli=0x"@ + text::hex(h.client_handle as nat, 8),
            ),
            header_attrs(h),
        ),
    )
}

/// The controller that a session was registered with.
pub open spec fn controller_seen(c: ChunkView, h: CspHeader, ip: Seq<char>) -> EventView {
    events::asset_event_view(
        c.capture_id,
        env(c),
        events::asset_view(
            ip,
            Some("ab_csp_plc"@),
            Some("Allen-Bradley"@),
            None,
            None,
            "ab_csp"@,
            Map::empty().insert("csp_addr_hi"@, text::hex0x(h.target_addr_hi as nat, 8)).insert(
                "csp_addr_lo"@,
                text::hex0x(h.target_addr_lo as nat, 8),
            ).insert("ip"@, ip),
        ),
    )
}

/// The events of a chunk. A chunk too short for a header gives one anomaly. Any other
/// gives one transaction, after an anomaly for a declared length that is not the actual
/// one and an anomaly for a command that is not in the table; a registered session also
/// shows the controller at the destination address, where that is known.
pub open spec fn chunk_events(c: ChunkView) -> Seq<EventView> {
    if c.payload.len() < CSP_HEADER_LEN {
        seq![anomaly_of(c, "medium"@, "csp frame shorter than 28-byte header minimum"@)]
    } else {
        let h = header_of(c.payload);
        let a = events::push_if(
            Seq::empty(),
            h.packet_size != c.payload.len(),
            anomaly_of(
                c,
                "medium"@,
                "csp packet_size field ("@ + text::dec(h.packet_size as nat)
                    + ") does not match buffer length ("@ + text::dec(c.payload.len()) + ")"@,
            ),
        );
        let b = events::push_if(
            a,
            !known_command(h.command),
            anomaly_of(c, "low"@, "unknown csp command code 0x"@ + text::hex(h.command as nat, 4)),
        );
        let t = b.push(frame_seen(c, h));
        match env(c).dst_ip {
            Some(ip) => events::push_if(
                t,
                h.command == CMD_REGISTER_SESSION && h.status == 0,
                controller_seen(c, h, ip),
            ),
            None => t,
        }
    }
}

/// The CSP decoder.
#[derive(Debug, Default)]
pub struct AbCspDecoder;

impl AbCspDecoder {
    /// The name of the decoder.
    pub fn name(&self) -> (r: &'static str)
        ensures
            r@ == "ab_csp"@,
    {
        "ab_csp"
    }

    /// The traffic that the decoder asks for: the TCP variant only, since UDP port 2222
    /// carries EtherNet/IP class 1 traffic.
    pub fn interest(&self) -> (r: &'static [DecoderInterest])
        ensures
            r@ == seq![DecoderInterest::TcpPort(2222)],
    {
        &[DecoderInterest::TcpPort(2222)]
    }

    /// Takes in a chunk of a TCP stream.
    pub fn on_stream_chunk(&mut self, chunk: &StreamChunk<'_>, out: &mut Vec<BronzeEvent>)
        ensures
            events::events(final(out)@) == events::events(old(out)@) + chunk_events(chunk@),
    {
        let buf = chunk.payload;
        let mut ev = no_events();
        let hdr = match parse_header(buf) {
            Some(h) => h,
            None => {
                emit(
                    out,
                    anomaly(chunk, "medium", "csp frame shorter than 28-byte header minimum"),
                );
                return;
            },
        };
        if hdr.packet_size as usize != buf.len() {
            let reason = cat("csp packet_size field (", dec_text(hdr.packet_size).as_str());
            let reason = cat(reason.as_str(), ") does not match buffer length (");
            let reason = cat(cat(reason.as_str(), dec_text(buf.len()).as_str()).as_str(), ")");
            emit(&mut ev, anomaly(chunk, "medium", reason.as_str()));
        }
        let is_known_command = matches!(
            hdr.command,
            CMD_REGISTER_SESSION | CMD_UNREGISTER_SESSION | CMD_PCCC_REPLY | CMD_READ_WITH_OFFSET
                | CMD_WRITE_WITH_OFFSET | CMD_PCCC_REQUEST
        );
        if !is_known_command {
            let reason = cat("unknown csp command code 0x", hex_text(hdr.command, 4).as_str());
            emit(&mut ev, anomaly(chunk, "low", reason.as_str()));
        }
        let operation = command_operation(hdr.command);
        let status = status_string(hdr.status);
        let mut attributes = Attributes::new();
        attributes.put_hex("command", hdr.command, 4);
        attributes.put_hex("function", hdr.function, 4);
        attributes.put_dec("packet_size", hdr.packet_size);
        attributes.put_hex("target_addr_hi", hdr.target_addr_hi, 8);
        attributes.put_hex("target_addr_lo", hdr.target_addr_lo, 8);
        attributes.put_hex("client_handle", hdr.client_handle, 8);
        attributes.put_dec("transaction_id", hdr.transaction_id);
        attributes.put_hex("tns", hdr.tns, 4);
        let summary = cat(
            cat(operation.as_str(), " txn=").as_str(),
            dec_text(hdr.transaction_id).as_str(),
        );
        let summary = cat(
            cat(summary.as_str(), " cli=0x").as_str(),
            hex_text(hdr.client_handle, 8).as_str(),
        );
        emit(
            &mut ev,
            transaction_event(
                chunk.capture_id,
                envelope(chunk),
                plain_transaction(operation, status.as_str(), Some(summary), attributes),
            ),
        );
        if hdr.command == CMD_REGISTER_SESSION && hdr.status == 0 {
            let env = envelope(chunk);
            match &env.dst_ip {
                Some(dst_ip) => {
                    let mut identifiers = Attributes::new();
                    identifiers.put_hex("csp_addr_hi", hdr.target_addr_hi, 8);
                    identifiers.put_hex("csp_addr_lo", hdr.target_addr_lo, 8);
                    identifiers.put("ip", dst_ip.as_str());
                    emit(
                        &mut ev,
                        asset_event(
                            chunk.capture_id,
                            envelope(chunk),
                            asset_observation(
                                dst_ip.as_str().to_owned(),
                                Some("ab_csp_plc"),
                                Some("Allen-Bradley"),
                                None,
                                None,
                                "ab_csp",
                                identifiers,
                            ),
                        ),
                    );
                },
                None => {},
            }
        }
        emit_all(out, ev);
    }
}

// ---------------------------------------------------------------------------
// Laws
// ---------------------------------------------------------------------------

/// A command is in the table exactly when its label does not give its number.
pub proof fn known_commands_are_named(command: u16)
    ensures
        known_command(command) <==> !text::occurs_at(
            operation_of(command),
            "csp_unknown_cmd_0x"@,
            0,
        ),
{
    reveal_strlit("csp_unknown_cmd_0x");
    reveal_strlit("csp_register_session");
    reveal_strlit("csp_unregister_session");
    reveal_strlit("csp_pccc_reply");
    reveal_strlit("csp_read");
    reveal_strlit("csp_write");
    reveal_strlit("csp_pccc_request");
    let u = "csp_unknown_cmd_0x"@;
    let op = operation_of(command);
    if known_command(command) {
        if text::occurs_at(op, u, 0) {
            assert(op.subrange(0, u.len() as int)[4] == u[4]);
            assert(op.subrange(0, u.len() as int)[6] == u[6]);
        }
    } else {
        assert(op.subrange(0, u.len() as int) =~= u);
    }
}

/// A chunk with a whole header gives one transaction, whatever anomalies come with it, and an
/// asset at most: for a session that was registered without an error.
pub proof fn every_frame_is_one_transaction(c: ChunkView)
    requires
        c.payload.len() >= CSP_HEADER_LEN,
    ensures
        events::tx_count(chunk_events(c)) == 1,
        events::asset_count(chunk_events(c)) <= 1,
        events::asset_count(chunk_events(c)) == 1 ==> header_of(c.payload).command
            == CMD_REGISTER_SESSION && header_of(c.payload).status == 0,
{
    let ev = chunk_events(c);
    reveal_with_fuel(events::tx_count, 5);
    reveal_with_fuel(events::asset_count, 5);
    assert(ev.len() >= 1 ==> ev.drop_last().len() == ev.len() - 1);
    assert(ev.len() >= 2 ==> ev.drop_last().last() == ev[ev.len() - 2]);
    let e2 = ev.drop_last().drop_last();
    assert(ev.len() >= 2 ==> e2.len() == ev.len() - 2);
    assert(ev.len() >= 3 ==> e2.last() == ev[ev.len() - 3]);
    assert(ev.len() >= 3 ==> e2.drop_last().len() == ev.len() - 3);
    assert(ev.len() >= 4 ==> e2.drop_last().last() == ev[ev.len() - 4]);
}

/// A frame: command, status, size, four reserved bytes, client handle, target address, transaction
/// id, transaction number and function, and the data.
#[verifier::opaque]
pub open spec fn csp_frame(
    command: u16,
    status: u16,
    size: u16,
    reserved: Seq<u8>,
    handle: u32,
    hi: u32,
    lo: u32,
    txn: u16,
    tns: u16,
    function: u16,
    data: Seq<u8>,
) -> Seq<u8> {
    bytes::le16_bytes(command) + (bytes::le16_bytes(status) + (bytes::le16_bytes(size) + (reserved
        + (bytes::le32_bytes(handle) + (bytes::le32_bytes(hi) + (bytes::le32_bytes(lo)
        + (bytes::le16_bytes(txn) + (bytes::le16_bytes(tns)
        + (bytes::le16_bytes(function) + data)))))))))
}

proof fn csp_frame_parts(
    command: u16,
    status: u16,
    size: u16,
    reserved: Seq<u8>,
    handle: u32,
    hi: u32,
    lo: u32,
    txn: u16,
    tns: u16,
    function: u16,
    data: Seq<u8>,
)
    requires
        reserved.len() == 4,
    ensures
        ({
            let b = csp_frame(command, status, size, reserved, handle,
                hi, lo, txn, tns, function, data);
            &&& bytes::le16(b, 0) == command
            &&& bytes::le16(b, 2) == status
            &&& bytes::le16(b, 4) == size
            &&& b.subrange(6, 10) == reserved
            &&& bytes::le32(b, 10) == handle
            &&& bytes::le32(b, 14) == hi
            &&& bytes::le32(b, 18) == lo
            &&& bytes::le16(b, 22) == txn
            &&& bytes::le16(b, 24) == tns
            &&& bytes::le16(b, 26) == function
            &&& b.skip(28) == data
            &&& b.len() == 28 + data.len()
        }),
{
    reveal(csp_frame);
    let t10 = data;
    let t9 = bytes::le16_bytes(function) + t10;
    let t8 = bytes::le16_bytes(tns) + t9;
    let t7 = bytes::le16_bytes(txn) + t8;
    let t6 = bytes::le32_bytes(lo) + t7;
    let t5 = bytes::le32_bytes(hi) + t6;
    let t4 = bytes::le32_bytes(handle) + t5;
    let t3 = reserved + t4;
    let t2 = bytes::le16_bytes(size) + t3;
    let t1 = bytes::le16_bytes(status) + t2;
    let t0 = bytes::le16_bytes(command) + t1;
    let b = t0;
    assert(b.skip(0) =~= t0);
    bytes::next_le(b, 0, command, 0, 0, t1);
    bytes::next_le(b, 2, status, 0, 0, t2);
    bytes::next_le(b, 4, size, 0, 0, t3);
    bytes::next_part(b, 6, reserved, t4);
    bytes::next_le(b, 10, 0, handle, 0, t5);
    bytes::next_le(b, 14, 0, hi, 0, t6);
    bytes::next_le(b, 18, 0, lo, 0, t7);
    bytes::next_le(b, 22, txn, 0, 0, t8);
    bytes::next_le(b, 24, tns, 0, 0, t9);
    bytes::next_le(b, 26, function, 0, 0, t10);
}

/// A frame is read back: every part of its header from its own place, into the attribute of its
/// name. A registered session shows the controller that it was registered with, and a frame of
/// another size than it says, or with an unknown command, is reported.
pub proof fn header_reads_back(
    c: ChunkView,
    command: u16,
    status: u16,
    size: u16,
    reserved: Seq<u8>,
    handle: u32,
    hi: u32,
    lo: u32,
    txn: u16,
    tns: u16,
    function: u16,
    data: Seq<u8>,
)
    requires
        reserved.len() == 4,
        c.payload == csp_frame(command, status, size, reserved, handle,
            hi, lo, txn, tns, function, data),
    ensures
        ({
            let e = chunk_events(c);
            let odd = (if size != c.payload.len() {
                1int
            } else {
                0
            }) + (if command == 1 || command == 2 || command == 3 || command == 7 || command == 8
                || command == 0xA1 {
                0int
            } else {
                1
            });
            let tx = e[odd].family->ProtocolTransaction_0;
            let m = tx.attributes;
            let shown = command == 1 && status == 0 && !c.context.dst_ip.unspecified();
            let a = e[odd + 1].family->AssetObservation_0;
            &&& e.len() == odd + 1 + (if shown {
                1int
            } else {
                0
            })
            &&& forall|i: int| 0 <= i < odd ==> (#[trigger] e[i]).family is ParseAnomaly
            &&& size != c.payload.len() ==> e[0].family->ParseAnomaly_0.severity == "medium"@
            &&& e[odd].family is ProtocolTransaction
            &&& tx.status == (if status == 0 {
                "ok"@
            } else {
                "csp_status_0x"@ + text::hex(status as nat, 4)
            })
            &&& m["command"@] == "0x"@ + text::hex(command as nat, 4)
            &&& m["function"@] == "0x"@ + text::hex(function as nat, 4)
            &&& m["packet_size"@] == text::dec(size as nat)
            &&& m["target_addr_hi"@] == "0x"@ + text::hex(hi as nat, 8)
            &&& m["target_addr_lo"@] == "0x"@ + text::hex(lo as nat, 8)
            &&& m["client_handle"@] == "0x"@ + text::hex(handle as nat, 8)
            &&& m["transaction_id"@] == text::dec(txn as nat)
            &&& m["tns"@] == "0x"@ + text::hex(tns as nat, 4)
            &&& command == 0x0001 ==> tx.operation == "csp_register_session"@
            &&& command == 0x0002 ==> tx.operation == "csp_unregister_session"@
            &&& command == 0x0003 ==> tx.operation == "csp_pccc_reply"@
            &&& command == 0x0007 ==> tx.operation == "csp_read"@
            &&& command == 0x0008 ==> tx.operation == "csp_write"@
            &&& command == 0x00A1 ==> tx.operation == "csp_pccc_request"@
            &&& command != 0x0001 && command != 0x0002 && command != 0x0003 && command != 0x0007
                && command != 0x0008 && command != 0x00A1 ==> tx.operation == "csp_unknown_cmd_0x"@
                + text::hex(command as nat, 4)
            &&& shown ==> {
                &&& e[odd + 1].family is AssetObservation
                &&& a.asset_key == c.context.dst_ip.text()
                &&& a.role == Some("ab_csp_plc"@)
                &&& a.vendor == Some("Allen-Bradley"@)
                &&& a.protocols == seq!["ab_csp"@]
                &&& a.identifiers["ip"@] == c.context.dst_ip.text()
                &&& a.identifiers["csp_addr_hi"@] == "0x"@ + text::hex(hi as nat, 8)
                &&& a.identifiers["csp_addr_lo"@] == "0x"@ + text::hex(lo as nat, 8)
            }
        }),
{
    csp_frame_parts(command, status, size, reserved, handle, hi, lo, txn, tns, function, data);
    reveal_strlit("command");
    reveal_strlit("function");
    reveal_strlit("packet_size");
    reveal_strlit("target_addr_hi");
    reveal_strlit("target_addr_lo");
    reveal_strlit("client_handle");
    reveal_strlit("transaction_id");
    reveal_strlit("tns");
    reveal_strlit("ip");
    reveal_strlit("csp_addr_hi");
    reveal_strlit("csp_addr_lo");
    assert({
        &&& "command"@.len() == 7
        &&& "function"@.len() == 8
        &&& "packet_size"@.len() == 11
        &&& "target_addr_hi"@.len() == 14
        &&& "target_addr_lo"@.len() == 14
        &&& "client_handle"@.len() == 13
        &&& "transaction_id"@.len() == 14
        &&& "tns"@.len() == 3
        &&& "ip"@.len() == 2
        &&& "csp_addr_hi"@.len() == 11
        &&& "csp_addr_lo"@.len() == 11
    });
    assert("packet_size"@[0] != "csp_addr_hi"@[0]);
    assert("packet_size"@[0] != "csp_addr_lo"@[0]);
    assert("target_addr_hi"@[12] != "target_addr_lo"@[12]);
    assert("target_addr_hi"@[1] != "transaction_id"@[1]);
    assert("target_addr_lo"@[1] != "transaction_id"@[1]);
    assert("csp_addr_hi"@[9] != "csp_addr_lo"@[9]);
}

} // verus!
