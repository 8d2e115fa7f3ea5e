//! OPC UA PubSub, UADP messages on UDP port 4840.
//!
//! A network message has a header, of which flags say what is there, and data set messages,
//! each with the values of some fields. Fields are encoded as variants or as data values;
//! what is encoded as raw data cannot be read without the configuration of the publisher and
//! is passed over with an anomaly.
//!
//! The wire does not say which node a field is: a reading names the place of its field in the
//! data set message as a numeric node id. Times count 100-nanosecond ticks since 1601 on the
//! wire and become microseconds since 1970.

use vstd::prelude::*;

use crate::bytes;
use crate::bytes::{cut, get_le16, get_le32, get_le64};
use crate::collections;
use crate::collections::{Attributes, KeySet};
use crate::events;
use crate::events::{
    asset_event, asset_observation, chunk_envelope, emit, emit_all, new_event, no_events,
    parse_anomaly_event, plain_transaction, topology_event, transaction_event, BronzeEvent,
    BronzeEventFamily, EnvelopeView, EventEnvelope, EventView, FamilyView, OpcUaNodeId,
    PointIdentifier, PointValue, PointValueView, ProcessReading, RawQuality, ReadingView,
    TopologyObservation, TopologyView,
};
use crate::opc_ua_binary;
use crate::opc_ua_binary::{
    opcua_datetime_to_unix_us, read_data_value, read_variant, to_i64, Reader,
};
use crate::packet::{ChunkView, DecoderInterest, StreamChunk, TransportProtocol};
use crate::text;
use crate::text::{
    cat, dec_text, hex_upper_text, join_texts, lossy_text, no_texts, opt_copy, opt_owned,
    push_text,
};

verus! {

pub const FIELD_ENC_VARIANT: u8 = 0;

pub const FIELD_ENC_RAW_DATA: u8 = 1;

pub const FIELD_ENC_DATA_VALUE: u8 = 2;

pub const MSG_TYPE_DATA_KEY_FRAME: u8 = 0;

pub const MSG_TYPE_DATA_DELTA_FRAME: u8 = 1;

pub const MSG_TYPE_EVENT: u8 = 2;

pub const MSG_TYPE_KEEP_ALIVE: u8 = 3;

// ---------------------------------------------------------------------------
// Network message header
// ---------------------------------------------------------------------------

/// The header of a network message.
#[derive(Debug)]
pub struct NetworkMessageHeader {
    pub ua_version: u8,
    pub publisher_id: Option<String>,
    pub publisher_id_type: Option<&'static str>,
    pub dataset_class_id: Option<String>,
    pub writer_group_id: Option<u16>,
    pub group_version: Option<u32>,
    pub network_message_number: Option<u16>,
    pub sequence_number: Option<u16>,
    pub dataset_writer_ids: Vec<u16>,
    /// Where the data set messages start.
    pub payload_start: usize,
}

/// A header as contracts speak of it.
pub struct HeaderView {
    pub ua_version: u8,
    pub publisher_id: Option<Seq<char>>,
    pub publisher_id_type: Option<Seq<char>>,
    pub dataset_class_id: Option<Seq<char>>,
    pub writer_group_id: Option<u16>,
    pub group_version: Option<u32>,
    pub network_message_number: Option<u16>,
    pub sequence_number: Option<u16>,
    pub dataset_writer_ids: Seq<u16>,
    pub payload_start: int,
}

impl View for NetworkMessageHeader {
    type V = HeaderView;

    open spec fn view(&self) -> HeaderView {
        HeaderView {
            ua_version: self.ua_version,
            publisher_id: text::opt_view(self.publisher_id),
            publisher_id_type: text::opt_str(self.publisher_id_type),
            dataset_class_id: text::opt_view(self.dataset_class_id),
            writer_group_id: self.writer_group_id,
            group_version: self.group_version,
            network_message_number: self.network_message_number,
            sequence_number: self.sequence_number,
            dataset_writer_ids: self.dataset_writer_ids@,
            payload_start: self.payload_start as int,
        }
    }
}

/// A part of a header and the place after it, or why it cannot be read.
pub type Part<T> = Result<(T, int), Seq<char>>;

/// Bit `k` of a byte.
pub open spec fn bit(b: u8, k: u8) -> bool {
    (b >> k) & 1 == 1
}

fn has_bit(b: u8, k: u8) -> (r: bool)
    requires
        k < 8,
    ensures
        r == bit(b, k),
{
    (b >> k) & 1 == 1
}

/// A flags byte at `at` that is there only where `enabled` says so; else zero stands for it.
pub open spec fn flags_at(b: Seq<u8>, at: int, enabled: bool, missing: Seq<char>) -> Part<u8> {
    if !enabled {
        Ok((0u8, at))
    } else if b.len() < at + 1 {
        Err(missing)
    } else {
        Ok((b[at], at + 1))
    }
}

/// A number of two bytes at `at` that is there only where `enabled` says so.
pub open spec fn u16_at(b: Seq<u8>, at: int, enabled: bool, missing: Seq<char>) -> Part<
    Option<u16>,
> {
    if !enabled {
        Ok((None, at))
    } else if b.len() < at + 2 {
        Err(missing)
    } else {
        Ok((Some(bytes::le16(b, at)), at + 2))
    }
}

/// A number of four bytes at `at` that is there only where `enabled` says so.
pub open spec fn u32_at(b: Seq<u8>, at: int, enabled: bool, missing: Seq<char>) -> Part<
    Option<u32>,
> {
    if !enabled {
        Ok((None, at))
    } else if b.len() < at + 4 {
        Err(missing)
    } else {
        Ok((Some(bytes::le32(b, at)), at + 4))
    }
}

/// A publisher id and the name of its type.
pub type PublisherView = (Option<Seq<char>>, Option<Seq<char>>);

/// The publisher id at `at`: a number of one, two, four or eight bytes, or a string, by its
/// type. A string with a negative length is empty, and an unknown type has no id.
pub open spec fn publisher_at(b: Seq<u8>, at: int, enabled: bool, pid_type: u8) -> Part<
    PublisherView,
> {
    if !enabled {
        Ok(((None, None), at))
    } else if pid_type == 0 {
        if b.len() < at + 1 {
            Err("truncated: missing PublisherId (Byte)"@)
        } else {
            Ok(((Some(text::dec(b[at] as nat)), Some("byte"@)), at + 1))
        }
    } else if pid_type == 1 {
        if b.len() < at + 2 {
            Err("truncated: missing PublisherId (UInt16)"@)
        } else {
            Ok(((Some(text::dec(bytes::le16(b, at) as nat)), Some("uint16"@)), at + 2))
        }
    } else if pid_type == 2 {
        if b.len() < at + 4 {
            Err("truncated: missing PublisherId (UInt32)"@)
        } else {
            Ok(((Some(text::dec(bytes::le32(b, at) as nat)), Some("uint32"@)), at + 4))
        }
    } else if pid_type == 3 {
        if b.len() < at + 8 {
            Err("truncated: missing PublisherId (UInt64)"@)
        } else {
            Ok(((Some(text::dec(bytes::le64(b, at) as nat)), Some("uint64"@)), at + 8))
        }
    } else if pid_type == 4 {
        if b.len() < at + 4 {
            Err("truncated: missing PublisherId string length"@)
        } else {
            let n = bytes::le32(b, at);
            if n >= 0x8000_0000 {
                Ok(((Some(Seq::empty()), Some("string"@)), at + 4))
            } else if b.len() < at + 4 + n {
                Err("truncated: missing PublisherId string bytes"@)
            } else {
                Ok(
                    (
                        (Some(text::lossy(b.subrange(at + 4, at + 4 + n))), Some("string"@)),
                        at + 4 + n,
                    ),
                )
            }
        }
    } else {
        Ok(((None, Some("unknown"@)), at))
    }
}

/// The view of what was read of a publisher id.
pub open spec fn publisher_read(
    r: Result<(Option<String>, Option<&'static str>, usize), &'static str>,
) -> Part<PublisherView> {
    match r {
        Ok((id, t, at)) => Ok(((text::opt_view(id), text::opt_str(t)), at as int)),
        Err(e) => Err(e@),
    }
}

fn read_publisher(buf: &[u8], at: usize, enabled: bool, pid_type: u8) -> (r: Result<
    (Option<String>, Option<&'static str>, usize),
    &'static str,
>)
    requires
        at <= buf.len(),
    ensures
        publisher_read(r) == publisher_at(buf@, at as int, enabled, pid_type),
        r matches Ok((_, _, next)) ==> at <= next <= buf.len(),
{
    if !enabled {
        return Ok((None, None, at));
    }
    let left: usize = buf.len() - at;
    match pid_type {
        0 => {
            if left < 1 {
                return Err("truncated: missing PublisherId (Byte)");
            }
            Ok((Some(dec_text(buf[at])), Some("byte"), at + 1))
        },
        1 => {
            if left < 2 {
                return Err("truncated: missing PublisherId (UInt16)");
            }
            Ok((Some(dec_text(get_le16(buf, at))), Some("uint16"), at + 2))
        },
        2 => {
            if left < 4 {
                return Err("truncated: missing PublisherId (UInt32)");
            }
            Ok((Some(dec_text(get_le32(buf, at))), Some("uint32"), at + 4))
        },
        3 => {
            if left < 8 {
                return Err("truncated: missing PublisherId (UInt64)");
            }
            Ok((Some(dec_text(get_le64(buf, at))), Some("uint64"), at + 8))
        },
        4 => {
            if left < 4 {
                return Err("truncated: missing PublisherId string length");
            }
            let n = get_le32(buf, at);
            if n >= 0x8000_0000 {
                let none = String::new();
                assert(none@ =~= Seq::<char>::empty());
                return Ok((Some(none), Some("string"), at + 4));
            }
            let n: usize = n as usize;
            if left - 4 < n {
                return Err("truncated: missing PublisherId string bytes");
            }
            let start: usize = at + 4;
            Ok((Some(lossy_text(cut(buf, start, start + n))), Some("string"), start + n))
        },
        _ => Ok((None, Some("unknown"), at)),
    }
}

/// A GUID as it is printed, in braces and capitals: three little-endian numbers, then eight
/// bytes.
pub open spec fn guid_text(b: Seq<u8>, i: int) -> Seq<char> {
    "{"@ + text::hex_cased(bytes::le32(b, i) as nat, 8, true) + "-"@ + text::hex_cased(
        bytes::le16(b, i + 4) as nat,
        4,
        true,
    ) + "-"@ + text::hex_cased(bytes::le16(b, i + 6) as nat, 4, true) + "-"@ + text::hex_cased(
        b[i + 8] as nat,
        2,
        true,
    ) + text::hex_cased(b[i + 9] as nat, 2, true) + "-"@ + text::hex_cased(
        b[i + 10] as nat,
        2,
        true,
    ) + text::hex_cased(b[i + 11] as nat, 2, true) + text::hex_cased(b[i + 12] as nat, 2, true)
        + text::hex_cased(b[i + 13] as nat, 2, true) + text::hex_cased(b[i + 14] as nat, 2, true)
        + text::hex_cased(b[i + 15] as nat, 2, true) + "}"@
}

/// The GUID in sixteen bytes.
pub fn hex_guid(b: &[u8]) -> (r: String)
    requires
        b@.len() >= 16,
    ensures
        r@ == guid_text(b@, 0),
{
    let s = cat("{", hex_upper_text(get_le32(b, 0), 8).as_str());
    let s = cat(cat(s.as_str(), "-").as_str(), hex_upper_text(get_le16(b, 4), 4).as_str());
    let s = cat(cat(s.as_str(), "-").as_str(), hex_upper_text(get_le16(b, 6), 4).as_str());
    let s = cat(cat(s.as_str(), "-").as_str(), hex_upper_text(b[8], 2).as_str());
    let s = cat(s.as_str(), hex_upper_text(b[9], 2).as_str());
    let s = cat(cat(s.as_str(), "-").as_str(), hex_upper_text(b[10], 2).as_str());
    let s = cat(s.as_str(), hex_upper_text(b[11], 2).as_str());
    let s = cat(s.as_str(), hex_upper_text(b[12], 2).as_str());
    let s = cat(s.as_str(), hex_upper_text(b[13], 2).as_str());
    let s = cat(s.as_str(), hex_upper_text(b[14], 2).as_str());
    let s = cat(s.as_str(), hex_upper_text(b[15], 2).as_str());
    cat(s.as_str(), "}")
}

/// The class id of the data sets at `at`.
pub open spec fn class_id_at(b: Seq<u8>, at: int, enabled: bool) -> Part<Option<Seq<char>>> {
    if !enabled {
        Ok((None, at))
    } else if b.len() < at + 16 {
        Err("truncated: missing DataSetClassId"@)
    } else {
        Ok((Some(guid_text(b, at)), at + 16))
    }
}

/// The view of the class id that was read.
pub open spec fn class_id_read(r: Result<(Option<String>, usize), &'static str>) -> Part<
    Option<Seq<char>>,
> {
    match r {
        Ok((id, at)) => Ok((text::opt_view(id), at as int)),
        Err(e) => Err(e@),
    }
}

fn read_class_id(buf: &[u8], at: usize, enabled: bool) -> (r: Result<
    (Option<String>, usize),
    &'static str,
>)
    requires
        at <= buf.len(),
    ensures
        class_id_read(r) == class_id_at(buf@, at as int, enabled),
        r matches Ok((_, next)) ==> at <= next <= buf.len(),
{
    if !enabled {
        Ok((None, at))
    } else if buf.len() - at < 16 {
        Err("truncated: missing DataSetClassId")
    } else {
        Ok((Some(hex_guid(cut(buf, at, at + 16))), at + 16))
    }
}

/// What a group header says: writer group, group version, message number and sequence number.
pub type GroupHeader = (Option<u16>, Option<u32>, Option<u16>, Option<u16>);

/// The group header at `at`: a byte of flags, and the parts that they announce.
pub open spec fn group_at(b: Seq<u8>, at: int, enabled: bool) -> Part<GroupHeader> {
    match flags_at(b, at, enabled, "truncated: missing GroupHeader flags"@) {
        Err(e) => Err(e),
        Ok((f, at)) => match u16_at(b, at, bit(f, 0), "truncated: missing WriterGroupId"@) {
            Err(e) => Err(e),
            Ok((writer_group, at)) => match u32_at(
                b,
                at,
                bit(f, 1),
                "truncated: missing GroupVersion"@,
            ) {
                Err(e) => Err(e),
                Ok((version, at)) => match u16_at(
                    b,
                    at,
                    bit(f, 2),
                    "truncated: missing NetworkMessageNumber"@,
                ) {
                    Err(e) => Err(e),
                    Ok((number, at)) => match u16_at(
                        b,
                        at,
                        bit(f, 3),
                        "truncated: missing SequenceNumber"@,
                    ) {
                        Err(e) => Err(e),
                        Ok((sequence, at)) => Ok(((writer_group, version, number, sequence), at)),
                    },
                },
            },
        },
    }
}

/// The view of a part that was read.
pub open spec fn part_read<T>(r: Result<(T, usize), &'static str>) -> Part<T> {
    match r {
        Ok((v, at)) => Ok((v, at as int)),
        Err(e) => Err(e@),
    }
}

fn read_flags(buf: &[u8], at: usize, enabled: bool, missing: &'static str) -> (r: Result<
    (u8, usize),
    &'static str,
>)
    requires
        at <= buf.len(),
    ensures
        part_read(r) == flags_at(buf@, at as int, enabled, missing@),
        r matches Ok((_, next)) ==> at <= next <= buf.len(),
{
    if !enabled {
        Ok((0, at))
    } else if buf.len() - at < 1 {
        Err(missing)
    } else {
        Ok((buf[at], at + 1))
    }
}

fn read_u16_at(buf: &[u8], at: usize, enabled: bool, missing: &'static str) -> (r: Result<
    (Option<u16>, usize),
    &'static str,
>)
    requires
        at <= buf.len(),
    ensures
        part_read(r) == u16_at(buf@, at as int, enabled, missing@),
        r matches Ok((_, next)) ==> at <= next <= buf.len(),
{
    if !enabled {
        Ok((None, at))
    } else if buf.len() - at < 2 {
        Err(missing)
    } else {
        Ok((Some(get_le16(buf, at)), at + 2))
    }
}

fn read_u32_at(buf: &[u8], at: usize, enabled: bool, missing: &'static str) -> (r: Result<
    (Option<u32>, usize),
    &'static str,
>)
    requires
        at <= buf.len(),
    ensures
        part_read(r) == u32_at(buf@, at as int, enabled, missing@),
        r matches Ok((_, next)) ==> at <= next <= buf.len(),
{
    if !enabled {
        Ok((None, at))
    } else if buf.len() - at < 4 {
        Err(missing)
    } else {
        Ok((Some(get_le32(buf, at)), at + 4))
    }
}

fn read_group(buf: &[u8], at: usize, enabled: bool) -> (r: Result<
    (GroupHeader, usize),
    &'static str,
>)
    requires
        at <= buf.len(),
    ensures
        part_read(r) == group_at(buf@, at as int, enabled),
        r matches Ok((_, next)) ==> at <= next <= buf.len(),
{
    let (f, at) = match read_flags(buf, at, enabled, "truncated: missing GroupHeader flags") {
        Ok(p) => p,
        Err(e) => {
            return Err(e);
        },
    };
    proof {
        zero_has_no_bits();
    }
    let (writer_group, at) = match read_u16_at(
        buf,
        at,
        has_bit(f, 0),
        "truncated: missing WriterGroupId",
    ) {
        Ok(p) => p,
        Err(e) => {
            return Err(e);
        },
    };
    let (version, at) = match read_u32_at(
        buf,
        at,
        has_bit(f, 1),
        "truncated: missing GroupVersion",
    ) {
        Ok(p) => p,
        Err(e) => {
            return Err(e);
        },
    };
    let (number, at) = match read_u16_at(
        buf,
        at,
        has_bit(f, 2),
        "truncated: missing NetworkMessageNumber",
    ) {
        Ok(p) => p,
        Err(e) => {
            return Err(e);
        },
    };
    let (sequence, at) = match read_u16_at(
        buf,
        at,
        has_bit(f, 3),
        "truncated: missing SequenceNumber",
    ) {
        Ok(p) => p,
        Err(e) => {
            return Err(e);
        },
    };
    Ok(((writer_group, version, number, sequence), at))
}

/// The writer ids at `at`: their number in one byte, then two bytes each.
pub open spec fn writers_at(b: Seq<u8>, at: int, enabled: bool) -> Part<Seq<u16>> {
    if !enabled {
        Ok((Seq::empty(), at))
    } else if b.len() < at + 1 {
        Err("truncated: missing PayloadHeader count"@)
    } else if b.len() < at + 1 + 2 * b[at] {
        Err("truncated: missing DataSetWriterIds"@)
    } else {
        Ok(
            (
                Seq::new(b[at] as nat, |i: int| bytes::le16(b, at + 1 + 2 * i)),
                at + 1 + 2 * b[at],
            ),
        )
    }
}

/// The view of the writer ids that were read.
pub open spec fn writers_read(r: Result<(Vec<u16>, usize), &'static str>) -> Part<Seq<u16>> {
    match r {
        Ok((v, at)) => Ok((v@, at as int)),
        Err(e) => Err(e@),
    }
}

fn read_writers(buf: &[u8], at: usize, enabled: bool) -> (r: Result<
    (Vec<u16>, usize),
    &'static str,
>)
    requires
        at <= buf.len(),
    ensures
        writers_read(r) == writers_at(buf@, at as int, enabled),
        r matches Ok((_, next)) ==> at <= next <= buf.len(),
{
    let mut ids: Vec<u16> = Vec::new();
    if !enabled {
        assert(ids@ =~= Seq::<u16>::empty());
        return Ok((ids, at));
    }
    if buf.len() - at < 1 {
        return Err("truncated: missing PayloadHeader count");
    }
    let count = buf[at] as usize;
    let start: usize = at + 1;
    if buf.len() - start < count * 2 {
        return Err("truncated: missing DataSetWriterIds");
    }
    let mut i: usize = 0;
    while i < count
        invariant
            i <= count <= 255,
            start == at + 1,
            start + count * 2 <= buf.len(),
            ids@ == Seq::new(i as nat, |j: int| bytes::le16(buf@, at + 1 + 2 * j)),
        decreases count - i,
    {
        ids.push(get_le16(buf, start + i * 2));
        assert(ids@ =~= Seq::new((i + 1) as nat, |j: int| bytes::le16(buf@, at + 1 + 2 * j)));
        i = i + 1;
    }
    Ok((ids, start + count * 2))
}

/// The header of a network message, or why it cannot be read.
pub open spec fn header_of(b: Seq<u8>) -> Result<HeaderView, Seq<char>> {
    if b.len() == 0 {
        Err("empty datagram"@)
    } else {
        let flags = b[0];
        match flags_at(b, 1, bit(flags, 7), "truncated: missing ExtendedFlags1"@) {
            Err(e) => Err(e),
            Ok((ext1, at)) => match flags_at(
                b,
                at,
                bit(ext1, 7),
                "truncated: missing ExtendedFlags2"@,
            ) {
                Err(e) => Err(e),
                Ok((_, at)) => match publisher_at(b, at, bit(flags, 4), ext1 & 0x07) {
                    Err(e) => Err(e),
                    Ok((publisher, at)) => match class_id_at(b, at, bit(ext1, 3)) {
                        Err(e) => Err(e),
                        Ok((class_id, at)) => match group_at(b, at, bit(flags, 5)) {
                            Err(e) => Err(e),
                            Ok((group, at)) => match writers_at(b, at, bit(flags, 6)) {
                                Err(e) => Err(e),
                                Ok((writers, at)) => Ok(
                                    HeaderView {
                                        ua_version: flags & 0x0F,
                                        publisher_id: publisher.0,
                                        publisher_id_type: publisher.1,
                                        dataset_class_id: class_id,
                                        writer_group_id: group.0,
                                        group_version: group.1,
                                        network_message_number: group.2,
                                        sequence_number: group.3,
                                        dataset_writer_ids: writers,
                                        payload_start: at,
                                    },
                                ),
                            },
                        },
                    },
                },
            },
        }
    }
}

proof fn zero_has_no_bits()
    ensures
        forall|k: u8| k < 8 ==> !#[trigger] bit(0, k),
        0u8 & 0x07 == 0,
{
    assert(forall|k: u8| k < 8 ==> (0u8 >> k) & 1 != 1) by (bit_vector);
    assert(0u8 & 0x07 == 0) by (bit_vector);
}

/// The view of a parse result.
pub open spec fn header_read(r: Result<NetworkMessageHeader, &'static str>) -> Result<
    HeaderView,
    Seq<char>,
> {
    match r {
        Ok(h) => Ok(h@),
        Err(e) => Err(e@),
    }
}

/// The header of a network message, or why it cannot be read.
#[verifier::spinoff_prover]
#[verifier::rlimit(40)]
pub fn parse_network_message(buf: &[u8]) -> (r: Result<NetworkMessageHeader, &'static str>)
    ensures
        header_read(r) == header_of(buf@),
        r matches Ok(h) ==> h.payload_start <= buf@.len(),
{
    if buf.len() == 0 {
        return Err("empty datagram");
    }
    let flags = buf[0];
    let (ext1, at) = match read_flags(
        buf,
        1,
        has_bit(flags, 7),
        "truncated: missing ExtendedFlags1",
    ) {
        Ok(p) => p,
        Err(e) => {
            return Err(e);
        },
    };
    let (_, at) = match read_flags(
        buf,
        at,
        has_bit(ext1, 7),
        "truncated: missing ExtendedFlags2",
    ) {
        Ok(p) => p,
        Err(e) => {
            return Err(e);
        },
    };
    let (publisher_id, publisher_id_type, at) = match read_publisher(
        buf,
        at,
        has_bit(flags, 4),
        ext1 & 0x07,
    ) {
        Ok(p) => p,
        Err(e) => {
            return Err(e);
        },
    };
    let (dataset_class_id, at) = match read_class_id(buf, at, has_bit(ext1, 3)) {
        Ok(p) => p,
        Err(e) => {
            return Err(e);
        },
    };
    let (group, at) = match read_group(buf, at, has_bit(flags, 5)) {
        Ok(p) => p,
        Err(e) => {
            return Err(e);
        },
    };
    let (dataset_writer_ids, at) = match read_writers(buf, at, has_bit(flags, 6)) {
        Ok(p) => p,
        Err(e) => {
            return Err(e);
        },
    };
    Ok(
        NetworkMessageHeader {
            ua_version: flags & 0x0F,
            publisher_id,
            publisher_id_type,
            dataset_class_id,
            writer_group_id: group.0,
            group_version: group.1,
            network_message_number: group.2,
            sequence_number: group.3,
            dataset_writer_ids,
            payload_start: at,
        },
    )
}

// ---------------------------------------------------------------------------
// Data set message header
// ---------------------------------------------------------------------------

/// The header of a data set message.
#[derive(Debug, Clone, Copy)]
pub struct DsmHeader {
    pub field_encoding: u8,
    pub message_type: u8,
    pub sequence_number: Option<u16>,
    /// In microseconds since 1970.
    pub dsm_timestamp_us: Option<u64>,
    pub status_code: Option<u16>,
}

/// The header of the data set message at the front, or why it cannot be read, and the bytes
/// that are left. A byte of flags, and a second one where the first announces it, say which
/// of the parts follow: sequence number, time, picoseconds, status, major and minor version.
pub open spec fn dsm_header(b: Seq<u8>) -> (Result<DsmHeader, Seq<char>>, Seq<u8>) {
    match opc_ua_binary::take8(b) {
        (None, r) => (Err("truncated: missing DataSetFlags1"@), r),
        (Some(f1), r) => match opc_ua_binary::take_if(bit(f1, 7), r, opc_ua_binary::take8(r)) {
            (None, r) => (Err("truncated: missing DataSetFlags2"@), r),
            (Some(second), r) => {
                let f2: u8 = match second {
                    Some(f) => f,
                    None => 0,
                };
                match opc_ua_binary::take_if(bit(f1, 3), r, opc_ua_binary::take16(r)) {
                    (None, r) => (Err("truncated: missing DSM SequenceNumber"@), r),
                    (Some(sequence_number), r) => dsm_header_rest(f1, f2, sequence_number, r),
                }
            },
        },
    }
}

/// The rest of a data set message header, from its time on.
pub open spec fn dsm_header_rest(f1: u8, f2: u8, sequence_number: Option<u16>, b: Seq<u8>) -> (
    Result<DsmHeader, Seq<char>>,
    Seq<u8>,
) {
    match opc_ua_binary::take_if(bit(f2, 4), b, opc_ua_binary::take64(b)) {
        (None, r) => (Err("truncated: missing DSM Timestamp"@), r),
        (Some(ticks), r) => match opc_ua_binary::take_if(
            bit(f2, 5),
            r,
            opc_ua_binary::take16(r),
        ) {
            (None, r) => (Err("truncated: missing DSM PicoSeconds"@), r),
            (Some(_), r) => match opc_ua_binary::take_if(bit(f1, 4), r, opc_ua_binary::take16(r)) {
                (None, r) => (Err("truncated: missing DSM StatusCode"@), r),
                (Some(status_code), r) => match opc_ua_binary::take_if(
                    bit(f1, 5),
                    r,
                    opc_ua_binary::take32(r),
                ) {
                    (None, r) => (Err("truncated: missing DSM MajorVersion"@), r),
                    (Some(_), r) => match opc_ua_binary::take_if(
                        bit(f1, 6),
                        r,
                        opc_ua_binary::take32(r),
                    ) {
                        (None, r) => (Err("truncated: missing DSM MinorVersion"@), r),
                        (Some(_), r) => (
                            Ok(
                                DsmHeader {
                                    field_encoding: (f1 >> 1) & 0x03,
                                    message_type: f2 & 0x0F,
                                    sequence_number,
                                    dsm_timestamp_us: match ticks {
                                        Some(t) => opc_ua_binary::unix_micros(
                                            opc_ua_binary::signed64(t),
                                        ),
                                        None => None,
                                    },
                                    status_code,
                                },
                            ),
                            r,
                        ),
                    },
                },
            },
        },
    }
}

/// The view of a parse result.
pub open spec fn dsm_header_read(r: Result<DsmHeader, &'static str>) -> Result<
    DsmHeader,
    Seq<char>,
> {
    match r {
        Ok(h) => Ok(h),
        Err(e) => Err(e@),
    }
}

/// Reads the header of a data set message, or says why it cannot be read.
pub fn parse_dsm_header(r: &mut Reader<'_>) -> (h: Result<DsmHeader, &'static str>)
    ensures
        (dsm_header_read(h), final(r)@) == dsm_header(old(r)@),
{
    let f1 = match r.read_u8() {
        Ok(f) => f,
        Err(_) => {
            return Err("truncated: missing DataSetFlags1");
        },
    };
    let mut f2: u8 = 0;
    if has_bit(f1, 7) {
        match r.read_u8() {
            Ok(f) => {
                f2 = f;
            },
            Err(_) => {
                return Err("truncated: missing DataSetFlags2");
            },
        }
    }
    let mut sequence_number: Option<u16> = None;
    if has_bit(f1, 3) {
        match r.read_u16() {
            Ok(n) => {
                sequence_number = Some(n);
            },
            Err(_) => {
                return Err("truncated: missing DSM SequenceNumber");
            },
        }
    }
    parse_dsm_header_rest(r, f1, f2, sequence_number)
}

fn parse_dsm_header_rest(r: &mut Reader<'_>, f1: u8, f2: u8, sequence_number: Option<u16>) -> (h:
    Result<DsmHeader, &'static str>)
    ensures
        (dsm_header_read(h), final(r)@) == dsm_header_rest(f1, f2, sequence_number, old(r)@),
{
    let mut dsm_timestamp_us: Option<u64> = None;
    if has_bit(f2, 4) {
        match r.read_u64() {
            Ok(t) => {
                dsm_timestamp_us = opcua_datetime_to_unix_us(to_i64(t));
            },
            Err(_) => {
                return Err("truncated: missing DSM Timestamp");
            },
        }
    }
    if has_bit(f2, 5) {
        if r.read_u16().is_err() {
            return Err("truncated: missing DSM PicoSeconds");
        }
    }
    let mut status_code: Option<u16> = None;
    if has_bit(f1, 4) {
        match r.read_u16() {
            Ok(s) => {
                status_code = Some(s);
            },
            Err(_) => {
                return Err("truncated: missing DSM StatusCode");
            },
        }
    }
    if has_bit(f1, 5) {
        if r.read_u32().is_err() {
            return Err("truncated: missing DSM MajorVersion");
        }
    }
    if has_bit(f1, 6) {
        if r.read_u32().is_err() {
            return Err("truncated: missing DSM MinorVersion");
        }
    }
    Ok(
        DsmHeader {
            field_encoding: (f1 >> 1) & 0x03,
            message_type: f2 & 0x0F,
            sequence_number,
            dsm_timestamp_us,
            status_code,
        },
    )
}

/// The operation of a message type.
pub open spec fn operation_of(message_type: u8) -> Seq<char> {
    if message_type == 1 {
        "opc_ua_pubsub_data_delta_frame"@
    } else if message_type == 2 {
        "opc_ua_pubsub_event_frame"@
    } else if message_type == 3 {
        "opc_ua_pubsub_keep_alive"@
    } else {
        "opc_ua_pubsub_data_key_frame"@
    }
}

/// The operation of a message type.
pub fn dsm_operation(message_type: u8) -> (r: &'static str)
    ensures
        r@ == operation_of(message_type),
{
    match message_type {
        MSG_TYPE_DATA_KEY_FRAME => "opc_ua_pubsub_data_key_frame",
        MSG_TYPE_DATA_DELTA_FRAME => "opc_ua_pubsub_data_delta_frame",
        MSG_TYPE_EVENT => "opc_ua_pubsub_event_frame",
        MSG_TYPE_KEEP_ALIVE => "opc_ua_pubsub_keep_alive",
        _ => "opc_ua_pubsub_data_key_frame",
    }
}

/// The name of a field encoding.
pub open spec fn encoding_of(enc: u8) -> Seq<char> {
    if enc == 0 {
        "variant"@
    } else if enc == 1 {
        "raw_data"@
    } else if enc == 2 {
        "data_value"@
    } else {
        "unknown"@
    }
}

/// The name of a field encoding.
pub fn field_encoding_str(enc: u8) -> (r: &'static str)
    ensures
        r@ == encoding_of(enc),
{
    match enc {
        FIELD_ENC_VARIANT => "variant",
        FIELD_ENC_RAW_DATA => "raw_data",
        FIELD_ENC_DATA_VALUE => "data_value",
        _ => "unknown",
    }
}

// ---------------------------------------------------------------------------
// Data set messages
// ---------------------------------------------------------------------------

/// What the events of a datagram have in common.
pub struct Source {
    pub capture_id: Seq<char>,
    pub envelope: EnvelopeView,
    pub observed_ts: u64,
    pub decoder: Seq<char>,
    pub raw: Seq<u8>,
}

/// An anomaly in a data set message.
pub open spec fn dsm_anomaly(s: Source, reason: Seq<char>) -> EventView {
    events::anomaly_view(s.capture_id, s.envelope, s.decoder, "low"@, reason, s.raw)
}

/// The transaction of a data set message.
pub open spec fn dsm_tx(
    capture_id: Seq<char>,
    envelope: EnvelopeView,
    writer_id: u16,
    h: DsmHeader,
    field_count: u16,
) -> EventView {
    let m = Map::empty().insert("dataset_writer_id"@, text::dec(writer_id as nat)).insert(
        "field_count"@,
        text::dec(field_count as nat),
    ).insert("field_encoding"@, encoding_of(h.field_encoding));
    let m = collections::insert_opt(m, "sequence_number"@, text::opt_dec(h.sequence_number));
    events::tx_view(
        capture_id,
        envelope,
        events::plain_tx(
            operation_of(h.message_type),
            "observed"@,
            Some(
                "UADP DSM writer_id="@ + text::dec(writer_id as nat) + " fields="@ + text::dec(
                    field_count as nat,
                ),
            ),
            collections::insert_opt(m, "status_code"@, text::opt_dec(h.status_code)),
        ),
    )
}

/// Adds the transaction of a data set message.
pub fn emit_dsm_transaction(
    capture_id: &str,
    envelope: &EventEnvelope,
    writer_id: u16,
    dsm_hdr: &DsmHeader,
    field_count: u16,
    out: &mut Vec<BronzeEvent>,
)
    ensures
        events::events(final(out)@) == events::events(old(out)@).push(
            dsm_tx(capture_id@, envelope@, writer_id, *dsm_hdr, field_count),
        ),
{
    let mut attrs = Attributes::new();
    attrs.put_dec("dataset_writer_id", writer_id);
    attrs.put_dec("field_count", field_count);
    attrs.put("field_encoding", field_encoding_str(dsm_hdr.field_encoding));
    attrs.put_some_dec("sequence_number", dsm_hdr.sequence_number);
    attrs.put_some_dec("status_code", dsm_hdr.status_code);
    let s = cat(cat("UADP DSM writer_id=", dec_text(writer_id).as_str()).as_str(), " fields=");
    let s = cat(s.as_str(), dec_text(field_count).as_str());
    emit(
        out,
        transaction_event(
            capture_id,
            envelope.copy(),
            plain_transaction(
                dsm_operation(dsm_hdr.message_type).to_owned(),
                "observed",
                Some(s),
                attrs,
            ),
        ),
    );
}

/// The reading of a field.
pub open spec fn reading_of(
    s: Source,
    index: u16,
    value: PointValueView,
    quality: RawQuality,
    source_ts: Option<u64>,
) -> EventView {
    EventView {
        capture_id: s.capture_id,
        envelope: s.envelope,
        family: FamilyView::ProcessReading(
            ReadingView {
                source_protocol: "opc_ua_pubsub"@,
                point_id: PointIdentifier::OpcUaNode {
                    namespace_index: 0,
                    identifier: OpcUaNodeId::Numeric(index as u32),
                },
                value,
                quality,
                source_ts,
                observed_ts: s.observed_ts,
            },
        ),
    }
}

fn reading_event(
    capture_id: &str,
    envelope: &EventEnvelope,
    observed_ts: u64,
    index: u16,
    value: PointValue,
    quality: RawQuality,
    source_ts: Option<u64>,
) -> (r: BronzeEvent)
    ensures
        forall|s: Source|
            s.capture_id == capture_id@ && s.envelope == envelope@ && s.observed_ts == observed_ts
                ==> r@ == #[trigger] reading_of(s, index, value@, quality, source_ts),
{
    new_event(
        capture_id,
        envelope.copy(),
        BronzeEventFamily::ProcessReading(
            ProcessReading {
                source_protocol: "opc_ua_pubsub".to_owned(),
                point_id: PointIdentifier::OpcUaNode {
                    namespace_index: 0,
                    identifier: OpcUaNodeId::Numeric(index as u32),
                },
                value,
                quality,
                source_ts,
                observed_ts,
            },
        ),
    )
}

/// A field at the front, in the place `index`: its reading, or why it has none, and the bytes
/// that are left. A variant has the time of its data set message, a data value its own.
pub open spec fn field_at(s: Source, h: DsmHeader, index: u16, b: Seq<u8>) -> (
    Result<EventView, Seq<char>>,
    Seq<u8>,
) {
    if h.field_encoding == 0 {
        match opc_ua_binary::take_variant(b) {
            (Some(v), r) => (
                Ok(reading_of(s, index, v, RawQuality::Unstated, h.dsm_timestamp_us)),
                r,
            ),
            (None, r) => (Err("unsupported or truncated Variant in DataSetMessage"@), r),
        }
    } else if h.field_encoding == 2 {
        match opc_ua_binary::take_data_value(b) {
            (Some(v), r) => (Ok(reading_of(s, index, v.value, v.quality, v.source_ts)), r),
            (None, r) => (Err("truncated DataValue in DataSetMessage"@), r),
        }
    } else {
        (Err("unknown FieldEncoding in DataSetMessage"@), b)
    }
}

/// The view of a field that was read.
pub open spec fn field_read(r: Result<BronzeEvent, &'static str>) -> Result<EventView, Seq<char>> {
    match r {
        Ok(e) => Ok(e@),
        Err(e) => Err(e@),
    }
}

fn read_field(
    r: &mut Reader<'_>,
    h: &DsmHeader,
    index: u16,
    capture_id: &str,
    envelope: &EventEnvelope,
    observed_ts: u64,
    Ghost(s): Ghost<Source>,
) -> (f: Result<BronzeEvent, &'static str>)
    requires
        s.capture_id == capture_id@,
        s.envelope == envelope@,
        s.observed_ts == observed_ts,
    ensures
        (field_read(f), final(r)@) == field_at(s, *h, index, old(r)@),
{
    match h.field_encoding {
        FIELD_ENC_VARIANT => match read_variant(r) {
            Ok(value) => Ok(
                reading_event(
                    capture_id,
                    envelope,
                    observed_ts,
                    index,
                    value,
                    RawQuality::Unstated,
                    h.dsm_timestamp_us,
                ),
            ),
            Err(_) => Err("unsupported or truncated Variant in DataSetMessage"),
        },
        FIELD_ENC_DATA_VALUE => match read_data_value(r) {
            Ok(dv) => Ok(
                reading_event(
                    capture_id,
                    envelope,
                    observed_ts,
                    index,
                    dv.value,
                    dv.quality,
                    dv.source_ts,
                ),
            ),
            Err(_) => Err("truncated DataValue in DataSetMessage"),
        },
        _ => Err("unknown FieldEncoding in DataSetMessage"),
    }
}

/// The fields from number `i` to `n`: their readings added to those before, why they break off
/// if they do, and the bytes that are left. In a delta frame each field has its index in front;
/// else its index is its number.
pub open spec fn fields_from(
    s: Source,
    h: DsmHeader,
    i: nat,
    n: nat,
    b: Seq<u8>,
    readings: Seq<EventView>,
) -> (Seq<EventView>, Option<Seq<char>>, Seq<u8>)
    decreases n - i,
{
    if i >= n {
        (readings, None, b)
    } else {
        match opc_ua_binary::take_if(h.message_type == 1, b, opc_ua_binary::take16(b)) {
            (None, r) => (readings, Some("truncated: missing DeltaFrame FieldIndex"@), r),
            (Some(given), r) => {
                let index = match given {
                    Some(k) => k,
                    None => i as u16,
                };
                match field_at(s, h, index, r) {
                    (Ok(e), r) => fields_from(s, h, i + 1, n, r, readings.push(e)),
                    (Err(reason), r) => (readings, Some(reason), r),
                }
            },
        }
    }
}

/// The bytes that are left after the data set message at the front, and its events. After an
/// anomaly that its fields break off with, its transaction counts the readings made so far; the
/// readings follow the transaction.
pub open spec fn dsm_step(s: Source, writer_id: u16, b: Seq<u8>) -> (Seq<u8>, Seq<EventView>) {
    let none = Seq::<EventView>::empty();
    match dsm_header(b) {
        (Err(reason), r) => (r, none.push(dsm_anomaly(s, reason))),
        (Ok(h), r) => if h.field_encoding == 1 {
            (
                r,
                none.push(
                    dsm_anomaly(
                        s,
                        "RawData field encoding requires out-of-band PublishedDataSet config; skipped"@,
                    ),
                ).push(dsm_tx(s.capture_id, s.envelope, writer_id, h, 0)),
            )
        } else if h.message_type == 3 {
            (r, none.push(dsm_tx(s.capture_id, s.envelope, writer_id, h, 0)))
        } else {
            match opc_ua_binary::take16(r) {
                (None, r) => (r, none.push(dsm_anomaly(s, "truncated: missing DSM FieldCount"@))),
                (Some(n), r) => {
                    let f = fields_from(s, h, 0, n as nat, r, none);
                    match f.1 {
                        None => (
                            f.2,
                            none.push(dsm_tx(s.capture_id, s.envelope, writer_id, h, n)) + f.0,
                        ),
                        Some(reason) => (
                            f.2,
                            none.push(dsm_anomaly(s, reason)).push(
                                dsm_tx(
                                    s.capture_id,
                                    s.envelope,
                                    writer_id,
                                    h,
                                    f.0.len() as u16,
                                ),
                            ) + f.0,
                        ),
                    }
                },
            }
        },
    }
}

/// Decodes the data set message at the front and adds its events.
pub fn decode_dsm(
    r: &mut Reader<'_>,
    writer_id: u16,
    capture_id: &str,
    envelope: &EventEnvelope,
    observed_ts: u64,
    decoder_name: &str,
    out: &mut Vec<BronzeEvent>,
    raw_excerpt: &[u8],
)
    ensures
        ({
            let s = Source {
                capture_id: capture_id@,
                envelope: envelope@,
                observed_ts,
                decoder: decoder_name@,
                raw: raw_excerpt@,
            };
            let d = dsm_step(s, writer_id, old(r)@);
            &&& final(r)@ == d.0
            &&& events::events(final(out)@) == events::events(old(out)@) + d.1
        }),
{
    let ghost s = Source {
        capture_id: capture_id@,
        envelope: envelope@,
        observed_ts,
        decoder: decoder_name@,
        raw: raw_excerpt@,
    };
    let mut ev = no_events();
    let h = match parse_dsm_header(r) {
        Ok(h) => h,
        Err(reason) => {
            emit(
                &mut ev,
                parse_anomaly_event(
                    capture_id,
                    envelope.copy(),
                    decoder_name,
                    "low",
                    reason,
                    raw_excerpt,
                ),
            );
            emit_all(out, ev);
            return;
        },
    };
    if h.field_encoding == FIELD_ENC_RAW_DATA {
        emit(
            &mut ev,
            parse_anomaly_event(
                capture_id,
                envelope.copy(),
                decoder_name,
                "low",
                "RawData field encoding requires out-of-band PublishedDataSet config; skipped",
                raw_excerpt,
            ),
        );
        emit_dsm_transaction(capture_id, envelope, writer_id, &h, 0, &mut ev);
        emit_all(out, ev);
        return;
    }
    if h.message_type == MSG_TYPE_KEEP_ALIVE {
        emit_dsm_transaction(capture_id, envelope, writer_id, &h, 0, &mut ev);
        emit_all(out, ev);
        return;
    }
    let field_count = match r.read_u16() {
        Ok(n) => n,
        Err(_) => {
            emit(
                &mut ev,
                parse_anomaly_event(
                    capture_id,
                    envelope.copy(),
                    decoder_name,
                    "low",
                    "truncated: missing DSM FieldCount",
                    raw_excerpt,
                ),
            );
            emit_all(out, ev);
            return;
        },
    };
    let ghost whole = fields_from(s, h, 0, field_count as nat, r@, Seq::empty());
    let mut readings = no_events();
    let mut broken: Option<&'static str> = None;
    let mut i: u16 = 0;
    while i < field_count && broken.is_none()
        invariant
            i <= field_count,
            s.capture_id == capture_id@,
            s.envelope == envelope@,
            s.observed_ts == observed_ts,
            events::events(readings@).len() == i,
            broken is None ==> whole == fields_from(
                s,
                h,
                i as nat,
                field_count as nat,
                r@,
                events::events(readings@),
            ),
            broken is Some ==> whole == (
                events::events(readings@),
                Some(broken->Some_0@),
                r@,
            ),
        decreases
                field_count - i,
                if broken is None {
                    1int
                } else {
                    0int
                },
    {
        let mut index: u16 = i;
        if h.message_type == MSG_TYPE_DATA_DELTA_FRAME {
            match r.read_u16() {
                Ok(k) => {
                    index = k;
                },
                Err(_) => {
                    broken = Some("truncated: missing DeltaFrame FieldIndex");
                },
            }
        }
        if broken.is_none() {
            match read_field(r, &h, index, capture_id, envelope, observed_ts, Ghost(s)) {
                Ok(e) => {
                    emit(&mut readings, e);
                    i = i + 1;
                },
                Err(reason) => {
                    broken = Some(reason);
                },
            }
        }
    }
    match broken {
        None => {
            emit_dsm_transaction(capture_id, envelope, writer_id, &h, field_count, &mut ev);
        },
        Some(reason) => {
            emit(
                &mut ev,
                parse_anomaly_event(
                    capture_id,
                    envelope.copy(),
                    decoder_name,
                    "low",
                    reason,
                    raw_excerpt,
                ),
            );
            emit_dsm_transaction(capture_id, envelope, writer_id, &h, i, &mut ev);
        },
    }
    emit_all(&mut ev, readings);
    emit_all(out, ev);
}

/// The events of the data set messages of several writers, one after the other, as far as
/// there are bytes.
pub open spec fn dsms_from(s: Source, writers: Seq<u16>, b: Seq<u8>) -> Seq<EventView>
    decreases writers.len(),
{
    if writers.len() == 0 || b.len() == 0 {
        Seq::empty()
    } else {
        let d = dsm_step(s, writers[0], b);
        d.1 + dsms_from(s, writers.drop_first(), d.0)
    }
}

// ---------------------------------------------------------------------------
// Datagrams
// ---------------------------------------------------------------------------

/// The publishers that have been reported, as nodes and as assets.
pub struct Seen {
    pub publishers: Set<Seq<char>>,
    pub assets: Set<Seq<char>>,
}

/// The envelope of a chunk.
pub open spec fn env(c: ChunkView) -> EnvelopeView {
    events::chunk_env(c, TransportProtocol::Udp, "opc_ua_pubsub"@)
}

/// The numbers of the writers, with commas between them.
pub open spec fn writer_list(writers: Seq<u16>) -> Seq<char> {
    text::joined(Seq::new(writers.len(), |i: int| text::dec(writers[i] as nat)), ","@)
}

fn writers_text(writers: &Vec<u16>) -> (r: String)
    ensures
        r@ == writer_list(writers@),
{
    let mut parts = no_texts();
    let mut i: usize = 0;
    while i < writers.len()
        invariant
            i <= writers.len(),
            text::texts(parts@) == Seq::new(i as nat, |j: int| text::dec(writers@[j] as nat)),
        decreases writers.len() - i,
    {
        push_text(&mut parts, dec_text(writers[i]));
        assert(text::texts(parts@) =~= Seq::new(
            (i + 1) as nat,
            |j: int| text::dec(writers@[j] as nat),
        ));
        i = i + 1;
    }
    join_texts(&parts, ",")
}

/// The list of the writers, where there are any.
pub open spec fn writers_if_any(writers: Seq<u16>) -> Option<Seq<char>> {
    if writers.len() > 0 {
        Some(writer_list(writers))
    } else {
        None
    }
}

fn writers_text_if_any(writers: &Vec<u16>) -> (r: Option<String>)
    ensures
        text::opt_view(r) == writers_if_any(writers@),
{
    if writers.len() > 0 {
        Some(writers_text(writers))
    } else {
        None
    }
}

/// The transaction of a network message.
pub open spec fn message_seen(c: ChunkView, h: HeaderView) -> EventView {
    let m = Map::empty().insert("ua_version"@, text::dec(h.ua_version as nat));
    let m = collections::insert_opt(m, "publisher_id"@, h.publisher_id);
    let m = collections::insert_opt(m, "publisher_id_type"@, h.publisher_id_type);
    let m = collections::insert_opt(m, "writer_group_id"@, text::opt_dec(h.writer_group_id));
    let m = collections::insert_opt(m, "group_version"@, text::opt_dec(h.group_version));
    let m = collections::insert_opt(
        m,
        "network_message_number"@,
        text::opt_dec(h.network_message_number),
    );
    let m = collections::insert_opt(m, "sequence_number"@, text::opt_dec(h.sequence_number));
    let m = collections::insert_opt(m, "dataset_class_id"@, h.dataset_class_id);
    let m = m.insert("dataset_writer_count"@, text::dec(h.dataset_writer_ids.len()));
    events::tx_view(
        c.capture_id,
        env(c),
        events::plain_tx(
            "opc_ua_pubsub_publish"@,
            "observed"@,
            Some(
                "UADP NetworkMessage v"@ + text::dec(h.ua_version as nat) + " publisher="@ + (
                match h.publisher_id {
                    Some(p) => p,
                    None => "<none>"@,
                }),
            ),
            collections::insert_opt(
                m,
                "dataset_writer_ids"@,
                writers_if_any(h.dataset_writer_ids),
            ),
        ),
    )
}

/// A publisher as a node of the network.
pub open spec fn publisher_node(c: ChunkView, h: HeaderView, publisher: Seq<char>) -> EventView {
    let m = collections::insert_opt(
        Map::empty(),
        "dataset_writer_ids"@,
        writers_if_any(h.dataset_writer_ids),
    );
    events::topology_event_view(
        c.capture_id,
        env(c),
        TopologyView {
            observation_type: "opc_ua_pubsub_publisher"@,
            local_id: publisher,
            remote_id: None,
            description: Some("OPC UA PubSub publisher"@),
            capabilities: Seq::empty(),
            metadata: collections::insert_opt(
                m,
                "writer_group_id"@,
                text::opt_dec(h.writer_group_id),
            ),
        },
    )
}

/// A publisher as an asset.
pub open spec fn publisher_asset(c: ChunkView, h: HeaderView, publisher: Seq<char>) -> EventView {
    events::asset_event_view(
        c.capture_id,
        env(c),
        events::asset_view(
            "opc_ua_pubsub_publisher:"@ + publisher,
            Some("opc_ua_publisher"@),
            None,
            None,
            None,
            "opc_ua_pubsub"@,
            collections::insert_opt(
                Map::empty(),
                "publisher_id_type"@,
                h.publisher_id_type,
            ).insert("publisher_id"@, publisher),
        ),
    )
}

/// What a header adds to the publishers that have been reported.
pub open spec fn seen_after(s: Seen, h: HeaderView) -> Seen {
    match h.publisher_id {
        Some(p) => Seen { publishers: s.publishers.insert(p), assets: s.assets.insert(p) },
        None => s,
    }
}

/// The reports of a publisher that is new.
pub open spec fn publisher_events(s: Seen, c: ChunkView, h: HeaderView) -> Seq<EventView> {
    match h.publisher_id {
        Some(p) => events::push_if(
            events::push_if(
                Seq::empty(),
                !s.publishers.contains(p),
                publisher_node(c, h, p),
            ),
            !s.assets.contains(p),
            publisher_asset(c, h, p),
        ),
        None => Seq::empty(),
    }
}

/// The events of the data set messages in a datagram: those of the writers that the header
/// names, or a single one without a writer.
pub open spec fn data_events(c: ChunkView, h: HeaderView) -> Seq<EventView> {
    let s = Source {
        capture_id: c.capture_id,
        envelope: env(c),
        observed_ts: c.timestamp.micros(),
        decoder: "opc_ua_pubsub"@,
        raw: c.payload,
    };
    let b = c.payload.subrange(h.payload_start, c.payload.len() as int);
    if h.payload_start >= c.payload.len() {
        Seq::empty()
    } else if h.dataset_writer_ids.len() == 0 {
        dsm_step(s, 0, b).1
    } else {
        dsms_from(s, h.dataset_writer_ids, b)
    }
}

/// What a datagram adds to what has been reported, and the events for it: the transaction of
/// the message, an anomaly where its version is not 1, its publisher where it is new, and the
/// data set messages.
pub open spec fn step(s: Seen, c: ChunkView) -> (Seen, Seq<EventView>) {
    match header_of(c.payload) {
        Err(reason) => (
            s,
            Seq::<EventView>::empty().push(
                events::anomaly_view(
                    c.capture_id,
                    env(c),
                    "opc_ua_pubsub"@,
                    "low"@,
                    reason,
                    c.payload,
                ),
            ),
        ),
        Ok(h) => (
            seen_after(s, h),
            events::push_if(
                Seq::<EventView>::empty().push(message_seen(c, h)),
                h.ua_version != 1,
                events::anomaly_view(
                    c.capture_id,
                    env(c),
                    "opc_ua_pubsub"@,
                    "medium"@,
                    "unexpected UADP ua_version (expected 1)"@,
                    c.payload,
                ),
            ) + publisher_events(s, c, h) + data_events(c, h),
        ),
    }
}

/// The PubSub decoder.
pub struct OpcUaPubSubDecoder {
    pub seen_publishers: KeySet<String>,
    pub seen_assets: KeySet<String>,
}

impl View for OpcUaPubSubDecoder {
    type V = Seen;

    open spec fn view(&self) -> Seen {
        Seen { publishers: self.seen_publishers@, assets: self.seen_assets@ }
    }
}

impl Default for OpcUaPubSubDecoder {
    fn default() -> (r: Self)
        ensures
            r@ == (Seen { publishers: Set::empty(), assets: Set::empty() }),
    {
        OpcUaPubSubDecoder { seen_publishers: KeySet::new(), seen_assets: KeySet::new() }
    }
}

impl OpcUaPubSubDecoder {
    /// The name of the decoder.
    pub fn name(&self) -> (r: &'static str)
        ensures
            r@ == "opc_ua_pubsub"@,
    {
        "opc_ua_pubsub"
    }

    /// The traffic that the decoder asks for.
    pub fn interest(&self) -> (r: &'static [DecoderInterest])
        ensures
            r@ == seq![DecoderInterest::UdpPort(4840)],
    {
        &[DecoderInterest::UdpPort(4840)]
    }

    /// Takes in a datagram.
    pub fn on_datagram(&mut self, chunk: &StreamChunk<'_>, out: &mut Vec<BronzeEvent>)
        ensures
            final(self)@ == step(old(self)@, chunk@).0,
            events::events(final(out)@) == events::events(old(out)@) + step(
                old(self)@,
                chunk@,
            ).1,
    {
        let mut ev = no_events();
        let envelope = chunk_envelope(chunk, TransportProtocol::Udp, "opc_ua_pubsub");
        let h = match parse_network_message(chunk.payload) {
            Ok(h) => h,
            Err(reason) => {
                emit(
                    &mut ev,
                    parse_anomaly_event(
                        chunk.capture_id,
                        envelope,
                        "opc_ua_pubsub",
                        "low",
                        reason,
                        chunk.payload,
                    ),
                );
                emit_all(out, ev);
                return;
            },
        };
        emit(&mut ev, self.message_event(chunk, &h));
        if h.ua_version != 1 {
            emit(
                &mut ev,
                parse_anomaly_event(
                    chunk.capture_id,
                    envelope,
                    "opc_ua_pubsub",
                    "medium",
                    "unexpected UADP ua_version (expected 1)",
                    chunk.payload,
                ),
            );
        }
        let mut found = no_events();
        self.report_publisher(chunk, &h, &mut found);
        emit_all(&mut ev, found);
        let mut data = no_events();
        self.decode_data(chunk, &h, &mut data);
        emit_all(&mut ev, data);
        emit_all(out, ev);
    }

    fn message_event(&self, chunk: &StreamChunk<'_>, h: &NetworkMessageHeader) -> (r: BronzeEvent)
        ensures
            r@ == message_seen(chunk@, h@),
    {
        let mut m = Attributes::new();
        m.put_dec("ua_version", h.ua_version);
        m.insert_some("publisher_id", opt_copy(&h.publisher_id));
        m.insert_some("publisher_id_type", opt_owned(h.publisher_id_type));
        m.put_some_dec("writer_group_id", h.writer_group_id);
        m.put_some_dec("group_version", h.group_version);
        m.put_some_dec("network_message_number", h.network_message_number);
        m.put_some_dec("sequence_number", h.sequence_number);
        m.insert_some("dataset_class_id", opt_copy(&h.dataset_class_id));
        m.put_dec("dataset_writer_count", h.dataset_writer_ids.len());
        m.insert_some("dataset_writer_ids", writers_text_if_any(&h.dataset_writer_ids));
        let publisher = match &h.publisher_id {
            Some(p) => p.as_str(),
            None => "<none>",
        };
        let s = cat("UADP NetworkMessage v", dec_text(h.ua_version).as_str());
        let s = cat(cat(s.as_str(), " publisher=").as_str(), publisher);
        transaction_event(
            chunk.capture_id,
            chunk_envelope(chunk, TransportProtocol::Udp, "opc_ua_pubsub"),
            plain_transaction("opc_ua_pubsub_publish".to_owned(), "observed", Some(s), m),
        )
    }

    fn report_publisher(
        &mut self,
        chunk: &StreamChunk<'_>,
        h: &NetworkMessageHeader,
        out: &mut Vec<BronzeEvent>,
    )
        ensures
            final(self)@ == seen_after(old(self)@, h@),
            events::events(final(out)@) == events::events(old(out)@) + publisher_events(
                old(self)@,
                chunk@,
                h@,
            ),
    {
        let mut ev = no_events();
        if let Some(p) = &h.publisher_id {
            let envelope = chunk_envelope(chunk, TransportProtocol::Udp, "opc_ua_pubsub");
            if self.seen_publishers.insert(p.as_str().to_owned()) {
                let mut metadata = Attributes::new();
                metadata.insert_some(
                    "dataset_writer_ids",
                    writers_text_if_any(&h.dataset_writer_ids),
                );
                metadata.put_some_dec("writer_group_id", h.writer_group_id);
                emit(
                    &mut ev,
                    topology_event(
                        chunk.capture_id,
                        envelope.copy(),
                        TopologyObservation {
                            observation_type: "opc_ua_pubsub_publisher".to_owned(),
                            local_id: p.as_str().to_owned(),
                            remote_id: None,
                            description: Some("OPC UA PubSub publisher".to_owned()),
                            capabilities: no_texts(),
                            metadata,
                        },
                    ),
                );
            }
            if self.seen_assets.insert(p.as_str().to_owned()) {
                let mut ids = Attributes::new();
                ids.insert_some("publisher_id_type", opt_owned(h.publisher_id_type));
                ids.put("publisher_id", p.as_str());
                emit(
                    &mut ev,
                    asset_event(
                        chunk.capture_id,
                        envelope,
                        asset_observation(
                            cat("opc_ua_pubsub_publisher:", p.as_str()),
                            Some("opc_ua_publisher"),
                            None,
                            None,
                            None,
                            "opc_ua_pubsub",
                            ids,
                        ),
                    ),
                );
            }
        }
        emit_all(out, ev);
    }

    fn decode_data(
        &self,
        chunk: &StreamChunk<'_>,
        h: &NetworkMessageHeader,
        out: &mut Vec<BronzeEvent>,
    )
        requires
            h.payload_start <= chunk.payload@.len(),
        ensures
            events::events(final(out)@) == events::events(old(out)@) + data_events(chunk@, h@),
    {
        let mut ev = no_events();
        let p = chunk.payload;
        if h.payload_start < p.len() {
            let envelope = chunk_envelope(chunk, TransportProtocol::Udp, "opc_ua_pubsub");
            let observed_ts = chunk.timestamp.timestamp_micros();
            let mut r = Reader::new(cut(p, h.payload_start, p.len()));
            let ghost s = Source {
                capture_id: chunk.capture_id@,
                envelope: envelope@,
                observed_ts,
                decoder: "opc_ua_pubsub"@,
                raw: chunk.payload@,
            };
            if h.dataset_writer_ids.len() == 0 {
                decode_dsm(
                    &mut r,
                    0,
                    chunk.capture_id,
                    &envelope,
                    observed_ts,
                    "opc_ua_pubsub",
                    &mut ev,
                    p,
                );
            } else {
                let ghost whole = dsms_from(s, h.dataset_writer_ids@, r@);
                let mut i: usize = 0;
                assert(h.dataset_writer_ids@.skip(0) =~= h.dataset_writer_ids@);
                while i < h.dataset_writer_ids.len() && r.remaining() > 0
                    invariant
                        i <= h.dataset_writer_ids.len(),
                        p@ == chunk.payload@,
                        s == (Source {
                            capture_id: chunk.capture_id@,
                            envelope: envelope@,
                            observed_ts,
                            decoder: "opc_ua_pubsub"@,
                            raw: chunk.payload@,
                        }),
                        whole == events::events(ev@) + dsms_from(
                            s,
                            h.dataset_writer_ids@.skip(i as int),
                            r@,
                        ),
                    decreases h.dataset_writer_ids.len() - i,
                {
                    proof {
                        let w = h.dataset_writer_ids@.skip(i as int);
                        assert(w[0] == h.dataset_writer_ids@[i as int]);
                        assert(w.drop_first() =~= h.dataset_writer_ids@.skip(i + 1));
                        let d = dsm_step(s, w[0], r@);
                        assert(whole =~= (events::events(ev@) + d.1) + dsms_from(
                            s,
                            w.drop_first(),
                            d.0,
                        ));
                    }
                    decode_dsm(
                        &mut r,
                        h.dataset_writer_ids[i],
                        chunk.capture_id,
                        &envelope,
                        observed_ts,
                        "opc_ua_pubsub",
                        &mut ev,
                        p,
                    );
                    i = i + 1;
                }
                assert(whole =~= events::events(ev@));
            }
        }
        emit_all(out, ev);
    }
}

// ---------------------------------------------------------------------------
// Laws
// ---------------------------------------------------------------------------

/// What has been reported after a run of datagrams.
pub open spec fn after(s: Seen, run: Seq<ChunkView>) -> Seen
    decreases run.len(),
{
    if run.len() == 0 {
        s
    } else {
        after(step(s, run[0]).0, run.drop_first())
    }
}

proof fn seen_grows(s: Seen, run: Seq<ChunkView>)
    ensures
        s.publishers.subset_of(after(s, run).publishers),
        s.assets.subset_of(after(s, run).assets),
    decreases run.len(),
{
    if run.len() > 0 {
        seen_grows(step(s, run[0]).0, run.drop_first());
    }
}

/// A publisher is reported once: after a datagram of it and whatever follows, another datagram of
/// it gives no report of the publisher.
pub proof fn publisher_is_reported_once(
    s: Seen,
    first: ChunkView,
    f: HeaderView,
    between: Seq<ChunkView>,
    again: ChunkView,
    g: HeaderView,
)
    requires
        header_of(first.payload) == Ok::<HeaderView, Seq<char>>(f),
        f.publisher_id is Some,
        f.publisher_id == g.publisher_id,
    ensures
        publisher_events(after(step(s, first).0, between), again, g).len() == 0,
{
    seen_grows(step(s, first).0, between);
}

/// A publisher that is new is reported as a node and as an asset.
pub proof fn new_publisher_is_reported(s: Seen, c: ChunkView, h: HeaderView)
    requires
        h.publisher_id is Some,
        !s.publishers.contains(h.publisher_id->Some_0),
        !s.assets.contains(h.publisher_id->Some_0),
    ensures
        publisher_events(s, c, h).len() == 2,
        publisher_events(s, c, h)[0].family is TopologyObservation,
        publisher_events(s, c, h)[1].family is AssetObservation,
{
}

/// Fields that do not break off give one reading each; where they do, those before have theirs.
/// In a frame that is not a delta frame, a reading names the place of its field.
pub proof fn every_field_is_one_reading(s: Source, h: DsmHeader, n: u16, b: Seq<u8>)
    ensures
        ({
            let f = fields_from(s, h, 0, n as nat, b, Seq::empty());
            &&& f.1 is None ==> f.0.len() == n
            &&& f.1 is Some ==> f.0.len() < n
            &&& forall|j: int|
                0 <= j < f.0.len() ==> (#[trigger] f.0[j]).family is ProcessReading
            &&& h.message_type != 1 ==> forall|j: int|
                0 <= j < f.0.len() ==> (#[trigger] f.0[j]).family->ProcessReading_0.point_id == (
                PointIdentifier::OpcUaNode {
                    namespace_index: 0,
                    identifier: OpcUaNodeId::Numeric(j as u32),
                })
        }),
{
    fields_are_readings(s, h, 0, n as nat, b, Seq::empty());
}

proof fn fields_are_readings(
    s: Source,
    h: DsmHeader,
    i: nat,
    n: nat,
    b: Seq<u8>,
    readings: Seq<EventView>,
)
    requires
        i <= n <= 0xFFFF,
        readings.len() == i,
        forall|j: int|
            0 <= j < readings.len() ==> (#[trigger] readings[j]).family is ProcessReading,
        h.message_type != 1 ==> forall|j: int|
            0 <= j < readings.len() ==> (#[trigger] readings[j]).family->ProcessReading_0.point_id
                == (PointIdentifier::OpcUaNode {
                namespace_index: 0,
                identifier: OpcUaNodeId::Numeric(j as u32),
            }),
    ensures
        ({
            let f = fields_from(s, h, i, n, b, readings);
            &&& f.1 is None ==> f.0.len() == n
            &&& f.1 is Some ==> f.0.len() < n
            &&& forall|j: int|
                0 <= j < f.0.len() ==> (#[trigger] f.0[j]).family is ProcessReading
            &&& h.message_type != 1 ==> forall|j: int|
                0 <= j < f.0.len() ==> (#[trigger] f.0[j]).family->ProcessReading_0.point_id == (
                PointIdentifier::OpcUaNode {
                    namespace_index: 0,
                    identifier: OpcUaNodeId::Numeric(j as u32),
                })
        }),
    decreases n - i,
{
    if i < n {
        match opc_ua_binary::take_if(h.message_type == 1, b, opc_ua_binary::take16(b)) {
            (None, r) => {},
            (Some(given), r) => {
                let index = match given {
                    Some(k) => k,
                    None => i as u16,
                };
                match field_at(s, h, index, r) {
                    (Ok(e), r2) => {
                        fields_are_readings(s, h, i + 1, n, r2, readings.push(e));
                    },
                    (Err(reason), r2) => {},
                }
            },
        }
    }
}

/// A data set message gives one transaction, unless it ends before its header or the number of
/// its fields is read; then it gives an anomaly alone.
pub proof fn every_data_set_message_is_one_transaction(s: Source, writer_id: u16, b: Seq<u8>)
    ensures
        ({
            let d = dsm_step(s, writer_id, b);
            let h = dsm_header(b);
            let counted = h.0 is Ok && (h.0->Ok_0.field_encoding == 1 || h.0->Ok_0.message_type == 3
                || h.1.len() >= 2);
            &&& events::tx_count(d.1) == (if counted {
                1nat
            } else {
                0nat
            })
            &&& !counted ==> d.1.len() == 1 && d.1[0].family is ParseAnomaly
        }),
{
    let d = dsm_step(s, writer_id, b);
    let h = dsm_header(b);
    reveal_with_fuel(events::tx_count, 3);
    if h.0 is Ok && h.0->Ok_0.field_encoding != 1 && h.0->Ok_0.message_type != 3 && h.1.len() >= 2 {
        let hdr = h.0->Ok_0;
        let n = opc_ua_binary::take16(h.1).0->Some_0;
        let rest = opc_ua_binary::take16(h.1).1;
        let f = fields_from(s, hdr, 0, n as nat, rest, Seq::empty());
        every_field_is_one_reading(s, hdr, n, rest);
        events::readings_count_as_nothing(f.0);
        let none = Seq::<EventView>::empty();
        match f.1 {
            None => {
                let head = none.push(dsm_tx(s.capture_id, s.envelope, writer_id, hdr, n));
                events::counts_add(head, f.0);
                assert(head.drop_last().len() == 0);
            },
            Some(reason) => {
                let head = none.push(dsm_anomaly(s, reason)).push(
                    dsm_tx(s.capture_id, s.envelope, writer_id, hdr, f.0.len() as u16),
                );
                events::counts_add(head, f.0);
                assert(head.drop_last().len() == 1);
                assert(head.drop_last().last() == head[0]);
                assert(head.drop_last().drop_last().len() == 0);
            },
        }
    } else {
        assert(d.1.len() >= 1 ==> d.1.drop_last().len() == d.1.len() - 1);
        assert(d.1.len() >= 2 ==> d.1.drop_last().last() == d.1[0]);
    }
}

/// Raw data and keep-alives have no readings.
pub proof fn raw_data_and_keep_alives_have_no_readings(s: Source, writer_id: u16, b: Seq<u8>)
    requires
        dsm_header(b).0 is Ok,
        dsm_header(b).0->Ok_0.field_encoding == 1 || dsm_header(b).0->Ok_0.message_type == 3,
    ensures
        forall|i: int|
            0 <= i < dsm_step(s, writer_id, b).1.len() ==> !((#[trigger] dsm_step(
                s,
                writer_id,
                b,
            ).1[i]).family is ProcessReading),
{
}

/// Every datagram with a readable header is first of all one transaction of the network message,
/// and where its version is not 1 the next event is the anomaly on it.
pub proof fn message_comes_first(s: Seen, c: ChunkView, h: HeaderView)
    requires
        header_of(c.payload) == Ok::<HeaderView, Seq<char>>(h),
    ensures
        step(s, c).1.len() >= 1,
        step(s, c).1[0] == message_seen(c, h),
        h.ua_version != 1 ==> step(s, c).1.len() >= 2 && step(s, c).1[1] == events::anomaly_view(
            c.capture_id,
            env(c),
            "opc_ua_pubsub"@,
            "medium"@,
            "unexpected UADP ua_version (expected 1)"@,
            c.payload,
        ),
{
}

proof fn bits_are_masks(b: u8)
    ensures
        bit(b, 0) == (b & 0x01 != 0),
        bit(b, 1) == (b & 0x02 != 0),
        bit(b, 2) == (b & 0x04 != 0),
        bit(b, 3) == (b & 0x08 != 0),
        bit(b, 4) == (b & 0x10 != 0),
        bit(b, 5) == (b & 0x20 != 0),
        bit(b, 6) == (b & 0x40 != 0),
        bit(b, 7) == (b & 0x80 != 0),
        (b >> 1) & 0x03 == b / 2 % 4,
        b & 0x0F == b % 16,
        b & 0x07 == b % 8,
{
    assert({
        &&& ((b >> 0) & 1 == 1) == (b & 0x01 != 0)
        &&& ((b >> 1) & 1 == 1) == (b & 0x02 != 0)
        &&& ((b >> 2) & 1 == 1) == (b & 0x04 != 0)
        &&& ((b >> 3) & 1 == 1) == (b & 0x08 != 0)
        &&& ((b >> 4) & 1 == 1) == (b & 0x10 != 0)
        &&& ((b >> 5) & 1 == 1) == (b & 0x20 != 0)
        &&& ((b >> 6) & 1 == 1) == (b & 0x40 != 0)
        &&& ((b >> 7) & 1 == 1) == (b & 0x80 != 0)
        &&& (b >> 1) & 0x03 == b / 2 % 4
        &&& b & 0x0F == b % 16
        &&& b & 0x07 == b % 8
    }) by (bit_vector);
}

proof fn dsm_versions_by_parts(
    b: Seq<u8>,
    f1: u8,
    f2: u8,
    sequence: Option<u16>,
    ticks: Option<u64>,
    p4: Seq<u8>,
    pico: Option<u16>,
    p5: Seq<u8>,
    status: Option<u16>,
    p6: Seq<u8>,
    major: Option<u32>,
    p7: Seq<u8>,
    minor: Option<u32>,
    rest: Seq<u8>,
    r4: opc_ua_binary::Read<Option<u64>>,
    r5: opc_ua_binary::Read<Option<u16>>,
    r6: opc_ua_binary::Read<Option<u16>>,
    r7: opc_ua_binary::Read<Option<u32>>,
    r8: opc_ua_binary::Read<Option<u32>>,
)
    requires
        r4 == opc_ua_binary::take_if(bit(f2, 4), b, opc_ua_binary::take64(b)),
        r4 == (Some(ticks), p4),
        r5 == opc_ua_binary::take_if(bit(f2, 5), p4, opc_ua_binary::take16(p4)),
        r5 == (Some(pico), p5),
        r6 == opc_ua_binary::take_if(bit(f1, 4), p5, opc_ua_binary::take16(p5)),
        r6 == (Some(status), p6),
        r7 == opc_ua_binary::take_if(bit(f1, 5), p6, opc_ua_binary::take32(p6)),
        r7 == (Some(major), p7),
        r8 == opc_ua_binary::take_if(bit(f1, 6), p7, opc_ua_binary::take32(p7)),
        r8 == (Some(minor), rest),
    ensures
        dsm_header_rest(f1, f2, sequence, b).1 == rest,
        dsm_header_rest(f1, f2, sequence, b).0 == Ok::<DsmHeader, Seq<char>>(
            DsmHeader {
                field_encoding: (f1 >> 1) & 0x03,
                message_type: f2 & 0x0F,
                sequence_number: sequence,
                dsm_timestamp_us: match ticks {
                    Some(t) => opc_ua_binary::unix_micros(opc_ua_binary::signed64(t)),
                    None => None,
                },
                status_code: status,
            },
        ),
{
}

/// The parts of a data set message behind its sequence number that its flags name, each in its
/// place and width, and the rest.
#[verifier::opaque]
pub open spec fn data_set_versions(
    f1: u8,
    g: u8,
    ticks: u64,
    pico: u16,
    status: u16,
    major: u32,
    minor: u32,
    rest: Seq<u8>,
) -> Seq<u8> {
    let p7 = bytes::with_part(f1 & 0x40 != 0, bytes::le32_bytes(minor), rest);
    let p6 = bytes::with_part(f1 & 0x20 != 0, bytes::le32_bytes(major), p7);
    let p5 = bytes::with_part(f1 & 0x10 != 0, bytes::le16_bytes(status), p6);
    let p4 = bytes::with_part(g & 0x20 != 0, bytes::le16_bytes(pico), p5);
    bytes::with_part(g & 0x10 != 0, bytes::le64_bytes(ticks), p4)
}

/// What stands behind the flags of a data set message: the sequence number, if it is there, and
/// the other parts.
#[verifier::opaque]
pub open spec fn data_set_parts(
    f1: u8,
    g: u8,
    sequence: u16,
    ticks: u64,
    pico: u16,
    status: u16,
    major: u32,
    minor: u32,
    rest: Seq<u8>,
) -> Seq<u8> {
    bytes::with_part(
        f1 & 0x08 != 0,
        bytes::le16_bytes(sequence),
        data_set_versions(f1, g, ticks, pico, status, major, minor, rest),
    )
}

/// The bytes of a data set message: the first flags, the second where the first name them, and the
/// parts that they name.
pub open spec fn data_set_bytes(
    f1: u8,
    f2: u8,
    sequence: u16,
    ticks: u64,
    pico: u16,
    status: u16,
    major: u32,
    minor: u32,
    rest: Seq<u8>,
) -> Seq<u8> {
    let g: u8 = if f1 & 0x80 != 0 {
        f2
    } else {
        0
    };
    seq![f1] + bytes::with_part(
        f1 & 0x80 != 0,
        seq![f2],
        data_set_parts(f1, g, sequence, ticks, pico, status, major, minor, rest),
    )
}

proof fn data_set_versions_read_back(
    f1: u8,
    g: u8,
    sequence: Option<u16>,
    ticks: u64,
    pico: u16,
    status: u16,
    major: u32,
    minor: u32,
    rest: Seq<u8>,
)
    requires
        116_444_736_000_000_000 <= ticks <= 0x7FFF_FFFF_FFFF_FFFF,
    ensures
        ({
            let b = data_set_versions(f1, g, ticks, pico, status, major, minor, rest);
            &&& dsm_header_rest(f1, g, sequence, b).1 == rest
            &&& dsm_header_rest(f1, g, sequence, b).0 == Ok::<DsmHeader, Seq<char>>(
                DsmHeader {
                    field_encoding: (f1 >> 1) & 0x03,
                    message_type: g & 0x0F,
                    sequence_number: sequence,
                    dsm_timestamp_us: if g & 0x10 != 0 {
                        Some(((ticks - 116_444_736_000_000_000) / 10) as u64)
                    } else {
                        None
                    },
                    status_code: if f1 & 0x10 != 0 {
                        Some(status)
                    } else {
                        None
                    },
                },
            )
        }),
{
    reveal(data_set_versions);
    let p7 = bytes::with_part(f1 & 0x40 != 0, bytes::le32_bytes(minor), rest);
    let p6 = bytes::with_part(f1 & 0x20 != 0, bytes::le32_bytes(major), p7);
    let p5 = bytes::with_part(f1 & 0x10 != 0, bytes::le16_bytes(status), p6);
    let p4 = bytes::with_part(g & 0x20 != 0, bytes::le16_bytes(pico), p5);
    let p3 = bytes::with_part(g & 0x10 != 0, bytes::le64_bytes(ticks), p4);
    bits_are_masks(f1);
    bits_are_masks(g);
    opc_ua_binary::optional_number_is_taken(g & 0x10 != 0, 0, 0, ticks, p4);
    opc_ua_binary::optional_number_is_taken(g & 0x20 != 0, pico, 0, 0, p5);
    opc_ua_binary::optional_number_is_taken(f1 & 0x10 != 0, status, 0, 0, p6);
    opc_ua_binary::optional_number_is_taken(f1 & 0x20 != 0, 0, major, 0, p7);
    opc_ua_binary::optional_number_is_taken(f1 & 0x40 != 0, 0, minor, 0, rest);
    let t: Option<u64> = if g & 0x10 != 0 {
        Some(ticks)
    } else {
        None
    };
    dsm_versions_by_parts(
        p3,
        f1,
        g,
        sequence,
        t,
        p4,
        if g & 0x20 != 0 {
            Some(pico)
        } else {
            None
        },
        p5,
        if f1 & 0x10 != 0 {
            Some(status)
        } else {
            None
        },
        p6,
        if f1 & 0x20 != 0 {
            Some(major)
        } else {
            None
        },
        p7,
        if f1 & 0x40 != 0 {
            Some(minor)
        } else {
            None
        },
        rest,
        opc_ua_binary::take_if(bit(g, 4), p3, opc_ua_binary::take64(p3)),
        opc_ua_binary::take_if(bit(g, 5), p4, opc_ua_binary::take16(p4)),
        opc_ua_binary::take_if(bit(f1, 4), p5, opc_ua_binary::take16(p5)),
        opc_ua_binary::take_if(bit(f1, 5), p6, opc_ua_binary::take32(p6)),
        opc_ua_binary::take_if(bit(f1, 6), p7, opc_ua_binary::take32(p7)),
    );
}

/// The header of a data set message gives back every part that its flags name, and leaves what
/// stands behind the last of them: the sequence number has two bytes, the time eight, its
/// picoseconds two, the status two, the major and the minor version four each.
pub proof fn data_set_header_reads_back(
    f1: u8,
    f2: u8,
    sequence: u16,
    ticks: u64,
    pico: u16,
    status: u16,
    major: u32,
    minor: u32,
    rest: Seq<u8>,
)
    requires
        116_444_736_000_000_000 <= ticks <= 0x7FFF_FFFF_FFFF_FFFF,
    ensures
        ({
            let g: u8 = if f1 & 0x80 != 0 {
                f2
            } else {
                0
            };
            let d = dsm_header(
                data_set_bytes(f1, f2, sequence, ticks, pico, status, major, minor, rest),
            );
            &&& d.1 == rest
            &&& d.0 == Ok::<DsmHeader, Seq<char>>(
                DsmHeader {
                    field_encoding: (f1 / 2 % 4) as u8,
                    message_type: (g % 16) as u8,
                    sequence_number: if f1 & 0x08 != 0 {
                        Some(sequence)
                    } else {
                        None
                    },
                    dsm_timestamp_us: if g & 0x10 != 0 {
                        Some(((ticks - 116_444_736_000_000_000) / 10) as u64)
                    } else {
                        None
                    },
                    status_code: if f1 & 0x10 != 0 {
                        Some(status)
                    } else {
                        None
                    },
                },
            )
        }),
{
    let g: u8 = if f1 & 0x80 != 0 {
        f2
    } else {
        0
    };
    let p2 = data_set_parts(f1, g, sequence, ticks, pico, status, major, minor, rest);
    let p1 = bytes::with_part(f1 & 0x80 != 0, seq![f2], p2);
    bits_are_masks(f1);
    bits_are_masks(g);
    opc_ua_binary::numbers_are_taken_off_the_front(f1, 0, 0, 0, p1);
    second_flags_are_taken(f1 & 0x80 != 0, f2, p2);
    let p3 = data_set_versions(f1, g, ticks, pico, status, major, minor, rest);
    assert(p2 == bytes::with_part(f1 & 0x08 != 0, bytes::le16_bytes(sequence), p3)) by {
        reveal(data_set_parts);
    }
    opc_ua_binary::optional_number_is_taken(f1 & 0x08 != 0, sequence, 0, 0, p3);
    let sequence_read: Option<u16> = if f1 & 0x08 != 0 {
        Some(sequence)
    } else {
        None
    };
    data_set_versions_read_back(f1, g, sequence_read, ticks, pico, status, major, minor, rest);
    assert(dsm_header(seq![f1] + p1) == dsm_header_rest(f1, g, sequence_read, p3));
}

proof fn second_flags_are_taken(there: bool, f2: u8, rest: Seq<u8>)
    ensures
        ({
            let b = bytes::with_part(there, seq![f2], rest);
            opc_ua_binary::take_if(there, b, opc_ua_binary::take8(b)) == (
                Some(
                    if there {
                        Some(f2)
                    } else {
                        None
                    },
                ),
                rest,
            )
        }),
{
    reveal(bytes::with_part);
    opc_ua_binary::numbers_are_taken_off_the_front(f2, 0, 0, 0, rest);
}

/// Fields of a data set message in variant encoding, each a signed number of 32 bits; in a delta
/// frame the index of the field stands before it.
pub open spec fn field_bytes(delta: bool, fields: Seq<(u16, i32)>, rest: Seq<u8>) -> Seq<u8>
    decreases fields.len(),
{
    if fields.len() == 0 {
        rest
    } else {
        let after = field_bytes(delta, fields.drop_first(), rest);
        bytes::with_part(
            delta,
            bytes::le16_bytes(fields[0].0),
            seq![6u8] + (bytes::le32_bytes((fields[0].1 as int % 0x1_0000_0000) as u32) + after),
        )
    }
}

proof fn fields_read_back_from(
    s: Source,
    h: DsmHeader,
    fields: Seq<(u16, i32)>,
    i: nat,
    rest: Seq<u8>,
    readings: Seq<EventView>,
)
    requires
        h.field_encoding == 0,
        i + fields.len() <= 0xFFFF,
    ensures
        ({
            let f = fields_from(
                s,
                h,
                i,
                i + fields.len(),
                field_bytes(h.message_type == 1, fields, rest),
                readings,
            );
            &&& f.1 is None
            &&& f.2 == rest
            &&& f.0.len() == readings.len() + fields.len()
            &&& forall|j: int| 0 <= j < readings.len() ==> f.0[j] == readings[j]
            &&& forall|j: int|
                readings.len() <= j < f.0.len() ==> (#[trigger] f.0[j]).family
                    == FamilyView::ProcessReading(
                    ReadingView {
                        source_protocol: "opc_ua_pubsub"@,
                        point_id: PointIdentifier::OpcUaNode {
                            namespace_index: 0,
                            identifier: OpcUaNodeId::Numeric(
                                if h.message_type == 1 {
                                    fields[j - readings.len()].0 as u32
                                } else {
                                    (i + j - readings.len()) as u32
                                },
                            ),
                        },
                        value: PointValueView::Int32(fields[j - readings.len()].1),
                        quality: RawQuality::Unstated,
                        source_ts: h.dsm_timestamp_us,
                        observed_ts: s.observed_ts,
                    },
                )
        }),
    decreases fields.len(),
{
    if fields.len() > 0 {
        let more = fields.drop_first();
        let delta = h.message_type == 1;
        let after = field_bytes(delta, more, rest);
        let n = (fields[0].1 as int % 0x1_0000_0000) as u32;
        let value = seq![6u8] + (bytes::le32_bytes(n) + after);
        opc_ua_binary::optional_number_is_taken(delta, fields[0].0, 0, 0, value);
        opc_ua_binary::word_variants_read_back(0, 0, fields[0].1, 0, after);
        let index: u16 = if delta {
            fields[0].0
        } else {
            i as u16
        };
        let e = reading_of(
            s,
            index,
            PointValueView::Int32(fields[0].1),
            RawQuality::Unstated,
            h.dsm_timestamp_us,
        );
        fields_read_back_from(s, h, more, i + 1, rest, readings.push(e));
        let all = readings.push(e);
        let f = fields_from(s, h, i + 1, i + fields.len(), after, all);
        assert(fields_from(
            s,
            h,
            i,
            i + fields.len(),
            field_bytes(delta, fields, rest),
            readings,
        ) == f);
        assert forall|j: int| 0 <= j < readings.len() implies f.0[j] == readings[j] by {
            assert(f.0[j] == all[j]);
        }
        assert forall|j: int| readings.len() < j < fields.len() + readings.len() implies fields[j
            - readings.len()] == #[trigger] more[j - all.len()] by {}
        assert(f.0[readings.len() as int] == all[readings.len() as int]);
    }
}

/// The fields of a data set message are given back as readings, one each, in their order: with the
/// value that was written, the time of the message, and as identifier the index that a delta frame
/// gives or the place in another frame. What stands behind them is left.
pub proof fn fields_read_back(s: Source, h: DsmHeader, fields: Seq<(u16, i32)>, rest: Seq<u8>)
    requires
        h.field_encoding == 0,
        fields.len() <= 0xFFFF,
    ensures
        ({
            let f = fields_from(
                s,
                h,
                0,
                fields.len(),
                field_bytes(h.message_type == 1, fields, rest),
                Seq::empty(),
            );
            &&& f.1 is None
            &&& f.2 == rest
            &&& f.0.len() == fields.len()
            &&& forall|j: int|
                0 <= j < fields.len() ==> (#[trigger] f.0[j]).family == FamilyView::ProcessReading(
                    ReadingView {
                        source_protocol: "opc_ua_pubsub"@,
                        point_id: PointIdentifier::OpcUaNode {
                            namespace_index: 0,
                            identifier: OpcUaNodeId::Numeric(
                                if h.message_type == 1 {
                                    fields[j].0 as u32
                                } else {
                                    j as u32
                                },
                            ),
                        },
                        value: PointValueView::Int32(fields[j].1),
                        quality: RawQuality::Unstated,
                        source_ts: h.dsm_timestamp_us,
                        observed_ts: s.observed_ts,
                    },
                )
        }),
{
    fields_read_back_from(s, h, fields, 0, rest, Seq::empty());
}

/// The transaction of a network message gives each part of its header under its own name, and none
/// that it has not.
pub proof fn message_gives_its_header(s: Seen, c: ChunkView, h: HeaderView)
    requires
        header_of(c.payload) == Ok::<HeaderView, Seq<char>>(h),
    ensures
        ({
            let tx = step(s, c).1[0].family->ProtocolTransaction_0;
            let m = tx.attributes;
            &&& tx.operation == "opc_ua_pubsub_publish"@
            &&& tx.status == "observed"@
            &&& m["ua_version"@] == text::dec(h.ua_version as nat)
            &&& match h.publisher_id {
                Some(v) => m.contains_key("publisher_id"@) && m["publisher_id"@] == v,
                None => !m.contains_key("publisher_id"@),
            }
            &&& match h.publisher_id_type {
                Some(v) => m.contains_key("publisher_id_type"@) && m["publisher_id_type"@] == v,
                None => !m.contains_key("publisher_id_type"@),
            }
            &&& match h.writer_group_id {
                Some(v) => m.contains_key("writer_group_id"@)
                    && m["writer_group_id"@] == text::dec(v as nat),
                None => !m.contains_key("writer_group_id"@),
            }
            &&& match h.group_version {
                Some(v) => m.contains_key("group_version"@)
                    && m["group_version"@] == text::dec(v as nat),
                None => !m.contains_key("group_version"@),
            }
            &&& match h.network_message_number {
                Some(v) => m.contains_key("network_message_number"@)
                    && m["network_message_number"@] == text::dec(v as nat),
                None => !m.contains_key("network_message_number"@),
            }
            &&& match h.sequence_number {
                Some(v) => m.contains_key("sequence_number"@)
                    && m["sequence_number"@] == text::dec(v as nat),
                None => !m.contains_key("sequence_number"@),
            }
            &&& match h.dataset_class_id {
                Some(v) => m.contains_key("dataset_class_id"@) && m["dataset_class_id"@] == v,
                None => !m.contains_key("dataset_class_id"@),
            }
            &&& m["dataset_writer_count"@] == text::dec(h.dataset_writer_ids.len())
        }),
{
    reveal_strlit("ua_version");
    reveal_strlit("publisher_id");
    reveal_strlit("publisher_id_type");
    reveal_strlit("writer_group_id");
    reveal_strlit("group_version");
    reveal_strlit("network_message_number");
    reveal_strlit("sequence_number");
    reveal_strlit("dataset_class_id");
    reveal_strlit("dataset_writer_count");
    reveal_strlit("dataset_writer_ids");
    assert({
        &&& "ua_version"@.len() == 10
        &&& "publisher_id"@.len() == 12
        &&& "publisher_id_type"@.len() == 17
        &&& "writer_group_id"@.len() == 15
        &&& "group_version"@.len() == 13
        &&& "network_message_number"@.len() == 22
        &&& "sequence_number"@.len() == 15
        &&& "dataset_class_id"@.len() == 16
        &&& "dataset_writer_count"@.len() == 20
        &&& "dataset_writer_ids"@.len() == 18
    });
    assert("writer_group_id"@[0] != "sequence_number"@[0]);
}

/// The transaction of a data set message names its kind and encoding, the writer, and the number
/// and status of its header.
pub proof fn data_set_transaction_is_of_its_header(
    capture_id: Seq<char>,
    envelope: EnvelopeView,
    writer_id: u16,
    h: DsmHeader,
    n: u16,
)
    ensures
        ({
            let tx = dsm_tx(capture_id, envelope, writer_id, h, n).family->ProtocolTransaction_0;
            let m = tx.attributes;
            &&& tx.status == "observed"@
            &&& m["dataset_writer_id"@] == text::dec(writer_id as nat)
            &&& m["field_count"@] == text::dec(n as nat)
            &&& match h.sequence_number {
                Some(v) => m.contains_key("sequence_number"@)
                    && m["sequence_number"@] == text::dec(v as nat),
                None => !m.contains_key("sequence_number"@),
            }
            &&& match h.status_code {
                Some(v) => m.contains_key("status_code"@)
                    && m["status_code"@] == text::dec(v as nat),
                None => !m.contains_key("status_code"@),
            }
            &&& h.message_type == 1 ==> tx.operation == "opc_ua_pubsub_data_delta_frame"@
            &&& h.message_type == 2 ==> tx.operation == "opc_ua_pubsub_event_frame"@
            &&& h.message_type == 3 ==> tx.operation == "opc_ua_pubsub_keep_alive"@
            &&& h.message_type != 1 && h.message_type != 2 && h.message_type != 3 ==> tx.operation
                == "opc_ua_pubsub_data_key_frame"@
            &&& h.field_encoding == 0 ==> m["field_encoding"@] == "variant"@
            &&& h.field_encoding == 1 ==> m["field_encoding"@] == "raw_data"@
            &&& h.field_encoding == 2 ==> m["field_encoding"@] == "data_value"@
            &&& h.field_encoding != 0 && h.field_encoding != 1 && h.field_encoding != 2
                ==> m["field_encoding"@] == "unknown"@
        }),
{
    reveal_strlit("dataset_writer_id");
    reveal_strlit("field_count");
    reveal_strlit("field_encoding");
    reveal_strlit("sequence_number");
    reveal_strlit("status_code");
    assert({
        &&& "dataset_writer_id"@.len() == 17
        &&& "field_count"@.len() == 11
        &&& "field_encoding"@.len() == 14
        &&& "sequence_number"@.len() == 15
        &&& "status_code"@.len() == 11
    });
    assert("field_count"@[0] != "status_code"@[0]);
}

/// A new publisher is shown as a node and as an asset, both by its own id.
pub proof fn publisher_is_shown_by_its_id(s: Seen, c: ChunkView, h: HeaderView, p: Seq<char>)
    requires
        h.publisher_id == Some(p),
        !s.publishers.contains(p),
        !s.assets.contains(p),
    ensures
        ({
            let e = publisher_events(s, c, h);
            let n = e[0].family->TopologyObservation_0;
            let a = e[1].family->AssetObservation_0;
            &&& e.len() == 2
            &&& e[0].family is TopologyObservation
            &&& e[1].family is AssetObservation
            &&& n.observation_type == "opc_ua_pubsub_publisher"@
            &&& n.local_id == p
            &&& n.remote_id is None
            &&& a.asset_key == "opc_ua_pubsub_publisher:"@ + p
            &&& a.role == Some("opc_ua_publisher"@)
            &&& a.identifiers["publisher_id"@] == p
            &&& match h.publisher_id_type {
                Some(v) => a.identifiers.contains_key("publisher_id_type"@)
                    && a.identifiers["publisher_id_type"@] == v,
                None => !a.identifiers.contains_key("publisher_id_type"@),
            }
            &&& match h.writer_group_id {
                Some(v) => n.metadata.contains_key("writer_group_id"@)
                    && n.metadata["writer_group_id"@] == text::dec(v as nat),
                None => !n.metadata.contains_key("writer_group_id"@),
            }
        }),
{
    reveal_strlit("publisher_id");
    reveal_strlit("publisher_id_type");
    reveal_strlit("writer_group_id");
    reveal_strlit("dataset_writer_ids");
    assert({
        &&& "publisher_id"@.len() == 12
        &&& "publisher_id_type"@.len() == 17
        &&& "writer_group_id"@.len() == 15
        &&& "dataset_writer_ids"@.len() == 18
    });
}

/// The id of a publisher has the size that its type says, and is read back from there.
pub proof fn publisher_ids_read_back(
    b: Seq<u8>,
    at: int,
    a: u8,
    x: u16,
    y: u32,
    z: u64,
    name: Seq<u8>,
    rest: Seq<u8>,
)
    requires
        0 <= at <= b.len(),
        name.len() < 0x8000_0000,
    ensures
        b.skip(at) == seq![a] + rest ==> publisher_at(b, at, true, 0) == Ok::<
            (PublisherView, int),
            Seq<char>,
        >(((Some(text::dec(a as nat)), Some("byte"@)), at + 1)),
        b.skip(at) == bytes::le16_bytes(x) + rest ==> publisher_at(b, at, true, 1) == Ok::<
            (PublisherView, int),
            Seq<char>,
        >(((Some(text::dec(x as nat)), Some("uint16"@)), at + 2)),
        b.skip(at) == bytes::le32_bytes(y) + rest ==> publisher_at(b, at, true, 2) == Ok::<
            (PublisherView, int),
            Seq<char>,
        >(((Some(text::dec(y as nat)), Some("uint32"@)), at + 4)),
        b.skip(at) == bytes::le64_bytes(z) + rest ==> publisher_at(b, at, true, 3) == Ok::<
            (PublisherView, int),
            Seq<char>,
        >(((Some(text::dec(z as nat)), Some("uint64"@)), at + 8)),
        b.skip(at) == bytes::le32_bytes(name.len() as u32) + (name + rest) ==> publisher_at(
            b,
            at,
            true,
            4,
        ) == Ok::<(PublisherView, int), Seq<char>>(
            ((Some(text::lossy(name)), Some("string"@)), at + 4 + name.len()),
        ),
{
    bytes::next_le(b, at, x, y, z, rest);
    bytes::next_le(b, at, 0, name.len() as u32, 0, name + rest);
    if b.skip(at) == seq![a] + rest {
        bytes::next_part(b, at, seq![a], rest);
        assert(seq![a][0] == a);
    }
    if b.skip(at) == bytes::le32_bytes(name.len() as u32) + (name + rest) {
        bytes::next_part(b, at + 4, name, rest);
    }
}

/// The writers of a message stand behind their number, two bytes each, in their order.
pub proof fn writers_read_back(b: Seq<u8>, at: int, n: u8, ids: Seq<u8>, rest: Seq<u8>)
    requires
        0 <= at <= b.len(),
        ids.len() == 2 * n,
        b.skip(at) == seq![n] + (ids + rest),
    ensures
        match writers_at(b, at, true) {
            Ok((w, end)) => {
                &&& w.len() == n
                &&& end == at + 1 + 2 * n
                &&& b.skip(end) == rest
                &&& forall|i: int|
                    0 <= i < n ==> #[trigger] w[i] == (ids[2 * i] + 0x100 * ids[2 * i + 1]) as u16
            },
            Err(_) => false,
        },
{
    bytes::next_part(b, at, seq![n], ids + rest);
    assert(seq![n][0] == n);
    bytes::next_part(b, at + 1, ids, rest);
    assert forall|i: int| 0 <= i < n implies #[trigger] bytes::le16(b, at + 1 + 2 * i) == (ids[2
        * i] + 0x100 * ids[2 * i + 1]) as u16 by {
        assert(b[at + 1 + (2 * i)] == ids[2 * i]);
        assert(b[at + 1 + (2 * i + 1)] == ids[2 * i + 1]);
    }
}

} // verus!
