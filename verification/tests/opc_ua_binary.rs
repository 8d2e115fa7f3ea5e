use ot_decoders::events::{PointValue, RawQuality};
use ot_decoders::opc_ua_binary::{
    opcua_datetime_to_unix_us, read_data_value, read_variant, to_i64, Reader,
};

const EPOCH: i64 = 116_444_736_000_000_000;

#[test]
fn ticks_count_tenths_of_microseconds() {
    assert_eq!(opcua_datetime_to_unix_us(EPOCH), Some(0));
    assert_eq!(opcua_datetime_to_unix_us(EPOCH + 9), Some(0));
    assert_eq!(opcua_datetime_to_unix_us(EPOCH + 10), Some(1));
    assert_eq!(opcua_datetime_to_unix_us(EPOCH + 17_000_000_000_000_000), Some(1_700_000_000_000_000));
    assert_eq!(opcua_datetime_to_unix_us(EPOCH - 1), None);
    assert_eq!(opcua_datetime_to_unix_us(i64::MIN), None);
}

#[test]
fn later_times_never_have_smaller_numbers() {
    let mut last = 0;
    for step in [0, 1, 9, 10, 11, 1_000, 1_000_000] {
        let now = opcua_datetime_to_unix_us(EPOCH + step).unwrap();
        assert!(last <= now);
        last = now;
    }
    assert_eq!(opcua_datetime_to_unix_us(i64::MAX), Some(910_692_730_085_477_580));
}

#[test]
fn numbers_are_read_from_the_front() {
    let bytes = [1, 2, 3, 4, 5, 6, 7, 8, 9, 10, 11, 12, 13, 14, 15, 16];
    let mut r = Reader::new(&bytes);
    assert_eq!(r.read_u8().ok(), Some(1));
    assert_eq!(r.read_u16().ok(), Some(0x0302));
    assert_eq!(r.read_u32().ok(), Some(0x0706_0504));
    assert_eq!(r.read_u64().ok(), Some(0x0F0E_0D0C_0B0A_0908));
    assert_eq!(r.remaining(), 1);
    // A read that fails takes nothing.
    assert!(r.read_u16().is_err());
    assert_eq!(r.remaining(), 1);
    assert_eq!(r.read_u8().ok(), Some(16));
    assert!(r.read_u8().is_err());
}

#[test]
fn strings_have_a_length_and_may_be_null() {
    let mut bytes = 3u32.to_le_bytes().to_vec();
    bytes.extend_from_slice(b"abc");
    bytes.extend_from_slice(&u32::MAX.to_le_bytes());
    bytes.extend_from_slice(&9u32.to_le_bytes());
    let mut r = Reader::new(&bytes);
    assert_eq!(r.read_string().unwrap().as_deref(), Some("abc"));
    assert_eq!(r.read_string().unwrap(), None);
    assert!(r.read_string().is_err());
}

#[test]
fn bytes_that_are_no_text_are_replaced() {
    let mut bytes = 4u32.to_le_bytes().to_vec();
    bytes.extend_from_slice(&[b'a', 0xFF, b'b', 0xC3]);
    let mut r = Reader::new(&bytes);
    assert_eq!(r.read_string().unwrap().as_deref(), Some("a\u{FFFD}b\u{FFFD}"));
}

fn variant(bytes: &[u8]) -> PointValue {
    read_variant(&mut Reader::new(bytes)).unwrap()
}

#[test]
fn scalars_of_each_type() {
    assert!(matches!(variant(&[1, 2]), PointValue::Bool(true)));
    assert!(matches!(variant(&[2, 0xFE]), PointValue::Int8(-2)));
    assert!(matches!(variant(&[3, 0xFE]), PointValue::UInt8(254)));
    assert!(matches!(variant(&[4, 0xFF, 0xFF]), PointValue::Int16(-1)));
    assert!(matches!(variant(&[5, 0xFF, 0xFF]), PointValue::UInt16(65_535)));
    assert!(matches!(variant(&[6, 0, 0, 0, 0x80]), PointValue::Int32(i32::MIN)));
    assert!(matches!(variant(&[7, 0, 0, 0, 0x80]), PointValue::UInt32(0x8000_0000)));
    assert!(matches!(variant(&[8, 0xFF, 0xFF, 0xFF, 0xFF, 0xFF, 0xFF, 0xFF, 0xFF]), PointValue::Int64(-1)));
    assert!(matches!(variant(&[9, 1, 0, 0, 0, 0, 0, 0, 0]), PointValue::UInt64(1)));
    let mut f = vec![10];
    f.extend_from_slice(&1.5f32.to_le_bytes());
    assert!(matches!(variant(&f), PointValue::Float(b) if f32::from_bits(b) == 1.5));
    let mut d = vec![11];
    d.extend_from_slice(&(-2.25f64).to_le_bytes());
    assert!(matches!(variant(&d), PointValue::Double(b) if f64::from_bits(b) == -2.25));
    let mut t = vec![13];
    t.extend_from_slice(&(EPOCH + 50).to_le_bytes());
    assert!(matches!(variant(&t), PointValue::Timestamp(5)));
    assert!(matches!(variant(&[13, 0, 0, 0, 0, 0, 0, 0, 0]), PointValue::Null));
    assert!(matches!(variant(&[0]), PointValue::Null));
    assert!(matches!(variant(&[0x86]), PointValue::Null));
    assert!(read_variant(&mut Reader::new(&[6, 1, 2])).is_err());
    assert!(read_variant(&mut Reader::new(&[])).is_err());
}

#[test]
fn data_value_parts_follow_their_mask() {
    let mut bytes = vec![0x3F, 3, 42];
    bytes.extend_from_slice(&0x8000_0000u32.to_le_bytes());
    bytes.extend_from_slice(&(EPOCH + 1230).to_le_bytes());
    bytes.extend_from_slice(&[1, 0]);
    bytes.extend_from_slice(&EPOCH.to_le_bytes());
    bytes.extend_from_slice(&[2, 0]);
    bytes.push(0xEE);
    let mut r = Reader::new(&bytes);
    let v = read_data_value(&mut r).unwrap();
    assert!(matches!(v.value, PointValue::UInt8(42)));
    assert_eq!(v.quality, RawQuality::OpcUaStatusCode(0x8000_0000));
    assert_eq!(v.source_ts, Some(123));
    assert_eq!(r.remaining(), 1);

    let v = read_data_value(&mut Reader::new(&[0])).unwrap();
    assert!(matches!(v.value, PointValue::Null));
    assert_eq!(v.quality, RawQuality::Unstated);
    assert_eq!(v.source_ts, None);
    assert!(read_data_value(&mut Reader::new(&[0x02, 1, 2])).is_err());
}

#[test]
fn signed_reading_of_64_bits() {
    assert_eq!(to_i64(0), 0);
    assert_eq!(to_i64(u64::MAX), -1);
    assert_eq!(to_i64(1 << 63), i64::MIN);
}
