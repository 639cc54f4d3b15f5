use std::sync::Arc;

use rowdec::errors::Error;
use rowdec::rows::{ColumnSpec, RawColumn, ResultBody, ResultSchema, Row};
use rowdec::tags::{TargetType, TypeTag, UdtField};
use rowdec::values::{InetAddr, Value};

fn one_column_row(tag: TypeTag, raw: RawColumn) -> Row {
    let schema = Arc::new(ResultSchema {
        specs: vec![ColumnSpec { name: "c".to_string(), wire_type: tag }],
    });
    let body = ResultBody { schema, rows_content: vec![vec![raw]] };
    Row::from_frame_body(body).into_iter().next().unwrap()
}

fn decode(tag: TypeTag, bytes: Vec<u8>, target: TargetType) -> Result<Option<Value>, Error> {
    one_column_row(tag, RawColumn::Present(bytes)).get_by_name("c", target)
}

/// Length-prefixes one element payload.
fn lp(payload: &[u8]) -> Vec<u8> {
    let mut out = (payload.len() as i32).to_be_bytes().to_vec();
    out.extend_from_slice(payload);
    out
}

/// An absent element inside a composite: a negative length, no payload.
fn lp_absent() -> Vec<u8> {
    (-1i32).to_be_bytes().to_vec()
}

fn with_count(count: i32, elements: &[Vec<u8>]) -> Vec<u8> {
    let mut out = count.to_be_bytes().to_vec();
    for e in elements {
        out.extend_from_slice(e);
    }
    out
}

#[test]
fn text_decodes_utf8() {
    assert_eq!(
        decode(TypeTag::Text, "héllo".as_bytes().to_vec(), TargetType::Text),
        Ok(Some(Value::Text("héllo".to_string())))
    );
    assert_eq!(
        decode(TypeTag::Text, Vec::new(), TargetType::Text),
        Ok(Some(Value::Text(String::new())))
    );
}

#[test]
fn text_rejects_invalid_utf8() {
    assert_eq!(
        decode(TypeTag::Text, vec![0xff, 0xfe], TargetType::Text),
        Err(Error::MalformedEncoding)
    );
}

#[test]
fn boolean_decodes_any_nonzero_as_true() {
    assert_eq!(decode(TypeTag::Boolean, vec![0], TargetType::Boolean), Ok(Some(Value::Boolean(false))));
    assert_eq!(decode(TypeTag::Boolean, vec![1], TargetType::Boolean), Ok(Some(Value::Boolean(true))));
    assert_eq!(decode(TypeTag::Boolean, vec![7], TargetType::Boolean), Ok(Some(Value::Boolean(true))));
    assert_eq!(decode(TypeTag::Boolean, vec![0, 0], TargetType::Boolean), Err(Error::MalformedEncoding));
}

#[test]
fn integers_decode_big_endian_twos_complement() {
    assert_eq!(
        decode(TypeTag::BigInt, (-2i64).to_be_bytes().to_vec(), TargetType::BigInt),
        Ok(Some(Value::BigInt(-2)))
    );
    assert_eq!(
        decode(TypeTag::BigInt, i64::MIN.to_be_bytes().to_vec(), TargetType::BigInt),
        Ok(Some(Value::BigInt(i64::MIN)))
    );
    assert_eq!(
        decode(TypeTag::Int, (-123456i32).to_be_bytes().to_vec(), TargetType::Int),
        Ok(Some(Value::Int(-123456)))
    );
    assert_eq!(
        decode(TypeTag::SmallInt, (-300i16).to_be_bytes().to_vec(), TargetType::SmallInt),
        Ok(Some(Value::SmallInt(-300)))
    );
    assert_eq!(
        decode(TypeTag::TinyInt, (-5i8).to_be_bytes().to_vec(), TargetType::TinyInt),
        Ok(Some(Value::TinyInt(-5)))
    );
}

#[test]
fn integers_reject_wrong_width() {
    assert_eq!(decode(TypeTag::BigInt, vec![0; 4], TargetType::BigInt), Err(Error::MalformedEncoding));
    assert_eq!(decode(TypeTag::Int, vec![0; 8], TargetType::Int), Err(Error::MalformedEncoding));
    assert_eq!(decode(TypeTag::SmallInt, vec![0], TargetType::SmallInt), Err(Error::MalformedEncoding));
    assert_eq!(decode(TypeTag::TinyInt, vec![], TargetType::TinyInt), Err(Error::MalformedEncoding));
}

#[test]
fn floats_carry_exact_bit_patterns() {
    let d = decode(TypeTag::Double, 3.5f64.to_bits().to_be_bytes().to_vec(), TargetType::Double);
    assert_eq!(d, Ok(Some(Value::Double(3.5f64.to_bits()))));
    if let Ok(Some(Value::Double(bits))) = d {
        assert_eq!(f64::from_bits(bits), 3.5);
    } else {
        panic!("expected a double value");
    }
    let f = decode(TypeTag::Float, (-1.25f32).to_bits().to_be_bytes().to_vec(), TargetType::Float);
    assert_eq!(f, Ok(Some(Value::Float((-1.25f32).to_bits()))));
    assert_eq!(decode(TypeTag::Double, vec![0; 7], TargetType::Double), Err(Error::MalformedEncoding));
    assert_eq!(decode(TypeTag::Float, vec![0; 8], TargetType::Float), Err(Error::MalformedEncoding));
}

#[test]
fn inet_takes_four_or_sixteen_octets() {
    assert_eq!(
        decode(TypeTag::Inet, vec![127, 0, 0, 1], TargetType::Inet),
        Ok(Some(Value::Inet(InetAddr { octets: vec![127, 0, 0, 1] })))
    );
    let v6: Vec<u8> = (1..=16).collect();
    assert_eq!(
        decode(TypeTag::Inet, v6.clone(), TargetType::Inet),
        Ok(Some(Value::Inet(InetAddr { octets: v6 })))
    );
    assert_eq!(decode(TypeTag::Inet, vec![1, 2, 3], TargetType::Inet), Err(Error::MalformedEncoding));
}

#[test]
fn uuid_decodes_sixteen_bytes() {
    let bytes: Vec<u8> = (0..16).collect();
    let expected = uuid::Uuid::from_slice(&bytes).unwrap();
    assert_eq!(
        decode(TypeTag::Uuid, bytes, TargetType::Uuid),
        Ok(Some(Value::Uuid(expected)))
    );
    assert_eq!(decode(TypeTag::Uuid, vec![0; 15], TargetType::Uuid), Err(Error::MalformedEncoding));
}

#[test]
fn timestamp_splits_millis_into_timespec() {
    // 1_500 ms after the epoch: 1 s and 500_000_000 ns
    assert_eq!(
        decode(TypeTag::Timestamp, 1500i64.to_be_bytes().to_vec(), TargetType::Timestamp),
        Ok(Some(Value::Timestamp(time::Timespec::new(1, 500_000_000))))
    );
    // 1 ms before the epoch: one step back, 999 ms forward
    assert_eq!(
        decode(TypeTag::Timestamp, (-1i64).to_be_bytes().to_vec(), TargetType::Timestamp),
        Ok(Some(Value::Timestamp(time::Timespec::new(-1, 999_000_000))))
    );
    assert_eq!(
        decode(TypeTag::Timestamp, (-2000i64).to_be_bytes().to_vec(), TargetType::Timestamp),
        Ok(Some(Value::Timestamp(time::Timespec::new(-2, 0))))
    );
    assert_eq!(
        decode(TypeTag::Timestamp, vec![0; 4], TargetType::Timestamp),
        Err(Error::MalformedEncoding)
    );
}

#[test]
fn timestamp_handles_the_minimum_millisecond_count() {
    let ms = i64::MIN;
    let sec = ms.div_euclid(1000);
    let nsec = (ms.rem_euclid(1000) * 1_000_000) as i32;
    assert_eq!(
        decode(TypeTag::Timestamp, ms.to_be_bytes().to_vec(), TargetType::Timestamp),
        Ok(Some(Value::Timestamp(time::Timespec::new(sec, nsec))))
    );
}

#[test]
fn empty_map_decodes() {
    let tag = TypeTag::Mapping(Box::new(TypeTag::Text), Box::new(TypeTag::Int));
    assert_eq!(
        decode(tag, with_count(0, &[]), TargetType::Mapping),
        Ok(Some(Value::Mapping(Vec::new())))
    );
}

#[test]
fn list_decodes_counted_elements() {
    let tag = TypeTag::List(Box::new(TypeTag::Int));
    let bytes = with_count(
        3,
        &[
            lp(&1i32.to_be_bytes()),
            lp(&2i32.to_be_bytes()),
            lp(&3i32.to_be_bytes()),
        ],
    );
    assert_eq!(
        decode(tag, bytes, TargetType::List),
        Ok(Some(Value::List(vec![Value::Int(1), Value::Int(2), Value::Int(3)])))
    );
}

#[test]
fn empty_list_decodes() {
    let tag = TypeTag::List(Box::new(TypeTag::Text));
    assert_eq!(
        decode(tag, with_count(0, &[]), TargetType::List),
        Ok(Some(Value::List(Vec::new())))
    );
}

#[test]
fn nested_list_decodes() {
    let tag = TypeTag::List(Box::new(TypeTag::List(Box::new(TypeTag::Int))));
    let inner = with_count(1, &[lp(&9i32.to_be_bytes())]);
    let bytes = with_count(1, &[lp(&inner)]);
    assert_eq!(
        decode(tag, bytes, TargetType::List),
        Ok(Some(Value::List(vec![Value::List(vec![Value::Int(9)])])))
    );
}

#[test]
fn list_rejects_broken_framing() {
    let tag = TypeTag::List(Box::new(TypeTag::Int));
    // negative element count
    assert_eq!(
        decode(tag, with_count(-1, &[]), TargetType::List),
        Err(Error::MalformedEncoding)
    );
    let tag = TypeTag::List(Box::new(TypeTag::Int));
    // count prefix shorter than four bytes
    assert_eq!(decode(tag, vec![0, 0], TargetType::List), Err(Error::MalformedEncoding));
    let tag = TypeTag::List(Box::new(TypeTag::Int));
    // trailing bytes after the declared elements
    let mut bytes = with_count(1, &[lp(&5i32.to_be_bytes())]);
    bytes.push(0);
    assert_eq!(decode(tag, bytes, TargetType::List), Err(Error::MalformedEncoding));
}

#[test]
fn list_element_failures_carry_position() {
    let tag = TypeTag::List(Box::new(TypeTag::Int));
    // second element has the wrong width for a 32-bit integer
    let bytes = with_count(2, &[lp(&1i32.to_be_bytes()), lp(&[0, 1])]);
    assert_eq!(
        decode(tag, bytes, TargetType::List),
        Err(Error::CompositeElementFailure(1, Box::new(Error::MalformedEncoding)))
    );
    let tag = TypeTag::List(Box::new(TypeTag::Int));
    // an absent element cannot stand in a decoded list
    let bytes = with_count(2, &[lp(&1i32.to_be_bytes()), lp_absent()]);
    assert_eq!(
        decode(tag, bytes, TargetType::List),
        Err(Error::CompositeElementFailure(1, Box::new(Error::MalformedEncoding)))
    );
}

#[test]
fn map_decodes_pairs_in_order() {
    let tag = TypeTag::Mapping(Box::new(TypeTag::Text), Box::new(TypeTag::Int));
    let bytes = with_count(
        2,
        &[
            lp(b"a"),
            lp(&1i32.to_be_bytes()),
            lp(b"b"),
            lp(&2i32.to_be_bytes()),
        ],
    );
    assert_eq!(
        decode(tag, bytes, TargetType::Mapping),
        Ok(Some(Value::Mapping(vec![
            (Value::Text("a".to_string()), Value::Int(1)),
            (Value::Text("b".to_string()), Value::Int(2)),
        ])))
    );
}

#[test]
fn map_value_failure_carries_pair_position() {
    let tag = TypeTag::Mapping(Box::new(TypeTag::Text), Box::new(TypeTag::Int));
    let bytes = with_count(1, &[lp(b"k"), lp(&[1, 2, 3])]);
    assert_eq!(
        decode(tag, bytes, TargetType::Mapping),
        Err(Error::CompositeElementFailure(0, Box::new(Error::MalformedEncoding)))
    );
}

#[test]
fn udt_decodes_named_fields() {
    let tag = TypeTag::Udt(vec![
        UdtField { name: "age".to_string(), tag: TypeTag::Int },
        UdtField { name: "nick".to_string(), tag: TypeTag::Text },
    ]);
    let mut bytes = lp(&33i32.to_be_bytes());
    bytes.extend_from_slice(&lp(b"bee"));
    assert_eq!(
        decode(tag, bytes, TargetType::Udt),
        Ok(Some(Value::Udt(vec![
            ("age".to_string(), Value::Int(33)),
            ("nick".to_string(), Value::Text("bee".to_string())),
        ])))
    );
}

#[test]
fn udt_requires_every_declared_field() {
    let tag = TypeTag::Udt(vec![
        UdtField { name: "age".to_string(), tag: TypeTag::Int },
        UdtField { name: "nick".to_string(), tag: TypeTag::Text },
    ]);
    // only one of the two declared fields is present
    assert_eq!(
        decode(tag, lp(&33i32.to_be_bytes()), TargetType::Udt),
        Err(Error::MalformedEncoding)
    );
}

#[test]
fn tuple_decodes_elementwise() {
    let tag = TypeTag::Tuple(vec![TypeTag::Boolean, TypeTag::BigInt]);
    let mut bytes = lp(&[1]);
    bytes.extend_from_slice(&lp(&7i64.to_be_bytes()));
    assert_eq!(
        decode(tag, bytes, TargetType::Tuple),
        Ok(Some(Value::Tuple(vec![Value::Boolean(true), Value::BigInt(7)])))
    );
}

#[test]
fn tuple_inner_failure_carries_position() {
    let tag = TypeTag::Tuple(vec![TypeTag::Boolean, TypeTag::BigInt]);
    let mut bytes = lp(&[1]);
    bytes.extend_from_slice(&lp(&[0, 1]));
    assert_eq!(
        decode(tag, bytes, TargetType::Tuple),
        Err(Error::CompositeElementFailure(1, Box::new(Error::MalformedEncoding)))
    );
}
