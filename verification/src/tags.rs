use vstd::prelude::*;

verus! {

/// Wire-level type tag of a column: a closed discriminant saying how the
/// column's bytes are encoded on the protocol.  Composite tags carry the
/// descriptors of their element types.
#[derive(Debug)]
pub enum TypeTag {
    /// UTF-8 text.
    Text,
    /// One byte; zero is false, anything else is true.
    Boolean,
    /// 64-bit signed integer, big-endian, exactly eight bytes.
    BigInt,
    /// 32-bit signed integer, big-endian, exactly four bytes.
    Int,
    /// 16-bit signed integer, big-endian, exactly two bytes.
    SmallInt,
    /// 8-bit signed integer, exactly one byte.
    TinyInt,
    /// 64-bit float, carried as its eight big-endian bytes.
    Double,
    /// 32-bit float, carried as its four big-endian bytes.
    Float,
    /// IP address: four octets (v4) or sixteen octets (v6).
    Inet,
    /// UUID: exactly sixteen bytes.
    Uuid,
    /// Milliseconds since the Unix epoch, as a 64-bit signed big-endian integer.
    Timestamp,
    /// Ordered collection of elements sharing one element tag.
    List(Box<TypeTag>),
    /// Ordered collection of key/value pairs with one key tag and one value tag.
    Mapping(Box<TypeTag>, Box<TypeTag>),
    /// User-defined-type record: named fields in declaration order.
    Udt(Vec<UdtField>),
    /// Fixed sequence of elements, each with its own tag.
    Tuple(Vec<TypeTag>),
}

/// One named field of a user-defined-type column, with its own wire tag.
#[derive(Debug)]
pub struct UdtField {
    pub name: String,
    pub tag: TypeTag,
}

/// The target kind a caller requests from a typed accessor: one variant per
/// supported concrete result type.
#[derive(Debug, Clone, Copy)]
pub enum TargetType {
    Text,
    Boolean,
    BigInt,
    Int,
    SmallInt,
    TinyInt,
    Double,
    Float,
    Inet,
    Uuid,
    Timestamp,
    List,
    Mapping,
    Udt,
    Tuple,
}

/// Whether the requested target type belongs to the same decoder family as the
/// column's declared wire tag.  Exactly one tag family fits each target; a
/// mismatch must fail rather than coerce.
pub open spec fn family_matches(target: TargetType, tag: TypeTag) -> bool {
    match (target, tag) {
        (TargetType::Text, TypeTag::Text) => true,
        (TargetType::Boolean, TypeTag::Boolean) => true,
        (TargetType::BigInt, TypeTag::BigInt) => true,
        (TargetType::Int, TypeTag::Int) => true,
        (TargetType::SmallInt, TypeTag::SmallInt) => true,
        (TargetType::TinyInt, TypeTag::TinyInt) => true,
        (TargetType::Double, TypeTag::Double) => true,
        (TargetType::Float, TypeTag::Float) => true,
        (TargetType::Inet, TypeTag::Inet) => true,
        (TargetType::Uuid, TypeTag::Uuid) => true,
        (TargetType::Timestamp, TypeTag::Timestamp) => true,
        (TargetType::List, TypeTag::List(_)) => true,
        (TargetType::Mapping, TypeTag::Mapping(_, _)) => true,
        (TargetType::Udt, TypeTag::Udt(_)) => true,
        (TargetType::Tuple, TypeTag::Tuple(_)) => true,
        _ => false,
    }
}

/// Runtime check of [`family_matches`].
pub fn target_matches_tag(target: TargetType, tag: &TypeTag) -> (r: bool)
    ensures
        r == family_matches(target, *tag),
{
    match (target, tag) {
        (TargetType::Text, TypeTag::Text) => true,
        (TargetType::Boolean, TypeTag::Boolean) => true,
        (TargetType::BigInt, TypeTag::BigInt) => true,
        (TargetType::Int, TypeTag::Int) => true,
        (TargetType::SmallInt, TypeTag::SmallInt) => true,
        (TargetType::TinyInt, TypeTag::TinyInt) => true,
        (TargetType::Double, TypeTag::Double) => true,
        (TargetType::Float, TypeTag::Float) => true,
        (TargetType::Inet, TypeTag::Inet) => true,
        (TargetType::Uuid, TypeTag::Uuid) => true,
        (TargetType::Timestamp, TypeTag::Timestamp) => true,
        (TargetType::List, TypeTag::List(_)) => true,
        (TargetType::Mapping, TypeTag::Mapping(_, _)) => true,
        (TargetType::Udt, TypeTag::Udt(_)) => true,
        (TargetType::Tuple, TypeTag::Tuple(_)) => true,
        _ => false,
    }
}

} // verus!
