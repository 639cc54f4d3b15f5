use vstd::prelude::*;

verus! {

/// An IP address payload as it stands on the wire: four octets for v4,
/// sixteen for v6.  The crate never interprets the octets further.
#[derive(Debug, PartialEq, Eq)]
pub struct InetAddr {
    pub octets: Vec<u8>,
}

impl InetAddr {
    /// An address is well formed when it has a v4 or a v6 octet count.
    pub open spec fn wf(self) -> bool {
        self.octets@.len() == 4 || self.octets@.len() == 16
    }
}

/// A decoded column value: one variant per supported target type.
///
/// The two float variants hold the IEEE-754 bit pattern read big-endian from
/// the wire; interpreting the pattern as a machine float is left to the
/// caller, so the verified core stays free of float arithmetic.
#[derive(Debug, PartialEq)]
pub enum Value {
    Text(String),
    Boolean(bool),
    BigInt(i64),
    Int(i32),
    SmallInt(i16),
    TinyInt(i8),
    /// Bit pattern of a 64-bit float.
    Double(u64),
    /// Bit pattern of a 32-bit float.
    Float(u32),
    Inet(InetAddr),
    Uuid(uuid::Uuid),
    Timestamp(time::Timespec),
    List(Vec<Value>),
    Mapping(Vec<(Value, Value)>),
    Udt(Vec<(String, Value)>),
    Tuple(Vec<Value>),
}

/// The mathematical reading of a [`Value`]: strings become character
/// sequences, vectors become sequences, scalars stay themselves.  Contracts
/// speak of values through this model.
pub enum ValModel {
    Text(Seq<char>),
    Boolean(bool),
    BigInt(i64),
    Int(i32),
    SmallInt(i16),
    TinyInt(i8),
    Double(u64),
    Float(u32),
    Inet(Seq<u8>),
    Uuid(uuid::Uuid),
    /// Seconds and nanoseconds of the timestamp.
    Timestamp(i64, i32),
    List(Seq<ValModel>),
    Mapping(Seq<(ValModel, ValModel)>),
    Udt(Seq<(Seq<char>, ValModel)>),
    Tuple(Seq<ValModel>),
}

/// The model of one executable value.
pub open spec fn val_model(v: Value) -> ValModel
    decreases v,
{
    match v {
        Value::Text(s) => ValModel::Text(s@),
        Value::Boolean(x) => ValModel::Boolean(x),
        Value::BigInt(x) => ValModel::BigInt(x),
        Value::Int(x) => ValModel::Int(x),
        Value::SmallInt(x) => ValModel::SmallInt(x),
        Value::TinyInt(x) => ValModel::TinyInt(x),
        Value::Double(x) => ValModel::Double(x),
        Value::Float(x) => ValModel::Float(x),
        Value::Inet(a) => ValModel::Inet(a.octets@),
        Value::Uuid(u) => ValModel::Uuid(u),
        Value::Timestamp(t) => ValModel::Timestamp(t.sec, t.nsec),
        Value::List(vs) => ValModel::List(vals_model(vs@)),
        Value::Mapping(ps) => ValModel::Mapping(pairs_model(ps@)),
        Value::Udt(fs) => ValModel::Udt(fields_model(fs@)),
        Value::Tuple(vs) => ValModel::Tuple(vals_model(vs@)),
    }
}

/// The models of a sequence of executable values, in order.
pub open spec fn vals_model(s: Seq<Value>) -> Seq<ValModel>
    decreases s,
{
    if s.len() == 0 {
        Seq::empty()
    } else {
        seq![val_model(s[0])] + vals_model(s.drop_first())
    }
}

/// The models of a sequence of key/value pairs, in order.
pub open spec fn pairs_model(s: Seq<(Value, Value)>) -> Seq<(ValModel, ValModel)>
    decreases s,
{
    if s.len() == 0 {
        Seq::empty()
    } else {
        seq![(val_model(s[0].0), val_model(s[0].1))] + pairs_model(s.drop_first())
    }
}

/// The models of a sequence of named fields, in order.
pub open spec fn fields_model(s: Seq<(String, Value)>) -> Seq<(Seq<char>, ValModel)>
    decreases s,
{
    if s.len() == 0 {
        Seq::empty()
    } else {
        seq![(s[0].0@, val_model(s[0].1))] + fields_model(s.drop_first())
    }
}

} // verus!
