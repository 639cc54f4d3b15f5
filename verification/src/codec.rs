use vstd::prelude::*;
use vstd::slice::slice_to_vec;
use vstd::utf8::{decode_utf8, valid_utf8};

use crate::errors::Error;
use crate::foreign::{string_from_utf8, uuid_from_bytes, uuid_of};
use crate::numeric::{
    be_i16_of, be_i32_of, be_i64_of, be_i8_of, be_nat, be_u64_of, lemma_be_nat_bound, pow256,
    twos_complement,
};
use crate::tags::{TypeTag, UdtField};
use crate::values::{fields_model, pairs_model, val_model, vals_model, InetAddr, ValModel, Value};
use vstd::arithmetic::div_mod::{
    lemma_fundamental_div_mod_converse_div, lemma_fundamental_div_mod_converse_mod,
};

verus! {

/// Floor seconds of a count of milliseconds since the epoch.
pub open spec fn millis_sec(ms: i64) -> i64 {
    ((ms as int) / 1000) as i64
}

/// Nonnegative nanosecond remainder of a count of milliseconds: always in
/// `[0, 1_000_000_000)`, so a pre-epoch instant has a negative second count
/// and a positive nanosecond offset.
pub open spec fn millis_nsec(ms: i64) -> i32 {
    (((ms as int) % 1000) * 1_000_000) as i32
}

/// The signed 32-bit big-endian length prefix at the head of a buffer.
pub open spec fn prefix_i32(b: Seq<u8>) -> int {
    twos_complement(be_nat(b.take(4)), 0x100000000)
}

/// What decoding a present buffer under a declared wire tag yields: the value
/// a correct decoder must return, or the exact error owed.
///
/// Composite framing: a list or map starts with a signed 32-bit big-endian
/// element (or pair) count; a user-defined type or tuple has no count, its
/// arity comes from the tag.  Every element is preceded by its own signed
/// 32-bit length.  A negative element length (an absent element) or a failing
/// element decode yields `CompositeElementFailure` with the element's
/// position; broken outer framing (short prefix, negative count, elements
/// overrunning or not exhausting the buffer) yields `MalformedEncoding`.
pub open spec fn spec_decode(tag: TypeTag, b: Seq<u8>) -> Result<ValModel, Error>
    decreases b.len(), 1nat,
{
    match tag {
        TypeTag::Text => if valid_utf8(b) {
            Ok(ValModel::Text(decode_utf8(b)))
        } else {
            Err(Error::MalformedEncoding)
        },
        TypeTag::Boolean => if b.len() == 1 {
            Ok(ValModel::Boolean(b[0] != 0))
        } else {
            Err(Error::MalformedEncoding)
        },
        TypeTag::BigInt => if b.len() == 8 {
            Ok(ValModel::BigInt(twos_complement(be_nat(b), 0x10000000000000000) as i64))
        } else {
            Err(Error::MalformedEncoding)
        },
        TypeTag::Int => if b.len() == 4 {
            Ok(ValModel::Int(twos_complement(be_nat(b), 0x100000000) as i32))
        } else {
            Err(Error::MalformedEncoding)
        },
        TypeTag::SmallInt => if b.len() == 2 {
            Ok(ValModel::SmallInt(twos_complement(be_nat(b), 0x10000) as i16))
        } else {
            Err(Error::MalformedEncoding)
        },
        TypeTag::TinyInt => if b.len() == 1 {
            Ok(ValModel::TinyInt(twos_complement(be_nat(b), 0x100) as i8))
        } else {
            Err(Error::MalformedEncoding)
        },
        TypeTag::Double => if b.len() == 8 {
            Ok(ValModel::Double(be_nat(b) as u64))
        } else {
            Err(Error::MalformedEncoding)
        },
        TypeTag::Float => if b.len() == 4 {
            Ok(ValModel::Float(be_nat(b) as u32))
        } else {
            Err(Error::MalformedEncoding)
        },
        TypeTag::Inet => if b.len() == 4 || b.len() == 16 {
            Ok(ValModel::Inet(b))
        } else {
            Err(Error::MalformedEncoding)
        },
        TypeTag::Uuid => if b.len() == 16 {
            Ok(ValModel::Uuid(uuid_of(b)))
        } else {
            Err(Error::MalformedEncoding)
        },
        TypeTag::Timestamp => if b.len() == 8 {
            Ok(ValModel::Timestamp(
                millis_sec(twos_complement(be_nat(b), 0x10000000000000000) as i64),
                millis_nsec(twos_complement(be_nat(b), 0x10000000000000000) as i64),
            ))
        } else {
            Err(Error::MalformedEncoding)
        },
        TypeTag::List(t) => if b.len() < 4 {
            Err(Error::MalformedEncoding)
        } else {
            let n = prefix_i32(b);
            if n < 0 {
                Err(Error::MalformedEncoding)
            } else {
                match spec_decode_elems(*t, n as nat, 0, b.skip(4)) {
                    Ok(vs) => Ok(ValModel::List(vs)),
                    Err(e) => Err(e),
                }
            }
        },
        TypeTag::Mapping(kt, vt) => if b.len() < 4 {
            Err(Error::MalformedEncoding)
        } else {
            let n = prefix_i32(b);
            if n < 0 {
                Err(Error::MalformedEncoding)
            } else {
                match spec_decode_pairs(*kt, *vt, n as nat, 0, b.skip(4)) {
                    Ok(ps) => Ok(ValModel::Mapping(ps)),
                    Err(e) => Err(e),
                }
            }
        },
        TypeTag::Udt(fs) => match spec_decode_fields(fs@, 0, b) {
            Ok(fvs) => Ok(ValModel::Udt(fvs)),
            Err(e) => Err(e),
        },
        TypeTag::Tuple(ts) => match spec_decode_items(ts@, 0, b) {
            Ok(vs) => Ok(ValModel::Tuple(vs)),
            Err(e) => Err(e),
        },
    }
}

/// Decoding of `n` length-prefixed list elements, all under tag `t`, starting
/// at element position `i`; the elements must exhaust the buffer exactly.
pub open spec fn spec_decode_elems(t: TypeTag, n: nat, i: nat, b: Seq<u8>) -> Result<
    Seq<ValModel>,
    Error,
>
    decreases b.len(), 0nat,
{
    if n == 0 {
        if b.len() == 0 {
            Ok(Seq::empty())
        } else {
            Err(Error::MalformedEncoding)
        }
    } else if b.len() < 4 {
        Err(Error::MalformedEncoding)
    } else {
        let l = prefix_i32(b);
        if l < 0 {
            Err(Error::CompositeElementFailure(i as usize, Box::new(Error::MalformedEncoding)))
        } else if b.len() < 4 + l {
            Err(Error::MalformedEncoding)
        } else {
            match spec_decode(t, b.subrange(4, 4 + l)) {
                Err(e) => Err(Error::CompositeElementFailure(i as usize, Box::new(e))),
                Ok(v) => match spec_decode_elems(t, (n - 1) as nat, i + 1, b.skip(4 + l)) {
                    Err(e) => Err(e),
                    Ok(vs) => Ok(seq![v] + vs),
                },
            }
        }
    }
}

/// Decoding of `n` key/value pairs, keys under `kt` and values under `vt`,
/// starting at pair position `i`; the pairs must exhaust the buffer exactly.
pub open spec fn spec_decode_pairs(kt: TypeTag, vt: TypeTag, n: nat, i: nat, b: Seq<u8>) -> Result<
    Seq<(ValModel, ValModel)>,
    Error,
>
    decreases b.len(), 0nat,
{
    if n == 0 {
        if b.len() == 0 {
            Ok(Seq::empty())
        } else {
            Err(Error::MalformedEncoding)
        }
    } else if b.len() < 4 {
        Err(Error::MalformedEncoding)
    } else {
        let kl = prefix_i32(b);
        if kl < 0 {
            Err(Error::CompositeElementFailure(i as usize, Box::new(Error::MalformedEncoding)))
        } else if b.len() < 4 + kl {
            Err(Error::MalformedEncoding)
        } else {
            match spec_decode(kt, b.subrange(4, 4 + kl)) {
                Err(e) => Err(Error::CompositeElementFailure(i as usize, Box::new(e))),
                Ok(k) => {
                    let rest = b.skip(4 + kl);
                    if rest.len() < 4 {
                        Err(Error::MalformedEncoding)
                    } else {
                        let vl = prefix_i32(rest);
                        if vl < 0 {
                            Err(Error::CompositeElementFailure(
                                i as usize,
                                Box::new(Error::MalformedEncoding),
                            ))
                        } else if rest.len() < 4 + vl {
                            Err(Error::MalformedEncoding)
                        } else {
                            match spec_decode(vt, rest.subrange(4, 4 + vl)) {
                                Err(e) => Err(Error::CompositeElementFailure(
                                    i as usize,
                                    Box::new(e),
                                )),
                                Ok(v) => match spec_decode_pairs(
                                    kt,
                                    vt,
                                    (n - 1) as nat,
                                    i + 1,
                                    rest.skip(4 + vl),
                                ) {
                                    Err(e) => Err(e),
                                    Ok(ps) => Ok(seq![(k, v)] + ps),
                                },
                            }
                        }
                    }
                },
            }
        }
    }
}

/// Decoding of the named fields of a user-defined type, one length-prefixed
/// buffer per declared field in order, starting at field position `i`; the
/// fields must exhaust the buffer exactly.
pub open spec fn spec_decode_fields(fs: Seq<UdtField>, i: nat, b: Seq<u8>) -> Result<
    Seq<(Seq<char>, ValModel)>,
    Error,
>
    decreases b.len(), 0nat,
{
    if fs.len() == 0 {
        if b.len() == 0 {
            Ok(Seq::empty())
        } else {
            Err(Error::MalformedEncoding)
        }
    } else if b.len() < 4 {
        Err(Error::MalformedEncoding)
    } else {
        let l = prefix_i32(b);
        if l < 0 {
            Err(Error::CompositeElementFailure(i as usize, Box::new(Error::MalformedEncoding)))
        } else if b.len() < 4 + l {
            Err(Error::MalformedEncoding)
        } else {
            match spec_decode(fs[0].tag, b.subrange(4, 4 + l)) {
                Err(e) => Err(Error::CompositeElementFailure(i as usize, Box::new(e))),
                Ok(v) => match spec_decode_fields(fs.drop_first(), i + 1, b.skip(4 + l)) {
                    Err(e) => Err(e),
                    Ok(fvs) => Ok(seq![(fs[0].name@, v)] + fvs),
                },
            }
        }
    }
}

/// Decoding of the elements of a tuple, one length-prefixed buffer per
/// declared element tag in order, starting at position `i`; the elements must
/// exhaust the buffer exactly.
pub open spec fn spec_decode_items(ts: Seq<TypeTag>, i: nat, b: Seq<u8>) -> Result<
    Seq<ValModel>,
    Error,
>
    decreases b.len(), 0nat,
{
    if ts.len() == 0 {
        if b.len() == 0 {
            Ok(Seq::empty())
        } else {
            Err(Error::MalformedEncoding)
        }
    } else if b.len() < 4 {
        Err(Error::MalformedEncoding)
    } else {
        let l = prefix_i32(b);
        if l < 0 {
            Err(Error::CompositeElementFailure(i as usize, Box::new(Error::MalformedEncoding)))
        } else if b.len() < 4 + l {
            Err(Error::MalformedEncoding)
        } else {
            match spec_decode(ts[0], b.subrange(4, 4 + l)) {
                Err(e) => Err(Error::CompositeElementFailure(i as usize, Box::new(e))),
                Ok(v) => match spec_decode_items(ts.drop_first(), i + 1, b.skip(4 + l)) {
                    Err(e) => Err(e),
                    Ok(vs) => Ok(seq![v] + vs),
                },
            }
        }
    }
}

/// The model of a decode result.
pub open spec fn result_model(r: Result<Value, Error>) -> Result<ValModel, Error> {
    match r {
        Ok(v) => Ok(val_model(v)),
        Err(e) => Err(e),
    }
}

/// The model of a decoded element sequence.
pub open spec fn vals_result_model(r: Result<Vec<Value>, Error>) -> Result<Seq<ValModel>, Error> {
    match r {
        Ok(v) => Ok(vals_model(v@)),
        Err(e) => Err(e),
    }
}

/// The model of a decoded pair sequence.
pub open spec fn pairs_result_model(r: Result<Vec<(Value, Value)>, Error>) -> Result<
    Seq<(ValModel, ValModel)>,
    Error,
> {
    match r {
        Ok(v) => Ok(pairs_model(v@)),
        Err(e) => Err(e),
    }
}

/// The model of a decoded field sequence.
pub open spec fn fields_result_model(r: Result<Vec<(String, Value)>, Error>) -> Result<
    Seq<(Seq<char>, ValModel)>,
    Error,
> {
    match r {
        Ok(v) => Ok(fields_model(v@)),
        Err(e) => Err(e),
    }
}

/// Splits a millisecond count into floor seconds and the nonnegative
/// nanosecond remainder.
fn millis_to_parts(ms: i64) -> (r: (i64, i32))
    ensures
        r.0 == millis_sec(ms),
        r.1 == millis_nsec(ms),
        0 <= r.1 < 1_000_000_000,
{
    if ms >= 0 {
        let u: u64 = ms as u64;
        let q: u64 = u / 1000;
        let r0: u64 = u % 1000;
        (q as i64, (r0 * 1_000_000) as i32)
    } else {
        let m: u64 = ((-(ms + 1)) as u64) + 1;
        let q: u64 = m / 1000;
        let r0: u64 = m % 1000;
        if r0 == 0 {
            proof {
                lemma_fundamental_div_mod_converse_div(ms as int, 1000, -(q as int), 0);
                lemma_fundamental_div_mod_converse_mod(ms as int, 1000, -(q as int), 0);
            }
            (-(q as i64), 0)
        } else {
            proof {
                lemma_fundamental_div_mod_converse_div(
                    ms as int,
                    1000,
                    -(q as int) - 1,
                    1000 - r0,
                );
                lemma_fundamental_div_mod_converse_mod(
                    ms as int,
                    1000,
                    -(q as int) - 1,
                    1000 - r0,
                );
            }
            (-(q as i64) - 1, ((1000 - r0) * 1_000_000) as i32)
        }
    }
}

/// Decodes one present column buffer according to its declared wire tag.
/// The result is exactly what [`spec_decode`] states for those bytes.
pub fn decode_value(tag: &TypeTag, b: &[u8]) -> (r: Result<Value, Error>)
    ensures
        result_model(r) == spec_decode(*tag, b@),
    decreases b@.len(), 1nat,
{
    match tag {
        TypeTag::Text => {
            let owned: Vec<u8> = slice_to_vec(b);
            match string_from_utf8(owned) {
                Some(s) => Ok(Value::Text(s)),
                None => Err(Error::MalformedEncoding),
            }
        },
        TypeTag::Boolean => {
            if b.len() == 1 {
                Ok(Value::Boolean(b[0] != 0))
            } else {
                Err(Error::MalformedEncoding)
            }
        },
        TypeTag::BigInt => {
            if b.len() == 8 {
                Ok(Value::BigInt(be_i64_of(b)))
            } else {
                Err(Error::MalformedEncoding)
            }
        },
        TypeTag::Int => {
            if b.len() == 4 {
                Ok(Value::Int(be_i32_of(b)))
            } else {
                Err(Error::MalformedEncoding)
            }
        },
        TypeTag::SmallInt => {
            if b.len() == 2 {
                Ok(Value::SmallInt(be_i16_of(b)))
            } else {
                Err(Error::MalformedEncoding)
            }
        },
        TypeTag::TinyInt => {
            if b.len() == 1 {
                Ok(Value::TinyInt(be_i8_of(b)))
            } else {
                Err(Error::MalformedEncoding)
            }
        },
        TypeTag::Double => {
            if b.len() == 8 {
                proof {
                    lemma_be_nat_bound(b@);
                    reveal_with_fuel(pow256, 9);
                }
                Ok(Value::Double(be_u64_of(b)))
            } else {
                Err(Error::MalformedEncoding)
            }
        },
        TypeTag::Float => {
            if b.len() == 4 {
                proof {
                    lemma_be_nat_bound(b@);
                    reveal_with_fuel(pow256, 5);
                }
                Ok(Value::Float(be_u64_of(b) as u32))
            } else {
                Err(Error::MalformedEncoding)
            }
        },
        TypeTag::Inet => {
            if b.len() == 4 || b.len() == 16 {
                Ok(Value::Inet(InetAddr { octets: slice_to_vec(b) }))
            } else {
                Err(Error::MalformedEncoding)
            }
        },
        TypeTag::Uuid => {
            if b.len() == 16 {
                Ok(Value::Uuid(uuid_from_bytes(b)))
            } else {
                Err(Error::MalformedEncoding)
            }
        },
        TypeTag::Timestamp => {
            if b.len() == 8 {
                let ms: i64 = be_i64_of(b);
                let parts: (i64, i32) = millis_to_parts(ms);
                Ok(Value::Timestamp(time::Timespec::new(parts.0, parts.1)))
            } else {
                Err(Error::MalformedEncoding)
            }
        },
        TypeTag::List(t) => {
            if b.len() < 4 {
                Err(Error::MalformedEncoding)
            } else {
                let n32: i32 = be_i32_of(&b[0..4]);
                proof {
                    assert(b@.subrange(0, 4) =~= b@.take(4));
                }
                if n32 < 0 {
                    Err(Error::MalformedEncoding)
                } else {
                    match decode_elems(&**t, n32 as usize, 0, &b[4..b.len()]) {
                        Ok(vs) => Ok(Value::List(vs)),
                        Err(e) => Err(e),
                    }
                }
            }
        },
        TypeTag::Mapping(kt, vt) => {
            if b.len() < 4 {
                Err(Error::MalformedEncoding)
            } else {
                let n32: i32 = be_i32_of(&b[0..4]);
                proof {
                    assert(b@.subrange(0, 4) =~= b@.take(4));
                }
                if n32 < 0 {
                    Err(Error::MalformedEncoding)
                } else {
                    match decode_pairs(&**kt, &**vt, n32 as usize, 0, &b[4..b.len()]) {
                        Ok(ps) => Ok(Value::Mapping(ps)),
                        Err(e) => Err(e),
                    }
                }
            }
        },
        TypeTag::Udt(fs) => {
            // witnesses that the declared field count fits in a usize
            let _arity: usize = fs.len();
            match decode_fields(fs.as_slice(), 0, b) {
                Ok(fvs) => Ok(Value::Udt(fvs)),
                Err(e) => Err(e),
            }
        },
        TypeTag::Tuple(ts) => {
            // witnesses that the declared element count fits in a usize
            let _arity: usize = ts.len();
            match decode_items(ts.as_slice(), 0, b) {
                Ok(vs) => Ok(Value::Tuple(vs)),
                Err(e) => Err(e),
            }
        },
    }
}

/// Decodes `n` length-prefixed elements under tag `t`, starting at element
/// position `idx`.
fn decode_elems(t: &TypeTag, n: usize, idx: usize, b: &[u8]) -> (r: Result<Vec<Value>, Error>)
    requires
        idx + n <= usize::MAX,
    ensures
        vals_result_model(r) == spec_decode_elems(*t, n as nat, idx as nat, b@),
    decreases b@.len(), 0nat,
{
    if n == 0 {
        if b.len() == 0 {
            Ok(Vec::new())
        } else {
            Err(Error::MalformedEncoding)
        }
    } else if b.len() < 4 {
        Err(Error::MalformedEncoding)
    } else {
        let l32: i32 = be_i32_of(&b[0..4]);
        proof {
            assert(b@.subrange(0, 4) =~= b@.take(4));
        }
        if l32 < 0 {
            Err(Error::CompositeElementFailure(idx, Box::new(Error::MalformedEncoding)))
        } else {
            let l: usize = l32 as usize;
            if b.len() - 4 < l {
                Err(Error::MalformedEncoding)
            } else {
                match decode_value(t, &b[4..4 + l]) {
                    Err(e) => Err(Error::CompositeElementFailure(idx, Box::new(e))),
                    Ok(v) => {
                        match decode_elems(t, n - 1, idx + 1, &b[4 + l..b.len()]) {
                            Err(e) => Err(e),
                            Ok(vs) => {
                                let mut out: Vec<Value> = vs;
                                out.insert(0, v);
                                proof {
                                    assert(out@.drop_first() =~= out@.subrange(1, out@.len() as int));
                                    assert(out@.drop_first() =~= vs@);
                                    assert(vals_model(out@) =~= seq![val_model(v)] + vals_model(vs@));
                                }
                                Ok(out)
                            },
                        }
                    },
                }
            }
        }
    }
}

/// Decodes `n` key/value pairs, keys under `kt` and values under `vt`,
/// starting at pair position `idx`.
fn decode_pairs(kt: &TypeTag, vt: &TypeTag, n: usize, idx: usize, b: &[u8]) -> (r: Result<
    Vec<(Value, Value)>,
    Error,
>)
    requires
        idx + n <= usize::MAX,
    ensures
        pairs_result_model(r) == spec_decode_pairs(*kt, *vt, n as nat, idx as nat, b@),
    decreases b@.len(), 0nat,
{
    if n == 0 {
        if b.len() == 0 {
            Ok(Vec::new())
        } else {
            Err(Error::MalformedEncoding)
        }
    } else if b.len() < 4 {
        Err(Error::MalformedEncoding)
    } else {
        let kl32: i32 = be_i32_of(&b[0..4]);
        proof {
            assert(b@.subrange(0, 4) =~= b@.take(4));
        }
        if kl32 < 0 {
            Err(Error::CompositeElementFailure(idx, Box::new(Error::MalformedEncoding)))
        } else {
            let kl: usize = kl32 as usize;
            if b.len() - 4 < kl {
                Err(Error::MalformedEncoding)
            } else {
                match decode_value(kt, &b[4..4 + kl]) {
                    Err(e) => Err(Error::CompositeElementFailure(idx, Box::new(e))),
                    Ok(k) => {
                        let rest: &[u8] = &b[4 + kl..b.len()];
                        if rest.len() < 4 {
                            Err(Error::MalformedEncoding)
                        } else {
                            let vl32: i32 = be_i32_of(&rest[0..4]);
                            proof {
                                assert(rest@.subrange(0, 4) =~= rest@.take(4));
                            }
                            if vl32 < 0 {
                                Err(Error::CompositeElementFailure(
                                    idx,
                                    Box::new(Error::MalformedEncoding),
                                ))
                            } else {
                                let vl: usize = vl32 as usize;
                                if rest.len() - 4 < vl {
                                    Err(Error::MalformedEncoding)
                                } else {
                                    match decode_value(vt, &rest[4..4 + vl]) {
                                        Err(e) => Err(Error::CompositeElementFailure(
                                            idx,
                                            Box::new(e),
                                        )),
                                        Ok(v) => {
                                            match decode_pairs(
                                                kt,
                                                vt,
                                                n - 1,
                                                idx + 1,
                                                &rest[4 + vl..rest.len()],
                                            ) {
                                                Err(e) => Err(e),
                                                Ok(ps) => {
                                                    let mut out: Vec<(Value, Value)> = ps;
                                                    out.insert(0, (k, v));
                                                    proof {
                                                        assert(out@.drop_first() =~= ps@);
                                                        assert(pairs_model(out@) =~= seq![
                                                            (val_model(k), val_model(v)),
                                                        ] + pairs_model(ps@));
                                                    }
                                                    Ok(out)
                                                },
                                            }
                                        },
                                    }
                                }
                            }
                        }
                    },
                }
            }
        }
    }
}

/// Decodes the named fields of a user-defined type, starting at field
/// position `idx`.
fn decode_fields(fs: &[UdtField], idx: usize, b: &[u8]) -> (r: Result<Vec<(String, Value)>, Error>)
    requires
        idx + fs@.len() <= usize::MAX,
    ensures
        fields_result_model(r) == spec_decode_fields(fs@, idx as nat, b@),
    decreases b@.len(), 0nat,
{
    if fs.len() == 0 {
        if b.len() == 0 {
            Ok(Vec::new())
        } else {
            Err(Error::MalformedEncoding)
        }
    } else if b.len() < 4 {
        Err(Error::MalformedEncoding)
    } else {
        let l32: i32 = be_i32_of(&b[0..4]);
        proof {
            assert(b@.subrange(0, 4) =~= b@.take(4));
        }
        if l32 < 0 {
            Err(Error::CompositeElementFailure(idx, Box::new(Error::MalformedEncoding)))
        } else {
            let l: usize = l32 as usize;
            if b.len() - 4 < l {
                Err(Error::MalformedEncoding)
            } else {
                match decode_value(&fs[0].tag, &b[4..4 + l]) {
                    Err(e) => Err(Error::CompositeElementFailure(idx, Box::new(e))),
                    Ok(v) => {
                        match decode_fields(&fs[1..fs.len()], idx + 1, &b[4 + l..b.len()]) {
                            Err(e) => Err(e),
                            Ok(fvs) => {
                                let name: String = fs[0].name.clone();
                                let mut out: Vec<(String, Value)> = fvs;
                                out.insert(0, (name, v));
                                proof {
                                    assert(fs@.subrange(1, fs@.len() as int) =~= fs@.drop_first());
                                    assert(out@.drop_first() =~= fvs@);
                                    assert(fields_model(out@) =~= seq![
                                        (fs@[0].name@, val_model(v)),
                                    ] + fields_model(fvs@));
                                }
                                Ok(out)
                            },
                        }
                    },
                }
            }
        }
    }
}

/// Decodes the elements of a tuple, one per declared tag, starting at element
/// position `idx`.
fn decode_items(ts: &[TypeTag], idx: usize, b: &[u8]) -> (r: Result<Vec<Value>, Error>)
    requires
        idx + ts@.len() <= usize::MAX,
    ensures
        vals_result_model(r) == spec_decode_items(ts@, idx as nat, b@),
    decreases b@.len(), 0nat,
{
    if ts.len() == 0 {
        if b.len() == 0 {
            Ok(Vec::new())
        } else {
            Err(Error::MalformedEncoding)
        }
    } else if b.len() < 4 {
        Err(Error::MalformedEncoding)
    } else {
        let l32: i32 = be_i32_of(&b[0..4]);
        proof {
            assert(b@.subrange(0, 4) =~= b@.take(4));
        }
        if l32 < 0 {
            Err(Error::CompositeElementFailure(idx, Box::new(Error::MalformedEncoding)))
        } else {
            let l: usize = l32 as usize;
            if b.len() - 4 < l {
                Err(Error::MalformedEncoding)
            } else {
                match decode_value(&ts[0], &b[4..4 + l]) {
                    Err(e) => Err(Error::CompositeElementFailure(idx, Box::new(e))),
                    Ok(v) => {
                        match decode_items(&ts[1..ts.len()], idx + 1, &b[4 + l..b.len()]) {
                            Err(e) => Err(e),
                            Ok(vs) => {
                                let mut out: Vec<Value> = vs;
                                out.insert(0, v);
                                proof {
                                    assert(ts@.subrange(1, ts@.len() as int) =~= ts@.drop_first());
                                    assert(out@.drop_first() =~= vs@);
                                    assert(vals_model(out@) =~= seq![val_model(v)] + vals_model(vs@));
                                }
                                Ok(out)
                            },
                        }
                    },
                }
            }
        }
    }
}

} // verus!
