use vstd::prelude::*;

verus! {

/// The unsigned big-endian reading of a byte string: the first byte is the
/// most significant.
pub open spec fn be_nat(s: Seq<u8>) -> nat
    decreases s.len(),
{
    if s.len() == 0 {
        0
    } else {
        be_nat(s.drop_last()) * 256 + s.last() as nat
    }
}

/// 256 to the power `n`: the number of distinct byte strings of length `n`.
pub open spec fn pow256(n: nat) -> nat
    decreases n,
{
    if n == 0 {
        1
    } else {
        256 * pow256((n - 1) as nat)
    }
}

/// The signed two's-complement reading of an unsigned value below `modulus`.
pub open spec fn twos_complement(u: nat, modulus: nat) -> int {
    if u < modulus / 2 {
        u as int
    } else {
        u - modulus
    }
}

/// A byte string of length `n` reads below `pow256(n)`.
pub proof fn lemma_be_nat_bound(s: Seq<u8>)
    ensures
        be_nat(s) < pow256(s.len()),
    decreases s.len(),
{
    if s.len() == 0 {
    } else {
        lemma_be_nat_bound(s.drop_last());
    }
}

/// `pow256` is monotone.
pub proof fn lemma_pow256_mono(a: nat, b: nat)
    requires
        a <= b,
    ensures
        pow256(a) <= pow256(b),
    decreases b,
{
    if a < b {
        lemma_pow256_mono(a, (b - 1) as nat);
    }
}

/// Reads a big-endian unsigned integer from at most eight bytes.
pub fn be_u64_of(b: &[u8]) -> (r: u64)
    requires
        b@.len() <= 8,
    ensures
        r == be_nat(b@),
{
    let n: usize = b.len();
    let mut acc: u64 = 0;
    let mut i: usize = 0;
    while i < n
        invariant
            i <= n,
            n == b@.len(),
            n <= 8,
            acc == be_nat(b@.take(i as int)),
        decreases n - i,
    {
        proof {
            lemma_be_nat_bound(b@.take(i as int));
            lemma_pow256_mono(i as nat, 7);
            reveal_with_fuel(pow256, 9);
            assert(b@.take(i + 1).drop_last() =~= b@.take(i as int));
            assert(b@.take(i + 1).last() == b@[i as int]);
        }
        acc = acc * 256 + (b[i] as u64);
        i = i + 1;
    }
    proof {
        assert(b@.take(n as int) =~= b@);
    }
    acc
}

/// Decodes exactly eight bytes as a big-endian 64-bit signed integer.
pub fn be_i64_of(b: &[u8]) -> (r: i64)
    requires
        b@.len() == 8,
    ensures
        r as int == twos_complement(be_nat(b@), 0x10000000000000000),
{
    let u: u64 = be_u64_of(b);
    if u < 0x8000000000000000 {
        u as i64
    } else {
        -((u64::MAX - u) as i64) - 1
    }
}

/// Decodes exactly four bytes as a big-endian 32-bit signed integer.
pub fn be_i32_of(b: &[u8]) -> (r: i32)
    requires
        b@.len() == 4,
    ensures
        r as int == twos_complement(be_nat(b@), 0x100000000),
{
    let u: u64 = be_u64_of(b);
    proof {
        lemma_be_nat_bound(b@);
        reveal_with_fuel(pow256, 5);
    }
    if u < 0x80000000 {
        u as i32
    } else {
        ((u as i64) - 0x100000000i64) as i32
    }
}

/// Decodes exactly two bytes as a big-endian 16-bit signed integer.
pub fn be_i16_of(b: &[u8]) -> (r: i16)
    requires
        b@.len() == 2,
    ensures
        r as int == twos_complement(be_nat(b@), 0x10000),
{
    let u: u64 = be_u64_of(b);
    proof {
        lemma_be_nat_bound(b@);
        reveal_with_fuel(pow256, 3);
    }
    if u < 0x8000 {
        u as i16
    } else {
        ((u as i64) - 0x10000i64) as i16
    }
}

/// Decodes exactly one byte as an 8-bit signed integer.
pub fn be_i8_of(b: &[u8]) -> (r: i8)
    requires
        b@.len() == 1,
    ensures
        r as int == twos_complement(be_nat(b@), 0x100),
{
    let u: u64 = be_u64_of(b);
    proof {
        lemma_be_nat_bound(b@);
        reveal_with_fuel(pow256, 2);
    }
    if u < 0x80 {
        u as i8
    } else {
        ((u as i64) - 0x100i64) as i8
    }
}

} // verus!
