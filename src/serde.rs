//! The save-state encoding: little-endian fixed-width integers and
//! length-prefixed byte vectors, one after another with no framing.
use vstd::prelude::*;

verus! {

/// The input ran out before a value was complete.
#[derive(Clone, Copy, Debug, PartialEq, Eq, Structural)]
pub struct DecodeError;

/// 256 to the power `n`.
pub open spec fn pow256(n: nat) -> nat
    decreases n,
{
    if n == 0 { 1 } else { 256 * pow256((n - 1) as nat) }
}

/// The `n` little-endian bytes of `x` (modulo 256^n).
pub open spec fn le_bytes(x: nat, n: nat) -> Seq<u8>
    decreases n,
{
    if n == 0 {
        Seq::empty()
    } else {
        seq![(x % 256) as u8] + le_bytes(x / 256, (n - 1) as nat)
    }
}

/// The number that little-endian bytes stand for.
pub open spec fn le_value(s: Seq<u8>) -> nat
    decreases s.len(),
{
    if s.len() == 0 { 0 } else { s[0] as nat + 256 * le_value(s.drop_first()) }
}

pub proof fn lemma_le_bytes_len(x: nat, n: nat)
    ensures
        le_bytes(x, n).len() == n,
    decreases n,
{
    if n > 0 {
        lemma_le_bytes_len(x / 256, (n - 1) as nat);
    }
}

pub proof fn lemma_le_value_bound(s: Seq<u8>)
    ensures
        le_value(s) < pow256(s.len()),
    decreases s.len(),
{
    if s.len() > 0 {
        lemma_le_value_bound(s.drop_first());
    }
}

/// Decoding what was encoded gives the value back, for any value that fits.
pub proof fn lemma_le_round_trip(x: nat, n: nat)
    requires
        x < pow256(n),
    ensures
        le_value(le_bytes(x, n)) == x,
    decreases n,
{
    if n > 0 {
        let rest = le_bytes(x / 256, (n - 1) as nat);
        assert(x / 256 < pow256((n - 1) as nat)) by (nonlinear_arith)
            requires
                x < 256 * pow256((n - 1) as nat),
        ;
        lemma_le_round_trip(x / 256, (n - 1) as nat);
        assert((seq![(x % 256) as u8] + rest).drop_first() =~= rest);
    }
}

pub proof fn lemma_pow256_small()
    ensures
        pow256(1) == 0x100,
        pow256(2) == 0x10000,
        pow256(4) == 0x1_0000_0000,
        pow256(8) == 0x1_0000_0000_0000_0000,
{
    reveal_with_fuel(pow256, 9);
}

proof fn lemma_pow256_mono(a: nat, b: nat)
    requires
        a <= b,
    ensures
        pow256(a) <= pow256(b),
    decreases b,
{
    if a < b {
        lemma_pow256_mono(a, (b - 1) as nat);
    }
}

/// Appends the `n` low-order little-endian bytes of `x`.
pub fn encode_le(out: &mut Vec<u8>, x: u64, n: usize)
    requires
        n <= 8,
    ensures
        final(out)@ == old(out)@ + le_bytes(x as nat, n as nat),
{
    let mut v = x;
    let mut i: usize = 0;
    while i < n
        invariant
            i <= n,
            out@ + le_bytes(v as nat, (n - i) as nat) == old(out)@ + le_bytes(x as nat, n as nat),
        decreases n - i,
    {
        let ghost before = out@;
        out.push((v % 256) as u8);
        assert(out@ + le_bytes((v / 256) as nat, (n - i - 1) as nat)
            =~= before + le_bytes(v as nat, (n - i) as nat));
        v = v / 256;
        i = i + 1;
    }
    assert(out@ + le_bytes(v as nat, 0) =~= out@);
}

/// Reads `n` little-endian bytes at `*pos`, moving past them.
pub fn decode_le(input: &Vec<u8>, pos: &mut usize, n: usize) -> (r: Result<u64, DecodeError>)
    requires
        n <= 8,
    ensures
        *old(pos) + n <= input@.len() ==> r == Ok::<u64, DecodeError>(
            le_value(input@.subrange(*old(pos) as int, *old(pos) + n)) as u64)
            && *final(pos) == *old(pos) + n,
        *old(pos) + n > input@.len() ==> r == Err::<u64, DecodeError>(DecodeError)
            && *final(pos) == *old(pos),
{
    if n > input.len() || *pos > input.len() - n {
        return Err(DecodeError);
    }
    let start = *pos;
    let mut acc: u64 = 0;
    let mut i: usize = n;
    while i > 0
        invariant
            i <= n <= 8,
            start + n <= input.len(),
            acc as nat == le_value(input@.subrange(start + i, start + n)),
        decreases i,
    {
        proof {
            let s = input@.subrange(start + i - 1, start + n);
            assert(s.drop_first() =~= input@.subrange(start + i, start + n));
            lemma_le_value_bound(s);
            lemma_pow256_small();
            lemma_pow256_mono(s.len(), 8);
        }
        acc = acc * 256 + input[start + i - 1] as u64;
        i = i - 1;
    }
    *pos = start + n;
    Ok(acc)
}

pub fn encode_u8(out: &mut Vec<u8>, d: u8)
    ensures
        final(out)@ == old(out)@.push(d),
{
    out.push(d);
}

pub fn decode_u8(input: &Vec<u8>, pos: &mut usize) -> (r: Result<u8, DecodeError>)
    ensures
        *old(pos) < input@.len() ==> r == Ok::<u8, DecodeError>(input@[*old(pos) as int])
            && *final(pos) == *old(pos) + 1,
        *old(pos) >= input@.len() ==> r == Err::<u8, DecodeError>(DecodeError) && *final(pos) == *old(pos),
{
    if *pos >= input.len() {
        return Err(DecodeError);
    }
    let b = input[*pos];
    *pos = *pos + 1;
    Ok(b)
}

pub fn encode_u16(out: &mut Vec<u8>, d: u16)
    ensures
        final(out)@ == old(out)@ + le_bytes(d as nat, 2),
{
    encode_le(out, d as u64, 2);
}

pub fn decode_u16(input: &Vec<u8>, pos: &mut usize) -> (r: Result<u16, DecodeError>)
    ensures
        *old(pos) + 2 <= input@.len() ==> r == Ok::<u16, DecodeError>(
            le_value(input@.subrange(*old(pos) as int, *old(pos) + 2)) as u16)
            && *final(pos) == *old(pos) + 2,
        *old(pos) + 2 > input@.len() ==> r.is_err() && *final(pos) == *old(pos),
{
    let v = match decode_le(input, pos, 2) {
        Ok(v) => v,
        Err(e) => return Err(e),
    };
    proof {
        lemma_le_value_bound(input@.subrange(*old(pos) as int, *old(pos) + 2));
        lemma_pow256_small();
    }
    Ok(v as u16)
}

pub fn encode_u32(out: &mut Vec<u8>, d: u32)
    ensures
        final(out)@ == old(out)@ + le_bytes(d as nat, 4),
{
    encode_le(out, d as u64, 4);
}

pub fn decode_u32(input: &Vec<u8>, pos: &mut usize) -> (r: Result<u32, DecodeError>)
    ensures
        *old(pos) + 4 <= input@.len() ==> r == Ok::<u32, DecodeError>(
            le_value(input@.subrange(*old(pos) as int, *old(pos) + 4)) as u32)
            && *final(pos) == *old(pos) + 4,
        *old(pos) + 4 > input@.len() ==> r.is_err() && *final(pos) == *old(pos),
{
    let v = match decode_le(input, pos, 4) {
        Ok(v) => v,
        Err(e) => return Err(e),
    };
    proof {
        lemma_le_value_bound(input@.subrange(*old(pos) as int, *old(pos) + 4));
        lemma_pow256_small();
    }
    Ok(v as u32)
}

pub fn encode_u64(out: &mut Vec<u8>, d: u64)
    ensures
        final(out)@ == old(out)@ + le_bytes(d as nat, 8),
{
    encode_le(out, d, 8);
}

pub fn decode_u64(input: &Vec<u8>, pos: &mut usize) -> (r: Result<u64, DecodeError>)
    ensures
        *old(pos) + 8 <= input@.len() ==> r == Ok::<u64, DecodeError>(
            le_value(input@.subrange(*old(pos) as int, *old(pos) + 8)) as u64)
            && *final(pos) == *old(pos) + 8,
        *old(pos) + 8 > input@.len() ==> r.is_err() && *final(pos) == *old(pos),
{
    decode_le(input, pos, 8)
}

/// A `usize` is written as eight bytes whatever the platform's width.
pub fn encode_usize(out: &mut Vec<u8>, d: usize)
    ensures
        final(out)@ == old(out)@ + le_bytes(d as nat, 8),
{
    encode_le(out, d as u64, 8);
}

/// Reads an eight-byte length; one that does not fit the platform is an error.
pub fn decode_usize(input: &Vec<u8>, pos: &mut usize) -> (r: Result<usize, DecodeError>)
    ensures
        r.is_ok() ==> r.unwrap() as nat == le_value(input@.subrange(*old(pos) as int, *old(pos) + 8))
            && *final(pos) == *old(pos) + 8,
        *old(pos) + 8 > input@.len() ==> r.is_err(),
        *old(pos) + 8 <= input@.len() && le_value(input@.subrange(*old(pos) as int, *old(pos) + 8))
            <= usize::MAX ==> r.is_ok(),
{
    let v = match decode_le(input, pos, 8) {
        Ok(v) => v,
        Err(e) => return Err(e),
    };
    proof {
        lemma_le_value_bound(input@.subrange(*old(pos) as int, *old(pos) + 8));
        lemma_pow256_small();
    }
    if v > usize::MAX as u64 {
        return Err(DecodeError);
    }
    Ok(v as usize)
}

/// A byte vector: its length as a `usize`, then its bytes.
pub fn encode_vec(out: &mut Vec<u8>, d: &Vec<u8>)
    ensures
        final(out)@ == old(out)@ + le_bytes(d@.len() as nat, 8) + d@,
{
    encode_usize(out, d.len());
    let ghost mid = out@;
    let mut i: usize = 0;
    while i < d.len()
        invariant
            i <= d@.len(),
            out@ == mid + d@.subrange(0, i as int),
        decreases d@.len() - i,
    {
        out.push(d[i]);
        i = i + 1;
        assert(out@ =~= mid + d@.subrange(0, i as int));
    }
    assert(d@.subrange(0, d@.len() as int) =~= d@);
}

pub fn decode_vec(input: &Vec<u8>, pos: &mut usize) -> (r: Result<Vec<u8>, DecodeError>)
    ensures
        r.is_ok() ==> {
            let n = le_value(input@.subrange(*old(pos) as int, *old(pos) + 8));
            &&& *old(pos) + 8 + n <= input@.len()
            &&& r.unwrap()@ == input@.subrange(*old(pos) + 8, *old(pos) + 8 + n)
            &&& *final(pos) == *old(pos) + 8 + n
        },
        *old(pos) + 8 > input@.len() ==> r.is_err(),
        *old(pos) + 8 <= input@.len() && *old(pos) + 8 + le_value(input@.subrange(*old(pos) as int,
            *old(pos) + 8)) <= input@.len() ==> r.is_ok(),
{
    let total = input.len();
    assert(input@.len() == total);
    let n = match decode_usize(input, pos) {
        Ok(n) => n,
        Err(e) => return Err(e),
    };
    if n > input.len() || *pos > input.len() - n {
        return Err(DecodeError);
    }
    let start = *pos;
    let mut v: Vec<u8> = Vec::new();
    let mut i: usize = 0;
    while i < n
        invariant
            i <= n,
            start + n <= input.len(),
            v@ == input@.subrange(start as int, start + i),
        decreases n - i,
    {
        v.push(input[start + i]);
        i = i + 1;
        assert(v@ =~= input@.subrange(start as int, start + i));
    }
    *pos = start + n;
    Ok(v)
}

/// Decoding a freshly encoded `u16` at its position gives it back.
pub proof fn lemma_u16_round_trip(prefix: Seq<u8>, d: u16)
    ensures
        ({
            let s = prefix + le_bytes(d as nat, 2);
            le_value(s.subrange(prefix.len() as int, prefix.len() as int + 2)) == d
        }),
{
    lemma_pow256_small();
    lemma_le_bytes_len(d as nat, 2);
    let s = prefix + le_bytes(d as nat, 2);
    assert(s.subrange(prefix.len() as int, prefix.len() as int + 2) =~= le_bytes(d as nat, 2));
    lemma_le_round_trip(d as nat, 2);
}

/// Decoding a freshly encoded `u64` at its position gives it back.
pub proof fn lemma_u64_round_trip(prefix: Seq<u8>, d: u64)
    ensures
        ({
            let s = prefix + le_bytes(d as nat, 8);
            le_value(s.subrange(prefix.len() as int, prefix.len() as int + 8)) == d
        }),
{
    lemma_pow256_small();
    lemma_le_bytes_len(d as nat, 8);
    let s = prefix + le_bytes(d as nat, 8);
    assert(s.subrange(prefix.len() as int, prefix.len() as int + 8) =~= le_bytes(d as nat, 8));
    lemma_le_round_trip(d as nat, 8);
}

} // verus!
