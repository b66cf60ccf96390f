//! Byte-level building blocks of the image: little-endian, big-endian and
//! both-endian integer fields, zero and space padding, sector alignment,
//! in-place patching, and the 16-bit and 32-bit word sums used by the boot
//! catalog and the boot info table.
//!
//! Every executable helper appends to a `Vec<u8>` and is proved to append
//! exactly the byte sequence given by the matching spec function.

use vstd::prelude::*;

verus! {

/// Size of one logical sector, in bytes.
pub const SECTOR_SIZE: usize = 2048;

/// `n` zero bytes.
pub open spec fn zeros(n: nat) -> Seq<u8> {
    Seq::new(n, |i: int| 0u8)
}

/// `n` ASCII space bytes, the filler of fixed-width identifier fields.
pub open spec fn spaces(n: nat) -> Seq<u8> {
    Seq::new(n, |i: int| 0x20u8)
}

/// A 16-bit value as two little-endian bytes.
pub open spec fn spec_le16(v: u16) -> Seq<u8> {
    seq![(v % 0x100) as u8, (v / 0x100) as u8]
}

/// A 16-bit value as two big-endian bytes.
pub open spec fn spec_be16(v: u16) -> Seq<u8> {
    seq![(v / 0x100) as u8, (v % 0x100) as u8]
}

/// A 32-bit value as four little-endian bytes.
pub open spec fn spec_le32(v: u32) -> Seq<u8> {
    seq![
        (v % 0x100) as u8,
        ((v / 0x100) % 0x100) as u8,
        ((v / 0x10000) % 0x100) as u8,
        (v / 0x1000000) as u8,
    ]
}

/// A 32-bit value as four big-endian bytes.
pub open spec fn spec_be32(v: u32) -> Seq<u8> {
    seq![
        (v / 0x1000000) as u8,
        ((v / 0x10000) % 0x100) as u8,
        ((v / 0x100) % 0x100) as u8,
        (v % 0x100) as u8,
    ]
}

/// A 64-bit value as eight little-endian bytes.
pub open spec fn spec_le64(v: u64) -> Seq<u8> {
    seq![
        (v % 0x100) as u8,
        ((v / 0x100) % 0x100) as u8,
        ((v / 0x10000) % 0x100) as u8,
        ((v / 0x1000000) % 0x100) as u8,
        ((v / 0x100000000) % 0x100) as u8,
        ((v / 0x10000000000) % 0x100) as u8,
        ((v / 0x1000000000000) % 0x100) as u8,
        (v / 0x100000000000000) as u8,
    ]
}

/// A 16-bit "both-endian" field: the little-endian copy then the big-endian copy.
pub open spec fn spec_both16(v: u16) -> Seq<u8> {
    spec_le16(v) + spec_be16(v)
}

/// A 32-bit "both-endian" field: the little-endian copy then the big-endian copy.
pub open spec fn spec_both32(v: u32) -> Seq<u8> {
    spec_le32(v) + spec_be32(v)
}

/// The numeric value of two bytes read little-endian.
pub open spec fn le16_val(s: Seq<u8>) -> int
    recommends
        s.len() == 2,
{
    s[0] + 0x100 * s[1]
}

/// The numeric value of two bytes read big-endian.
pub open spec fn be16_val(s: Seq<u8>) -> int
    recommends
        s.len() == 2,
{
    s[1] + 0x100 * s[0]
}

/// The numeric value of four bytes read little-endian.
pub open spec fn le32_val(s: Seq<u8>) -> int
    recommends
        s.len() == 4,
{
    s[0] + 0x100 * s[1] + 0x10000 * s[2] + 0x1000000 * s[3]
}

/// The numeric value of four bytes read big-endian.
pub open spec fn be32_val(s: Seq<u8>) -> int
    recommends
        s.len() == 4,
{
    s[3] + 0x100 * s[2] + 0x10000 * s[1] + 0x1000000 * s[0]
}

/// Law: the two copies of a 16-bit both-endian field decode to the same
/// value, namely the value that was encoded.
pub proof fn lemma_both16_agree(v: u16)
    ensures
        le16_val(spec_both16(v).take(2)) == v,
        be16_val(spec_both16(v).skip(2)) == v,
{
    assert(spec_both16(v).take(2) =~= spec_le16(v));
    assert(spec_both16(v).skip(2) =~= spec_be16(v));
    assert(v % 0x100 + 0x100 * (v / 0x100) == v) by (bit_vector);
}

/// Law: the two copies of a 32-bit both-endian field decode to the same
/// value, namely the value that was encoded.
pub proof fn lemma_both32_agree(v: u32)
    ensures
        le32_val(spec_both32(v).take(4)) == v,
        be32_val(spec_both32(v).skip(4)) == v,
{
    assert(spec_both32(v).take(4) =~= spec_le32(v));
    assert(spec_both32(v).skip(4) =~= spec_be32(v));
    assert(v % 0x100 + 0x100 * ((v / 0x100) % 0x100) + 0x10000 * ((v / 0x10000) % 0x100)
        + 0x1000000 * (v / 0x1000000) == v) by (bit_vector);
}

/// Number of whole sectors needed to hold `n` bytes.
pub open spec fn spec_sectors(n: nat) -> nat {
    n / 2048 + if n % 2048 == 0 {
        0nat
    } else {
        1nat
    }
}

/// Number of zero bytes that pad `n` bytes up to the next sector boundary.
pub open spec fn pad_len(n: nat) -> nat {
    if n % 2048 == 0 {
        0nat
    } else {
        (2048 - n % 2048) as nat
    }
}

/// `s` zero-padded up to the next sector boundary.
pub open spec fn padded(s: Seq<u8>) -> Seq<u8> {
    s + zeros(pad_len(s.len()))
}

pub proof fn lemma_padded_len(s: Seq<u8>)
    ensures
        padded(s).len() == 2048 * spec_sectors(s.len()),
        padded(s).len() % 2048 == 0,
{
    let n: int = s.len() as int;
    vstd::arithmetic::div_mod::lemma_fundamental_div_mod(n, 2048);
    let q: int = n / 2048;
    if n % 2048 == 0 {
        assert(padded(s).len() == 2048 * q);
        vstd::arithmetic::div_mod::lemma_mod_multiples_basic(q, 2048);
    } else {
        assert(padded(s).len() == 2048 * q + 2048);
        assert(2048 * q + 2048 == 2048 * (q + 1));
        vstd::arithmetic::div_mod::lemma_mod_multiples_basic(q + 1, 2048);
    }
}

/// Padding a whole number of sectors followed by `b` pads `b` alone.
pub proof fn lemma_padded_concat(a: Seq<u8>, b: Seq<u8>)
    requires
        a.len() % 2048 == 0,
    ensures
        padded(a + b) == a + padded(b),
{
    vstd::arithmetic::div_mod::lemma_add_mod_noop(a.len() as int, b.len() as int, 2048);
    assert((a.len() + b.len()) % 2048 == b.len() % 2048);
    assert(padded(a + b) =~= a + padded(b));
}

/// `n` bytes fit in their sector count, which covers `n` plus its padding.
pub proof fn lemma_sectors_len(n: nat)
    ensures
        2048 * spec_sectors(n) == n + pad_len(n),
        n <= 2048 * spec_sectors(n),
{
    vstd::arithmetic::div_mod::lemma_fundamental_div_mod(n as int, 2048);
}

/// `base` with `patch` written over it starting at `off`; bytes of the patch
/// that would fall beyond the end of `base` are dropped.
pub open spec fn overlay(base: Seq<u8>, off: int, patch: Seq<u8>) -> Seq<u8> {
    Seq::new(
        base.len(),
        |i: int|
            if off <= i < off + patch.len() {
                patch[i - off]
            } else {
                base[i]
            },
    )
}

/// Sum of the 16-bit little-endian words of `s`, taken two bytes at a time
/// from the front; a trailing odd byte does not contribute.
pub open spec fn word_sum16(s: Seq<u8>) -> int
    decreases s.len(),
{
    if s.len() < 2 {
        0
    } else {
        word_sum16(s.take(s.len() - 2)) + le16_val(s.skip(s.len() - 2))
    }
}

/// Sum of the 32-bit little-endian words of `s`; trailing bytes short of a
/// whole word do not contribute.
pub open spec fn word_sum32(s: Seq<u8>) -> int
    decreases s.len(),
{
    if s.len() < 4 {
        0
    } else {
        word_sum32(s.take(s.len() - 4)) + le32_val(s.skip(s.len() - 4))
    }
}

/// Whole sectors needed to hold `len` bytes.
pub fn sector_count(len: u64) -> (r: u64)
    ensures
        r == spec_sectors(len as nat),
{
    len / 2048 + if len % 2048 == 0 {
        0
    } else {
        1
    }
}

/// Append every byte of `s` to `out`.
pub fn push_bytes(out: &mut Vec<u8>, s: &[u8])
    ensures
        final(out)@ == old(out)@ + s@,
{
    let mut i: usize = 0;
    while i < s.len()
        invariant
            i <= s@.len(),
            out@ == old(out)@ + s@.take(i as int),
        decreases s@.len() - i,
    {
        out.push(s[i]);
        i = i + 1;
        assert(out@ =~= old(out)@ + s@.take(i as int));
    }
    assert(s@.take(s@.len() as int) =~= s@);
}

/// Append `n` zero bytes to `out`.
pub fn push_zeros(out: &mut Vec<u8>, n: usize)
    ensures
        final(out)@ == old(out)@ + zeros(n as nat),
{
    let mut i: usize = 0;
    while i < n
        invariant
            i <= n,
            out@ == old(out)@ + zeros(i as nat),
        decreases n - i,
    {
        out.push(0u8);
        i = i + 1;
        assert(out@ =~= old(out)@ + zeros(i as nat));
    }
}

/// Append `n` space bytes to `out`.
pub fn push_spaces(out: &mut Vec<u8>, n: usize)
    ensures
        final(out)@ == old(out)@ + spaces(n as nat),
{
    let mut i: usize = 0;
    while i < n
        invariant
            i <= n,
            out@ == old(out)@ + spaces(i as nat),
        decreases n - i,
    {
        out.push(0x20u8);
        i = i + 1;
        assert(out@ =~= old(out)@ + spaces(i as nat));
    }
}

/// Append a 16-bit little-endian field.
pub fn push_le16(out: &mut Vec<u8>, v: u16)
    ensures
        final(out)@ == old(out)@ + spec_le16(v),
{
    out.push((v % 0x100) as u8);
    out.push((v / 0x100) as u8);
    assert(out@ =~= old(out)@ + spec_le16(v));
}

/// Append a 16-bit big-endian field.
pub fn push_be16(out: &mut Vec<u8>, v: u16)
    ensures
        final(out)@ == old(out)@ + spec_be16(v),
{
    out.push((v / 0x100) as u8);
    out.push((v % 0x100) as u8);
    assert(out@ =~= old(out)@ + spec_be16(v));
}

/// Append a 16-bit both-endian field.
pub fn push_both16(out: &mut Vec<u8>, v: u16)
    ensures
        final(out)@ == old(out)@ + spec_both16(v),
{
    push_le16(out, v);
    push_be16(out, v);
}

/// Append a 32-bit little-endian field.
pub fn push_le32(out: &mut Vec<u8>, v: u32)
    ensures
        final(out)@ == old(out)@ + spec_le32(v),
{
    out.push((v % 0x100) as u8);
    out.push(((v / 0x100) % 0x100) as u8);
    out.push(((v / 0x10000) % 0x100) as u8);
    out.push((v / 0x1000000) as u8);
    assert(out@ =~= old(out)@ + spec_le32(v));
}

/// Append a 32-bit big-endian field.
pub fn push_be32(out: &mut Vec<u8>, v: u32)
    ensures
        final(out)@ == old(out)@ + spec_be32(v),
{
    out.push((v / 0x1000000) as u8);
    out.push(((v / 0x10000) % 0x100) as u8);
    out.push(((v / 0x100) % 0x100) as u8);
    out.push((v % 0x100) as u8);
    assert(out@ =~= old(out)@ + spec_be32(v));
}

/// Append a 32-bit both-endian field.
pub fn push_both32(out: &mut Vec<u8>, v: u32)
    ensures
        final(out)@ == old(out)@ + spec_both32(v),
{
    push_le32(out, v);
    push_be32(out, v);
}

/// Append a 64-bit little-endian field.
pub fn push_le64(out: &mut Vec<u8>, v: u64)
    ensures
        final(out)@ == old(out)@ + spec_le64(v),
{
    out.push((v % 0x100) as u8);
    out.push(((v / 0x100) % 0x100) as u8);
    out.push(((v / 0x10000) % 0x100) as u8);
    out.push(((v / 0x1000000) % 0x100) as u8);
    out.push(((v / 0x100000000) % 0x100) as u8);
    out.push(((v / 0x10000000000) % 0x100) as u8);
    out.push(((v / 0x1000000000000) % 0x100) as u8);
    out.push((v / 0x100000000000000) as u8);
    assert(out@ =~= old(out)@ + spec_le64(v));
}

/// Pad `out` with zero bytes up to the next sector boundary.
pub fn pad_to_sector(out: &mut Vec<u8>)
    ensures
        final(out)@ == padded(old(out)@),
        final(out)@.len() % 2048 == 0,
{
    let rem: usize = out.len() % 2048;
    if rem != 0 {
        push_zeros(out, 2048 - rem);
    }
    assert(out@ =~= padded(old(out)@));
    proof {
        lemma_padded_len(old(out)@);
    }
}

/// Write `patch` over `out` in place, starting at `off`; bytes that would
/// fall beyond the end of `out` are dropped.
pub fn overlay_into(out: &mut Vec<u8>, off: usize, patch: &[u8])
    ensures
        final(out)@ == overlay(old(out)@, off as int, patch@),
{
    let mut i: usize = 0;
    while i < patch.len()
        invariant
            i <= patch@.len(),
            out@.len() == old(out)@.len(),
            forall|j: int|
                0 <= j < out@.len() ==> out@[j] == if off <= j < off + i {
                    patch@[j - off]
                } else {
                    old(out)@[j]
                },
        decreases patch@.len() - i,
    {
        if off < out.len() && i < out.len() - off {
            let idx: usize = off + i;
            out[idx] = patch[i];
        }
        i = i + 1;
    }
    assert(out@ =~= overlay(old(out)@, off as int, patch@));
}

} // verus!
