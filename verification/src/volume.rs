//! The primary volume descriptor and the volume descriptor set terminator.

use vstd::prelude::*;

use crate::bytes::{
    push_be32, push_both16, push_both32, push_le32, push_spaces, push_zeros, spaces, spec_be32,
    spec_both16, spec_both32, spec_le32, zeros,
};
use crate::clock::DateTime;
use crate::dir::{push_dir_record, spec_dir_record};

verus! {

/// The five standard identifier bytes shared by every volume descriptor.
pub open spec fn spec_std_id() -> Seq<u8> {
    seq![0x43u8, 0x44u8, 0x30u8, 0x30u8, 0x31u8]
}

/// Append the standard identifier.
pub fn push_std_id(out: &mut Vec<u8>)
    ensures
        final(out)@ == old(out)@ + spec_std_id(),
{
    out.push(0x43u8);
    out.push(0x44u8);
    out.push(0x30u8);
    out.push(0x30u8);
    out.push(0x31u8);
    assert(out@ =~= old(out)@ + spec_std_id());
}

/// A value below 100 as two decimal digit bytes.
pub open spec fn spec_two_digits(v: u8) -> Seq<u8>
    recommends
        v < 100,
{
    seq![(0x30 + v / 10) as u8, (0x30 + v % 10) as u8]
}

/// A value below 10000 as four decimal digit bytes.
pub open spec fn spec_four_digits(v: u16) -> Seq<u8>
    recommends
        v < 10000,
{
    seq![
        (0x30 + v / 1000) as u8,
        (0x30 + (v / 100) % 10) as u8,
        (0x30 + (v / 10) % 10) as u8,
        (0x30 + v % 10) as u8,
    ]
}

/// The 17-byte decimal form of a timestamp: year, month, day, hour,
/// minute, second, hundredths (always zero), and a zero time-zone byte.
pub open spec fn spec_dec_datetime(ts: DateTime) -> Seq<u8>
    recommends
        ts.wf(),
{
    spec_four_digits(ts.year) + spec_two_digits(ts.month) + spec_two_digits(ts.day)
        + spec_two_digits(ts.hour) + spec_two_digits(ts.minute) + spec_two_digits(ts.second)
        + seq![0x30u8, 0x30u8, 0u8]
}

/// The unset 17-byte decimal timestamp: sixteen `0` digits and a zero byte.
pub open spec fn spec_zero_datetime() -> Seq<u8> {
    Seq::new(16, |i: int| 0x30u8) + seq![0u8]
}

pub fn push_two_digits(out: &mut Vec<u8>, v: u8)
    requires
        v < 100,
    ensures
        final(out)@ == old(out)@ + spec_two_digits(v),
{
    out.push(0x30 + v / 10);
    out.push(0x30 + v % 10);
    assert(out@ =~= old(out)@ + spec_two_digits(v));
}

pub fn push_four_digits(out: &mut Vec<u8>, v: u16)
    requires
        v < 10000,
    ensures
        final(out)@ == old(out)@ + spec_four_digits(v),
{
    out.push((0x30 + v / 1000) as u8);
    out.push((0x30 + (v / 100) % 10) as u8);
    out.push((0x30 + (v / 10) % 10) as u8);
    out.push((0x30 + v % 10) as u8);
    assert(out@ =~= old(out)@ + spec_four_digits(v));
}

pub fn push_dec_datetime(out: &mut Vec<u8>, ts: &DateTime)
    requires
        ts.wf(),
    ensures
        final(out)@ == old(out)@ + spec_dec_datetime(*ts),
{
    push_four_digits(out, ts.year);
    push_two_digits(out, ts.month);
    push_two_digits(out, ts.day);
    push_two_digits(out, ts.hour);
    push_two_digits(out, ts.minute);
    push_two_digits(out, ts.second);
    out.push(0x30u8);
    out.push(0x30u8);
    out.push(0u8);
    assert(out@ =~= old(out)@ + spec_dec_datetime(*ts));
}

pub fn push_zero_datetime(out: &mut Vec<u8>)
    ensures
        final(out)@ == old(out)@ + spec_zero_datetime(),
{
    let mut i: usize = 0;
    while i < 16
        invariant
            i <= 16,
            out@ == old(out)@ + Seq::new(i as nat, |j: int| 0x30u8),
        decreases 16 - i,
    {
        out.push(0x30u8);
        i = i + 1;
        assert(out@ =~= old(out)@ + Seq::new(i as nat, |j: int| 0x30u8));
    }
    out.push(0u8);
    assert(out@ =~= old(out)@ + spec_zero_datetime());
}

/// Bytes 0 to 119 of the primary volume descriptor: type, standard
/// identifier, version, the system identifier, the volume identifier
/// (the label, space-padded to 32 bytes), and the volume space size.
pub open spec fn spec_pvd_head(label: Seq<u8>, total: u32) -> Seq<u8>
    recommends
        label.len() <= 32,
{
    seq![1u8] + spec_std_id() + seq![1u8, 0u8] + spaces(32) + label + spaces(
        (32 - label.len()) as nat,
    ) + zeros(8) + spec_both32(total) + zeros(32)
}

/// Bytes 120 to 189: volume set size, volume sequence number, logical
/// block size, path table size and locations, and the root directory
/// record.
pub open spec fn spec_pvd_numbers(
    path_size: u32,
    path_l: u32,
    path_m: u32,
    root_lba: u32,
    root_size: u32,
    ts: DateTime,
) -> Seq<u8>
    recommends
        ts.wf(),
{
    spec_both16(1u16) + spec_both16(1u16) + spec_both16(2048u16) + spec_both32(path_size)
        + spec_le32(path_l) + spec_le32(0u32) + spec_be32(path_m) + spec_be32(0u32)
        + spec_dir_record(seq![0u8], root_lba, root_size, ts, 2u8)
}

/// Bytes 190 to 812: the four 128-byte and three 37-byte identifier
/// fields, all blank.
pub open spec fn spec_pvd_ids() -> Seq<u8> {
    spaces(128) + spaces(128) + spaces(128) + spaces(128) + spaces(37) + spaces(37) + spaces(37)
}

/// Bytes 813 to 882: creation and modification stamped with the build
/// timestamp, expiration and effective unset, file structure version 1.
pub open spec fn spec_pvd_dates(ts: DateTime) -> Seq<u8>
    recommends
        ts.wf(),
{
    spec_dec_datetime(ts) + spec_dec_datetime(ts) + spec_zero_datetime() + spec_zero_datetime()
        + seq![1u8, 0u8]
}

/// The complete 2048-byte primary volume descriptor.
pub open spec fn spec_pvd(
    label: Seq<u8>,
    total: u32,
    path_size: u32,
    path_l: u32,
    path_m: u32,
    root_lba: u32,
    root_size: u32,
    ts: DateTime,
) -> Seq<u8>
    recommends
        label.len() <= 32,
        ts.wf(),
{
    spec_pvd_head(label, total) + spec_pvd_numbers(path_size, path_l, path_m, root_lba, root_size, ts)
        + spec_pvd_ids() + spec_pvd_dates(ts) + zeros(1165)
}

pub proof fn lemma_pvd_len(
    label: Seq<u8>,
    total: u32,
    path_size: u32,
    path_l: u32,
    path_m: u32,
    root_lba: u32,
    root_size: u32,
    ts: DateTime,
)
    requires
        label.len() <= 32,
    ensures
        spec_pvd(label, total, path_size, path_l, path_m, root_lba, root_size, ts).len() == 2048,
{
    crate::dir::lemma_dir_record_len(seq![0u8], root_lba, root_size, ts, 2u8);
}

#[verifier::rlimit(50)]
fn push_pvd_head(out: &mut Vec<u8>, label: &Vec<u8>, total: u32)
    requires
        label@.len() <= 32,
    ensures
        final(out)@ == old(out)@ + spec_pvd_head(label@, total),
{
    out.push(1u8);
    push_std_id(out);
    out.push(1u8);
    out.push(0u8);
    push_spaces(out, 32);
    crate::bytes::push_bytes(out, label.as_slice());
    push_spaces(out, 32 - label.len());
    push_zeros(out, 8);
    push_both32(out, total);
    push_zeros(out, 32);
    assert(out@ =~= old(out)@ + spec_pvd_head(label@, total));
}

#[verifier::rlimit(50)]
fn push_pvd_numbers(
    out: &mut Vec<u8>,
    path_size: u32,
    path_l: u32,
    path_m: u32,
    root_lba: u32,
    root_size: u32,
    ts: &DateTime,
)
    requires
        ts.wf(),
    ensures
        final(out)@ == old(out)@ + spec_pvd_numbers(path_size, path_l, path_m, root_lba, root_size, *ts),
{
    push_both16(out, 1u16);
    push_both16(out, 1u16);
    push_both16(out, 2048u16);
    push_both32(out, path_size);
    push_le32(out, path_l);
    push_le32(out, 0u32);
    push_be32(out, path_m);
    push_be32(out, 0u32);
    let mut dot: Vec<u8> = Vec::new();
    dot.push(0u8);
    push_dir_record(out, dot.as_slice(), root_lba, root_size, ts, 2u8);
    proof {
        assert(dot@ =~= seq![0u8]);
    }
    assert(out@ =~= old(out)@ + spec_pvd_numbers(path_size, path_l, path_m, root_lba, root_size, *ts));
}

fn push_pvd_ids(out: &mut Vec<u8>)
    ensures
        final(out)@ == old(out)@ + spec_pvd_ids(),
{
    push_spaces(out, 128);
    push_spaces(out, 128);
    push_spaces(out, 128);
    push_spaces(out, 128);
    push_spaces(out, 37);
    push_spaces(out, 37);
    push_spaces(out, 37);
    assert(out@ =~= old(out)@ + spec_pvd_ids());
}

fn push_pvd_dates(out: &mut Vec<u8>, ts: &DateTime)
    requires
        ts.wf(),
    ensures
        final(out)@ == old(out)@ + spec_pvd_dates(*ts),
{
    push_dec_datetime(out, ts);
    push_dec_datetime(out, ts);
    push_zero_datetime(out);
    push_zero_datetime(out);
    out.push(1u8);
    out.push(0u8);
    assert(out@ =~= old(out)@ + spec_pvd_dates(*ts));
}

/// Append the complete primary volume descriptor.
pub fn push_pvd(
    out: &mut Vec<u8>,
    label: &Vec<u8>,
    total: u32,
    path_size: u32,
    path_l: u32,
    path_m: u32,
    root_lba: u32,
    root_size: u32,
    ts: &DateTime,
)
    requires
        label@.len() <= 32,
        ts.wf(),
    ensures
        final(out)@ == old(out)@ + spec_pvd(
            label@,
            total,
            path_size,
            path_l,
            path_m,
            root_lba,
            root_size,
            *ts,
        ),
{
    push_pvd_head(out, label, total);
    push_pvd_numbers(out, path_size, path_l, path_m, root_lba, root_size, ts);
    push_pvd_ids(out);
    push_pvd_dates(out, ts);
    push_zeros(out, 1165);
    assert(out@ =~= old(out)@ + spec_pvd(
        label@,
        total,
        path_size,
        path_l,
        path_m,
        root_lba,
        root_size,
        *ts,
    ));
}

/// The 2048-byte volume descriptor set terminator.
pub open spec fn spec_terminator() -> Seq<u8> {
    seq![255u8] + spec_std_id() + seq![1u8] + zeros(2041)
}

/// Append the volume descriptor set terminator.
pub fn push_terminator(out: &mut Vec<u8>)
    ensures
        final(out)@ == old(out)@ + spec_terminator(),
        final(out)@.len() == old(out)@.len() + 2048,
{
    out.push(255u8);
    push_std_id(out);
    out.push(1u8);
    push_zeros(out, 2041);
    assert(out@ =~= old(out)@ + spec_terminator());
}

} // verus!
