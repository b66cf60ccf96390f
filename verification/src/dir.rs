//! Directory records and the root directory table.
//!
//! Each record is a fixed 33-byte header followed by the file identifier,
//! padded to an even length.  Records are laid out back to back, except
//! that a record never crosses a sector boundary: when one would, the
//! table is zero-padded up to the boundary first.

use vstd::prelude::*;

use crate::bytes::{
    pad_len, pad_to_sector, push_bytes, push_both16, push_both32, spec_both16, spec_both32, zeros,
};
use crate::clock::DateTime;

verus! {

/// The 7-byte binary form of a timestamp: year since 1900, month, day,
/// hour, minute, second, time-zone offset (always zero here).
pub open spec fn spec_dir_ts(ts: DateTime) -> Seq<u8>
    recommends
        ts.wf(),
{
    seq![(ts.year - 1900) as u8, ts.month, ts.day, ts.hour, ts.minute, ts.second, 0u8]
}

/// Length of a directory record whose identifier holds `name_len` bytes.
pub open spec fn spec_rec_len(name_len: nat) -> nat {
    33 + name_len + if name_len % 2 == 0 {
        1nat
    } else {
        0nat
    }
}

/// One directory record.
pub open spec fn spec_dir_record(
    name: Seq<u8>,
    lba: u32,
    data_len: u32,
    ts: DateTime,
    flags: u8,
) -> Seq<u8>
    recommends
        1 <= name.len() <= 200,
        ts.wf(),
{
    seq![spec_rec_len(name.len()) as u8, 0u8] + spec_both32(lba) + spec_both32(data_len)
        + spec_dir_ts(ts) + seq![flags, 0u8, 0u8] + spec_both16(1u16) + seq![name.len() as u8]
        + name + if name.len() % 2 == 0 {
        seq![0u8]
    } else {
        Seq::<u8>::empty()
    }
}

pub proof fn lemma_dir_record_len(name: Seq<u8>, lba: u32, data_len: u32, ts: DateTime, flags: u8)
    ensures
        spec_dir_record(name, lba, data_len, ts, flags).len() == spec_rec_len(name.len()),
{
}

/// A record table: records back to back, except that a record that would
/// cross a sector boundary is preceded by zero padding up to the boundary.
pub open spec fn spec_dir_table(recs: Seq<Seq<u8>>) -> Seq<u8>
    decreases recs.len(),
{
    if recs.len() == 0 {
        Seq::empty()
    } else {
        let prefix = spec_dir_table(recs.drop_last());
        let rec = recs.last();
        if prefix.len() % 2048 + rec.len() <= 2048 {
            prefix + rec
        } else {
            prefix + zeros(pad_len(prefix.len())) + rec
        }
    }
}

/// The length of a record table, computed from the record lengths alone.
pub open spec fn spec_table_len(lens: Seq<nat>) -> nat
    decreases lens.len(),
{
    if lens.len() == 0 {
        0nat
    } else {
        let prefix = spec_table_len(lens.drop_last());
        let l = lens.last();
        if prefix % 2048 + l <= 2048 {
            prefix + l
        } else {
            prefix + pad_len(prefix) + l
        }
    }
}

/// The table's length is a function of the record lengths.
pub proof fn lemma_dir_table_len(recs: Seq<Seq<u8>>, lens: Seq<nat>)
    requires
        recs.len() == lens.len(),
        forall|i: int| 0 <= i < recs.len() ==> #[trigger] lens[i] == recs[i].len(),
    ensures
        spec_dir_table(recs).len() == spec_table_len(lens),
    decreases recs.len(),
{
    if recs.len() > 0 {
        lemma_dir_table_len(recs.drop_last(), lens.drop_last());
        assert(lens.last() == recs.last().len());
    }
}

/// A prefix of the record list never yields a longer table.
pub proof fn lemma_table_len_mono(lens: Seq<nat>, i: int)
    requires
        0 <= i <= lens.len(),
    ensures
        spec_table_len(lens.take(i)) <= spec_table_len(lens),
    decreases lens.len(),
{
    if i == lens.len() {
        assert(lens.take(i) =~= lens);
    } else {
        lemma_table_len_mono(lens.drop_last(), i);
        assert(lens.drop_last().take(i) =~= lens.take(i));
    }
}

/// The record lengths of a root directory table over these folded names:
/// the two 34-byte synthetic entries, then one record per name.
pub open spec fn spec_lens_of(names: Seq<Seq<u8>>) -> Seq<nat> {
    seq![34nat, 34nat] + Seq::new(names.len(), |i: int| spec_rec_len(names[i].len()))
}

/// Compute the root directory table's byte length, refusing one beyond
/// the 32-bit range.
pub fn table_len_for(names: &Vec<Vec<u8>>) -> (r: Result<u64, crate::errors::IsoError>)
    requires
        forall|i: int| 0 <= i < names@.len() ==> 1 <= #[trigger] names@[i]@.len() <= 13,
    ensures
        match r {
            Ok(v) => v == spec_table_len(spec_lens_of(names@.map_values(|v: Vec<u8>| v@))) && 68
                <= v <= 0xFFFFFFFF,
            Err(e) => e == crate::errors::IsoError::CapacityError && spec_table_len(
                spec_lens_of(names@.map_values(|v: Vec<u8>| v@)),
            ) > 0xFFFFFFFF,
        },
{
    let ghost lens: Seq<nat> = spec_lens_of(names@.map_values(|v: Vec<u8>| v@));
    let n: usize = names.len();
    let mut cur: u64 = 68;
    proof {
        assert(lens.take(2).drop_last() =~= lens.take(1));
        assert(lens.take(1).drop_last() =~= lens.take(0));
        assert(lens.take(0).len() == 0);
        assert(spec_table_len(lens.take(0)) == 0);
        assert(spec_table_len(lens.take(1)) == 34);
        assert(spec_table_len(lens.take(2)) == 68);
    }
    let mut i: usize = 0;
    while i < n
        invariant
            i <= n,
            n == names@.len(),
            forall|j: int| 0 <= j < names@.len() ==> 1 <= #[trigger] names@[j]@.len() <= 13,
            lens == spec_lens_of(names@.map_values(|v: Vec<u8>| v@)),
            lens.len() == 2 + n,
            cur == spec_table_len(lens.take(2 + i as int)),
            68 <= cur <= 0xFFFFFFFF,
        decreases n - i,
    {
        let nl: usize = names[i].len();
        let rl: u64 = (33 + nl + if nl % 2 == 0 {
            1
        } else {
            0
        }) as u64;
        let rem: u64 = cur % 2048;
        let next: u64 = if rem + rl <= 2048 {
            cur + rl
        } else {
            cur - rem + 2048 + rl
        };
        proof {
            assert(lens.take(2 + i as int + 1).drop_last() =~= lens.take(2 + i as int));
            assert(lens.take(2 + i as int + 1).last() == lens[2 + i as int]);
            assert(lens[2 + i as int] == spec_rec_len(names@[i as int]@.len()));
            assert(next == spec_table_len(lens.take(2 + i as int + 1)));
        }
        if next > 0xFFFFFFFF {
            proof {
                lemma_table_len_mono(lens, 2 + i as int + 1);
            }
            return Err(crate::errors::IsoError::CapacityError);
        }
        cur = next;
        i = i + 1;
    }
    proof {
        assert(lens.take(2 + n as int) =~= lens);
    }
    Ok(cur)
}

/// Append one directory record to `out`.
#[verifier::rlimit(50)]
pub fn push_dir_record(
    out: &mut Vec<u8>,
    name: &[u8],
    lba: u32,
    data_len: u32,
    ts: &DateTime,
    flags: u8,
)
    requires
        1 <= name@.len() <= 200,
        ts.wf(),
    ensures
        final(out)@ == old(out)@ + spec_dir_record(name@, lba, data_len, *ts, flags),
{
    let name_len: usize = name.len();
    let pad: usize = if name_len % 2 == 0 {
        1
    } else {
        0
    };
    out.push((33 + name_len + pad) as u8);
    out.push(0u8);
    push_both32(out, lba);
    push_both32(out, data_len);
    out.push((ts.year - 1900) as u8);
    out.push(ts.month);
    out.push(ts.day);
    out.push(ts.hour);
    out.push(ts.minute);
    out.push(ts.second);
    out.push(0u8);
    out.push(flags);
    out.push(0u8);
    out.push(0u8);
    push_both16(out, 1u16);
    out.push(name_len as u8);
    push_bytes(out, name);
    if pad == 1 {
        out.push(0u8);
    }
    assert(out@ =~= old(out)@ + spec_dir_record(name@, lba, data_len, *ts, flags));
}

/// Append one record to a growing table, padding to the next sector
/// boundary first when the record would cross it.
pub fn append_table_record(out: &mut Vec<u8>, rec: &Vec<u8>)
    requires
        1 <= rec@.len() <= 2048,
    ensures
        final(out)@ == if old(out)@.len() % 2048 + rec@.len() <= 2048 {
            old(out)@ + rec@
        } else {
            old(out)@ + zeros(pad_len(old(out)@.len())) + rec@
        },
{
    let rem: usize = out.len() % 2048;
    if 2048 - rem < rec.len() {
        pad_to_sector(out);
    }
    push_bytes(out, rec.as_slice());
}

/// The records of the root directory: the two synthetic `.` and `..`
/// entries, both naming the root's own extent, then one record per input
/// file, in input order.
pub open spec fn spec_records_from(
    names: Seq<Seq<u8>>,
    sizes: Seq<u32>,
    lbas: Seq<u32>,
    root_lba: u32,
    root_size: u32,
    ts: DateTime,
) -> Seq<Seq<u8>>
    recommends
        names.len() == sizes.len(),
        names.len() == lbas.len(),
{
    seq![
        spec_dir_record(seq![0u8], root_lba, root_size, ts, 2u8),
        spec_dir_record(seq![1u8], root_lba, root_size, ts, 2u8),
    ] + Seq::new(names.len(), |i: int| spec_dir_record(names[i], lbas[i], sizes[i], ts, 0u8))
}

/// Build the root directory table.
pub fn build_root_dir(
    names: &Vec<Vec<u8>>,
    sizes: &Vec<u32>,
    lbas: &Vec<u32>,
    root_lba: u32,
    root_size: u32,
    ts: &DateTime,
) -> (r: Vec<u8>)
    requires
        names@.len() == sizes@.len(),
        names@.len() == lbas@.len(),
        forall|i: int| 0 <= i < names@.len() ==> 1 <= #[trigger] names@[i]@.len() <= 13,
        ts.wf(),
    ensures
        r@ == spec_dir_table(
            spec_records_from(
                names@.map_values(|v: Vec<u8>| v@),
                sizes@,
                lbas@,
                root_lba,
                root_size,
                *ts,
            ),
        ),
{
    let ghost recs: Seq<Seq<u8>> = spec_records_from(
        names@.map_values(|v: Vec<u8>| v@),
        sizes@,
        lbas@,
        root_lba,
        root_size,
        *ts,
    );
    let n: usize = names.len();

    let mut out: Vec<u8> = Vec::new();

    let mut dot: Vec<u8> = Vec::new();
    dot.push(0u8);
    let mut rec: Vec<u8> = Vec::new();
    push_dir_record(&mut rec, dot.as_slice(), root_lba, root_size, ts, 2u8);
    proof {
        lemma_dir_record_len(dot@, root_lba, root_size, *ts, 2u8);
        assert(dot@ =~= seq![0u8]);
        assert(rec@ == recs[0]);
    }
    append_table_record(&mut out, &rec);
    proof {
        assert(recs.take(1).drop_last() =~= Seq::<Seq<u8>>::empty());
        assert(spec_dir_table(Seq::<Seq<u8>>::empty()) == Seq::<u8>::empty());
        assert(recs.take(1).last() == recs[0]);
        assert(out@ == spec_dir_table(recs.take(1)));
    }

    let mut dotdot: Vec<u8> = Vec::new();
    dotdot.push(1u8);
    let mut rec2: Vec<u8> = Vec::new();
    push_dir_record(&mut rec2, dotdot.as_slice(), root_lba, root_size, ts, 2u8);
    proof {
        lemma_dir_record_len(dotdot@, root_lba, root_size, *ts, 2u8);
        assert(dotdot@ =~= seq![1u8]);
        assert(rec2@ == recs[1]);
    }
    append_table_record(&mut out, &rec2);
    proof {
        assert(recs.take(2).drop_last() =~= recs.take(1));
        assert(recs.take(2).last() == recs[1]);
        assert(out@ == spec_dir_table(recs.take(2)));
    }

    let mut i: usize = 0;
    while i < n
        invariant
            i <= n,
            n == names@.len(),
            names@.len() == sizes@.len(),
            names@.len() == lbas@.len(),
            forall|j: int| 0 <= j < names@.len() ==> 1 <= #[trigger] names@[j]@.len() <= 13,
            ts.wf(),
            recs == spec_records_from(
                names@.map_values(|v: Vec<u8>| v@),
                sizes@,
                lbas@,
                root_lba,
                root_size,
                *ts,
            ),
            recs.len() == 2 + n,
            out@ == spec_dir_table(recs.take(2 + i as int)),
        decreases n - i,
    {
        let mut frec: Vec<u8> = Vec::new();
        push_dir_record(&mut frec, names[i].as_slice(), lbas[i], sizes[i], ts, 0u8);
        proof {
            lemma_dir_record_len(names@[i as int]@, lbas@[i as int], sizes@[i as int], *ts, 0u8);
            assert(recs[2 + i as int] == spec_dir_record(
                names@[i as int]@,
                lbas@[i as int],
                sizes@[i as int],
                *ts,
                0u8,
            ));
        }
        append_table_record(&mut out, &frec);
        i = i + 1;
        proof {
            assert(recs.take(2 + i as int).drop_last() =~= recs.take(2 + i as int - 1));
            assert(recs.take(2 + i as int).last() == recs[2 + i as int - 1]);
            assert(out@ == spec_dir_table(recs.take(2 + i as int)));
        }
    }
    proof {
        assert(recs.take(2 + n as int) =~= recs);
    }
    out
}

} // verus!
