//! The two path tables.  With a flat, root-only layout each table holds a
//! single entry: the root directory, its own parent, at table index 1.
//! The "L" table stores its numbers little-endian, the "M" table
//! big-endian; their contents are otherwise identical and so are their
//! sizes.

use vstd::prelude::*;

use crate::bytes::{push_be16, push_be32, push_le16, push_le32, spec_be16, spec_be32, spec_le16, spec_le32};

verus! {

/// Byte size of each path table: one root entry of ten bytes.
pub const PATH_TABLE_SIZE: u32 = 10;

/// The little-endian ("L") path table: identifier length 1, no extended
/// attributes, the root directory's extent, parent index 1, the identifier
/// byte 0, and one pad byte.
pub open spec fn spec_path_table_l(root_lba: u32) -> Seq<u8> {
    seq![1u8, 0u8] + spec_le32(root_lba) + spec_le16(1u16) + seq![0u8, 0u8]
}

/// The big-endian ("M") path table, same content as the "L" table.
pub open spec fn spec_path_table_m(root_lba: u32) -> Seq<u8> {
    seq![1u8, 0u8] + spec_be32(root_lba) + spec_be16(1u16) + seq![0u8, 0u8]
}

pub proof fn lemma_path_table_len(root_lba: u32)
    ensures
        spec_path_table_l(root_lba).len() == PATH_TABLE_SIZE,
        spec_path_table_m(root_lba).len() == PATH_TABLE_SIZE,
{
}

/// Append the "L" path table.
pub fn push_path_table_l(out: &mut Vec<u8>, root_lba: u32)
    ensures
        final(out)@ == old(out)@ + spec_path_table_l(root_lba),
{
    out.push(1u8);
    out.push(0u8);
    push_le32(out, root_lba);
    push_le16(out, 1u16);
    out.push(0u8);
    out.push(0u8);
    assert(out@ =~= old(out)@ + spec_path_table_l(root_lba));
}

/// Append the "M" path table.
pub fn push_path_table_m(out: &mut Vec<u8>, root_lba: u32)
    ensures
        final(out)@ == old(out)@ + spec_path_table_m(root_lba),
{
    out.push(1u8);
    out.push(0u8);
    push_be32(out, root_lba);
    push_be16(out, 1u16);
    out.push(0u8);
    out.push(0u8);
    assert(out@ =~= old(out)@ + spec_path_table_m(root_lba));
}

} // verus!
