//! On-disk file names and the volume label.
//!
//! Naming policy: a file name is case-folded to upper case and must then
//! consist of d-characters (`A`-`Z`, `0`-`9`, `_`) with at most one `.`
//! separator; the stem holds 1 to 8 characters and the extension at most 4.
//! Names are stored without a version suffix.  The volume label may hold up
//! to 32 characters drawn from the d-characters plus `-`, `.` and space,
//! and is stored as given, space-padded.

use vstd::prelude::*;
use vstd::utf8::is_ascii_chars;

verus! {

/// Is `b` a d-character: an upper-case letter, a digit, or an underscore?
pub open spec fn spec_is_dchar(b: u8) -> bool {
    (0x41 <= b <= 0x5A) || (0x30 <= b <= 0x39) || b == 0x5F
}

/// Case-fold one byte: lower-case ASCII letters map to upper case.
pub open spec fn fold_byte(b: u8) -> u8 {
    if 0x61 <= b <= 0x7A {
        (b - 0x20) as u8
    } else {
        b
    }
}

/// The case-folded bytes of a name.  Meaningful for ASCII names only; the
/// validity predicate requires ASCII separately.
pub open spec fn spec_folded(s: Seq<char>) -> Seq<u8> {
    Seq::new(s.len(), |i: int| fold_byte(s[i] as u8))
}

/// No byte of `b` is the `.` separator.
pub open spec fn no_dot(b: Seq<u8>) -> bool {
    forall|i: int| 0 <= i < b.len() ==> b[i] != 0x2E
}

/// Every byte of `b` is a d-character.
pub open spec fn all_dchars(b: Seq<u8>) -> bool {
    forall|i: int| 0 <= i < b.len() ==> spec_is_dchar(b[i])
}

/// `k` splits `b` into a valid stem and a valid extension: the single `.`
/// stands at `k`, the stem holds 1 to 8 d-characters, the extension at most
/// 4 d-characters.
pub open spec fn name_split_at(b: Seq<u8>, k: int) -> bool {
    &&& 0 <= k < b.len()
    &&& b[k] == 0x2E
    &&& no_dot(b.take(k))
    &&& no_dot(b.skip(k + 1))
    &&& 1 <= k <= 8
    &&& b.len() - k - 1 <= 4
    &&& all_dchars(b.take(k))
    &&& all_dchars(b.skip(k + 1))
}

/// Shape of a valid folded name: either a bare stem of 1 to 8 d-characters,
/// or a stem, one `.` separator, and an extension.
pub open spec fn spec_valid_folded(b: Seq<u8>) -> bool {
    if no_dot(b) {
        1 <= b.len() <= 8 && all_dchars(b)
    } else {
        exists|k: int| name_split_at(b, k)
    }
}

/// A valid input file name: ASCII, and well-shaped once case-folded.
pub open spec fn spec_valid_name(s: Seq<char>) -> bool {
    is_ascii_chars(s) && spec_valid_folded(spec_folded(s))
}

/// A valid folded name holds between 1 and 13 bytes.
pub proof fn lemma_valid_folded_len(b: Seq<u8>)
    requires
        spec_valid_folded(b),
    ensures
        1 <= b.len() <= 13,
{
    if !no_dot(b) {
        let k: int = choose|k: int| name_split_at(b, k);
        assert(b.len() <= k + 5);
    }
}

/// Is `b` permitted in a volume label: a d-character, `-`, `.` or space?
pub open spec fn spec_is_label_char(b: u8) -> bool {
    spec_is_dchar(b) || b == 0x2D || b == 0x2E || b == 0x20
}

/// The label's bytes, stored as given.
pub open spec fn spec_label_bytes(s: Seq<char>) -> Seq<u8> {
    Seq::new(s.len(), |i: int| s[i] as u8)
}

/// A valid volume label: ASCII, at most 32 characters, all permitted.
pub open spec fn spec_valid_label(s: Seq<char>) -> bool {
    &&& is_ascii_chars(s)
    &&& s.len() <= 32
    &&& forall|i: int| 0 <= i < s.len() ==> spec_is_label_char(#[trigger] (s[i] as u8))
}

/// Case-fold and validate one file name.  Returns the folded on-disk bytes
/// exactly when the name is valid.
pub fn fold_name(name: &str) -> (r: Option<Vec<u8>>)
    ensures
        match r {
            Some(v) => spec_valid_name(name@) && v@ == spec_folded(name@),
            None => !spec_valid_name(name@),
        },
{
    if !name.is_ascii() {
        return None;
    }
    let bytes: &[u8] = name.as_bytes();
    proof {
        vstd::string::is_ascii_spec_bytes(name);
    }
    assert(bytes@ =~= Seq::new(name@.len(), |i: int| name@.index(i) as u8));

    let n: usize = bytes.len();
    let mut folded: Vec<u8> = Vec::new();
    let mut i: usize = 0;
    while i < n
        invariant
            i <= n,
            n == bytes@.len(),
            bytes@ == Seq::new(name@.len(), |j: int| name@.index(j) as u8),
            folded@ == spec_folded(name@).take(i as int),
        decreases n - i,
    {
        let b: u8 = bytes[i];
        if 0x61 <= b && b <= 0x7A {
            folded.push(b - 0x20);
        } else {
            folded.push(b);
        }
        i = i + 1;
        assert(folded@ =~= spec_folded(name@).take(i as int));
    }
    assert(folded@ =~= spec_folded(name@));

    if check_folded_shape(&folded) {
        Some(folded)
    } else {
        None
    }
}

/// Check the shape of a folded name against the naming policy.
fn check_folded_shape(b: &Vec<u8>) -> (r: bool)
    ensures
        r == spec_valid_folded(b@),
{
    let ghost bs: Seq<u8> = b@;
    let n: usize = b.len();
    // Position of the first dot; `n` while none has been seen.
    let mut dot: usize = n;
    let mut i: usize = 0;
    while i < n
        invariant
            i <= n,
            n == bs.len(),
            bs == b@,
            dot == n || dot < i,
            dot == n ==> forall|j: int|
                0 <= j < i ==> #[trigger] bs[j] != 0x2E && spec_is_dchar(bs[j]),
            dot < i ==> bs[dot as int] == 0x2E,
            dot < i ==> forall|j: int|
                0 <= j < i && j != dot ==> #[trigger] bs[j] != 0x2E && spec_is_dchar(bs[j]),
        decreases n - i,
    {
        let c: u8 = b[i];
        if c == 0x2E {
            if dot < n {
                // A second dot: no split position can satisfy the shape.
                proof {
                    let d: int = dot as int;
                    let s: int = i as int;
                    assert forall|k: int| !name_split_at(bs, k) by {
                        if 0 <= k < bs.len() && bs[k] == 0x2E {
                            if k < d {
                                assert(bs.skip(k + 1)[d - k - 1] == bs[d]);
                            } else if k == d {
                                assert(bs.skip(k + 1)[s - k - 1] == bs[s]);
                            } else {
                                assert(bs.take(k)[d] == bs[d]);
                            }
                        }
                    }
                    assert(!no_dot(bs));
                }
                return false;
            }
            dot = i;
        } else {
            let is_d: bool = (0x41 <= c && c <= 0x5A) || (0x30 <= c && c <= 0x39) || c == 0x5F;
            if !is_d {
                // A byte that is neither a d-character nor the separator.
                proof {
                    let s: int = i as int;
                    assert(!spec_is_dchar(bs[s]));
                    assert forall|k: int| !name_split_at(bs, k) by {
                        if 0 <= k < bs.len() && bs[k] == 0x2E {
                            if k < s {
                                assert(bs.skip(k + 1)[s - k - 1] == bs[s]);
                            } else if k > s {
                                assert(bs.take(k)[s] == bs[s]);
                            }
                        }
                    }
                    assert(!all_dchars(bs));
                }
                return false;
            }
        }
        i = i + 1;
    }
    if dot == n {
        // No separator: a bare stem of d-characters.
        proof {
            assert(no_dot(bs));
            assert(all_dchars(bs));
        }
        1 <= n && n <= 8
    } else {
        // Exactly one separator, at `dot`.
        let ok: bool = 1 <= dot && dot <= 8 && n - dot - 1 <= 4;
        proof {
            let d: int = dot as int;
            assert(!no_dot(bs));
            if ok {
                assert forall|j: int| 0 <= j < bs.take(d).len() implies bs.take(d)[j] != 0x2E
                    && spec_is_dchar(#[trigger] bs.take(d)[j]) by {}
                assert forall|j: int| 0 <= j < bs.skip(d + 1).len() implies bs.skip(d + 1)[j]
                    != 0x2E && spec_is_dchar(#[trigger] bs.skip(d + 1)[j]) by {}
                assert(name_split_at(bs, d));
            } else {
                assert forall|k: int| !name_split_at(bs, k) by {
                    if 0 <= k < bs.len() && bs[k] == 0x2E {
                        if k < d {
                            assert(bs.take(d)[k] == bs[k]);
                            assert(bs[k] != 0x2E);
                        } else if k > d {
                            assert(bs.take(k)[d] == bs[d]);
                        }
                    }
                }
            }
        }
        ok
    }
}

/// Validate the volume label and return its bytes.  Returns `Some` exactly
/// when the label is valid.
pub fn label_bytes(label: &str) -> (r: Option<Vec<u8>>)
    ensures
        match r {
            Some(v) => spec_valid_label(label@) && v@ == spec_label_bytes(label@),
            None => !spec_valid_label(label@),
        },
{
    if !label.is_ascii() {
        return None;
    }
    let bytes: &[u8] = label.as_bytes();
    proof {
        vstd::string::is_ascii_spec_bytes(label);
    }
    assert(bytes@ =~= Seq::new(label@.len(), |i: int| label@.index(i) as u8));

    let n: usize = bytes.len();
    if n > 32 {
        return None;
    }
    let mut out: Vec<u8> = Vec::new();
    let mut i: usize = 0;
    while i < n
        invariant
            i <= n,
            n == bytes@.len(),
            n <= 32,
            bytes@ == Seq::new(label@.len(), |j: int| label@.index(j) as u8),
            out@ == spec_label_bytes(label@).take(i as int),
            forall|j: int| 0 <= j < i ==> spec_is_label_char(#[trigger] (label@[j] as u8)),
        decreases n - i,
    {
        let c: u8 = bytes[i];
        let ok: bool = (0x41 <= c && c <= 0x5A) || (0x30 <= c && c <= 0x39) || c == 0x5F || c
            == 0x2D || c == 0x2E || c == 0x20;
        if !ok {
            return None;
        }
        out.push(c);
        i = i + 1;
        assert(out@ =~= spec_label_bytes(label@).take(i as int));
    }
    assert(out@ =~= spec_label_bytes(label@));
    Some(out)
}

/// Do two byte vectors hold the same bytes?
pub fn bytes_equal(a: &Vec<u8>, b: &Vec<u8>) -> (r: bool)
    ensures
        r == (a@ =~= b@),
{
    if a.len() != b.len() {
        return false;
    }
    let mut i: usize = 0;
    while i < a.len()
        invariant
            i <= a@.len(),
            a@.len() == b@.len(),
            forall|j: int| 0 <= j < i ==> a@[j] == b@[j],
        decreases a@.len() - i,
    {
        if a[i] != b[i] {
            return false;
        }
        i = i + 1;
    }
    true
}

} // verus!
