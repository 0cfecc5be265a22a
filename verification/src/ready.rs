//! Readiness detection: the fixed marker that the server prints once it
//! accepts connections, and the classifier that looks for it in a line of
//! server output.

use vstd::prelude::*;

verus! {

/// The fixed text the server prints when it is ready.
pub open spec fn spec_readiness_marker() -> Seq<char> {
    "database system is ready to accept connections"@
}

/// The readiness marker as a string slice, e.g. to hand to whatever scans
/// the server's output stream.
pub fn readiness_marker() -> (r: &'static str)
    ensures
        r@ == spec_readiness_marker(),
{
    "database system is ready to accept connections"
}

/// `needle` occurs in `hay` starting at position `i`.
pub open spec fn matches_at(hay: Seq<char>, needle: Seq<char>, i: int) -> bool {
    0 <= i && i + needle.len() <= hay.len() && hay.subrange(i, i + needle.len() as int) == needle
}

/// `needle` occurs somewhere in `hay`.
pub open spec fn contains_seq(hay: Seq<char>, needle: Seq<char>) -> bool {
    exists|i: int| matches_at(hay, needle, i)
}

/// Compare `needle` against `hay` at position `i`, character by character.
fn str_matches_at(hay: &str, needle: &str, i: usize, hay_len: usize, needle_len: usize) -> (r:
    bool)
    requires
        hay_len == hay@.len(),
        needle_len == needle@.len(),
        i + needle_len <= hay_len,
    ensures
        r == matches_at(hay@, needle@, i as int),
{
    let mut j: usize = 0;
    while j < needle_len
        invariant
            hay_len == hay@.len(),
            needle_len == needle@.len(),
            i + needle_len <= hay_len,
            0 <= j <= needle_len,
            forall|k: int| 0 <= k < j ==> hay@[i + k] == needle@[k],
        decreases needle_len - j,
    {
        if hay.get_char(i + j) != needle.get_char(j) {
            proof {
                let sub = hay@.subrange(i as int, i + needle@.len() as int);
                assert(sub[j as int] != needle@[j as int]);
            }
            return false;
        }
        j = j + 1;
    }
    proof {
        assert(hay@.subrange(i as int, i + needle@.len() as int) =~= needle@);
    }
    true
}

/// Whether `needle` occurs anywhere in `hay`.
pub fn str_contains(hay: &str, needle: &str) -> (r: bool)
    ensures
        r == contains_seq(hay@, needle@),
{
    let hay_len = hay.unicode_len();
    let needle_len = needle.unicode_len();
    if needle_len > hay_len {
        proof {
            assert(forall|i: int| !matches_at(hay@, needle@, i));
        }
        return false;
    }
    let mut i: usize = 0;
    loop
        invariant
            hay_len == hay@.len(),
            needle_len == needle@.len(),
            needle_len <= hay_len,
            0 <= i <= hay_len - needle_len + 1,
            forall|k: int| 0 <= k < i ==> !matches_at(hay@, needle@, k),
        decreases hay_len - needle_len + 1 - i,
    {
        if i > hay_len - needle_len {
            proof {
                assert(forall|k: int| !matches_at(hay@, needle@, k));
            }
            return false;
        }
        if str_matches_at(hay, needle, i, hay_len, needle_len) {
            return true;
        }
        proof {
            if needle@.len() == 0 {
                assert(hay@.subrange(i as int, i as int) =~= needle@);
                assert(matches_at(hay@, needle@, i as int));
            }
        }
        i = i + 1;
    }
}

/// Classify one line of server output: does it carry the readiness marker?
pub fn line_indicates_ready(line: &str) -> (r: bool)
    ensures
        r == contains_seq(line@, spec_readiness_marker()),
{
    str_contains(line, readiness_marker())
}

} // verus!
