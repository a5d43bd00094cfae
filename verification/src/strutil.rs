//! Verified string helpers: equality, concatenation and substring search.

use vstd::prelude::*;
use vstd::string::StrSliceExecFns;
use vstd::string::StringExecFns;

verus! {

/// Compare two string slices for equality of their character sequences.
pub fn str_eq(a: &str, b: &str) -> (r: bool)
    ensures
        r == (a@ == b@),
{
    let sa: String = a.to_owned();
    let sb: String = b.to_owned();
    sa == sb
}

/// Concatenate two string slices into a fresh `String`.
pub fn concat_str(a: &str, b: &str) -> (r: String)
    ensures
        r@ == a@ + b@,
{
    let mut s: String = a.to_owned();
    s.append(b);
    s
}

/// `needle` occurs in `hay` starting at character position `i`.
pub open spec fn has_substring_at(hay: Seq<char>, needle: Seq<char>, i: int) -> bool {
    0 <= i && i + needle.len() <= hay.len() && hay.subrange(i, i + needle.len() as int)
        == needle
}

/// `needle` occurs somewhere in `hay`.
pub open spec fn has_substring(hay: Seq<char>, needle: Seq<char>) -> bool {
    exists|i: int| has_substring_at(hay, needle, i)
}

fn matches_at(hay: &str, needle: &str, i: usize, hl: usize, nl: usize) -> (r: bool)
    requires
        hl == hay@.len(),
        nl == needle@.len(),
        i + nl <= hl,
    ensures
        r == (hay@.subrange(i as int, i as int + nl as int) == needle@),
{
    let mut j: usize = 0;
    while j < nl
        invariant
            hl == hay@.len(),
            nl == needle@.len(),
            i + nl <= hl,
            j <= nl,
            forall|t: int| 0 <= t < j ==> hay@[i + t] == needle@[t],
        decreases nl - j,
    {
        if hay.get_char(i + j) != needle.get_char(j) {
            proof {
                assert(hay@.subrange(i as int, i as int + nl as int)[j as int] == hay@[i
                    + j]);
            }
            return false;
        }
        j += 1;
    }
    proof {
        assert(hay@.subrange(i as int, i as int + nl as int) =~= needle@);
    }
    true
}

/// Whether `needle`'s characters occur contiguously within `hay`.
pub fn contains_sub(hay: &str, needle: &str) -> (r: bool)
    ensures
        r == has_substring(hay@, needle@),
{
    let hl = hay.unicode_len();
    let nl = needle.unicode_len();
    if nl > hl {
        return false;
    }
    if nl == 0 {
        proof {
            assert(hay@.subrange(0, 0) =~= needle@);
            assert(has_substring_at(hay@, needle@, 0));
        }
        return true;
    }
    let bound = hl - nl;
    let mut i: usize = 0;
    while i <= bound
        invariant
            bound == hl - nl,
            1 <= nl <= hl,
            hl == hay@.len(),
            nl == needle@.len(),
            i <= bound + 1,
            forall|k: int| 0 <= k < i ==> !has_substring_at(hay@, needle@, k),
        decreases bound + 1 - i,
    {
        if matches_at(hay, needle, i, hl, nl) {
            proof {
                assert(has_substring_at(hay@, needle@, i as int));
            }
            return true;
        }
        i += 1;
    }
    proof {
        assert forall|k: int| !has_substring_at(hay@, needle@, k) by {
            if 0 <= k < i {
            } else {
            }
        }
    }
    false
}

} // verus!
