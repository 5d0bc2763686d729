//! Byte-level text helpers shared by the linter, the crash reporter and the colour parser.

use vstd::prelude::*;
use vstd::string::StringSliceAdditionalSpecFns;

verus! {

/// `pat` occurs in `hay` starting at byte `i`.
pub open spec fn occurs_at(hay: Seq<u8>, pat: Seq<u8>, i: int) -> bool {
    0 <= i && i + pat.len() <= hay.len() && hay.subrange(i, i + pat.len()) == pat
}

/// `pat` occurs somewhere in `hay` (the empty pattern occurs everywhere).
pub open spec fn contains_bytes(hay: Seq<u8>, pat: Seq<u8>) -> bool {
    exists|i: int| occurs_at(hay, pat, i)
}

/// Whether `p` occurs in `h` at byte `i`.
fn matches_at(h: &[u8], p: &[u8], i: usize) -> (b: bool)
    requires
        i + p@.len() <= h@.len(),
    ensures
        b == occurs_at(h@, p@, i as int),
{
    let n = h.len();
    let mut j: usize = 0;
    while j < p.len()
        invariant
            n == h@.len(),
            i + p@.len() <= h@.len(),
            j <= p@.len(),
            forall|m: int| 0 <= m < j ==> h@[i + m] == p@[m],
        decreases p@.len() - j,
    {
        if h[i + j] != p[j] {
            proof {
                assert(h@.subrange(i as int, i + p@.len())[j as int] == h@[i + j]);
            }
            return false;
        }
        j = j + 1;
    }
    proof {
        assert(h@.subrange(i as int, i + p@.len()) =~= p@);
    }
    true
}

/// `str::contains` for a string pattern: a substring search over the UTF-8 bytes.
pub fn str_contains(hay: &str, pat: &str) -> (b: bool)
    ensures
        b == contains_bytes(hay.spec_bytes(), pat.spec_bytes()),
{
    let h = hay.as_bytes();
    let p = pat.as_bytes();
    if p.len() > h.len() {
        proof {
            assert forall|i: int| !occurs_at(h@, p@, i) by {}
        }
        return false;
    }
    let last = h.len() - p.len();
    let mut i: usize = 0;
    while i <= last
        invariant
            h@ == hay.spec_bytes(),
            p@ == pat.spec_bytes(),
            last == h@.len() - p@.len(),
            i <= last + 1,
            forall|k: int| 0 <= k < i ==> !occurs_at(h@, p@, k),
        decreases last + 1 - i,
    {
        if matches_at(h, p, i) {
            return true;
        }
        if i == last {
            proof {
                assert forall|k: int| !occurs_at(h@, p@, k) by {
                    if occurs_at(h@, p@, k) {
                        assert(0 <= k <= last);
                    }
                }
            }
            return false;
        }
        i = i + 1;
    }
    proof {
        assert forall|k: int| !occurs_at(h@, p@, k) by {
            if occurs_at(h@, p@, k) {
                assert(0 <= k <= last);
            }
        }
    }
    false
}

/// String equality, decided on the UTF-8 bytes.
pub fn str_eq(a: &str, b: &str) -> (r: bool)
    ensures
        r == (a.spec_bytes() == b.spec_bytes()),
{
    let x = a.as_bytes();
    let y = b.as_bytes();
    if x.len() != y.len() {
        return false;
    }
    let r = matches_at(x, y, 0);
    proof {
        assert(x@.subrange(0, y@.len() as int) =~= x@);
    }
    r
}

/// Appends one character to a `String` (`String::push`, which appends the given char
/// to the end of the string).
#[verifier::external_body]
pub fn string_push(s: &mut String, c: char)
    ensures
        final(s)@ == old(s)@.push(c),
{
    s.push(c);
}

} // verus!
