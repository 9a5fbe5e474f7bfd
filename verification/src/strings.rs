use vstd::prelude::*;

verus! {

/// `needle` occurs in `haystack` starting at position `start`.
pub open spec fn occurs_at(haystack: Seq<char>, needle: Seq<char>, start: int) -> bool {
    0 <= start && start + needle.len() <= haystack.len() && haystack.subrange(start, start + needle.len()) == needle
}

/// `needle` occurs somewhere in `haystack`.
pub open spec fn spec_contains(haystack: Seq<char>, needle: Seq<char>) -> bool {
    exists|start: int| occurs_at(haystack, needle, start)
}

/// `haystack` begins with `prefix`.
pub open spec fn spec_starts_with(haystack: Seq<char>, prefix: Seq<char>) -> bool {
    occurs_at(haystack, prefix, 0)
}

/// Whether `needle` occurs in `haystack` at `start`.
fn matches_at(haystack: &str, needle: &str, start: usize) -> (found: bool)
    requires
        start + needle@.len() <= haystack@.len(),
    ensures
        found == occurs_at(haystack@, needle@, start as int),
{
    let n = needle.unicode_len();
    let h = haystack.unicode_len();
    let mut k: usize = 0;
    while k < n
        invariant
            n == needle@.len(),
            h == haystack@.len(),
            start + n <= haystack@.len(),
            k <= n,
            forall|j: int| 0 <= j < k ==> haystack@[start + j] == needle@[j],
        decreases n - k,
    {
        if haystack.get_char(start + k) != needle.get_char(k) {
            proof {
                assert(haystack@.subrange(start as int, start + n)[k as int] != needle@[k as int]);
            }
            return false;
        }
        k = k + 1;
    }
    proof {
        assert(haystack@.subrange(start as int, start + n) =~= needle@);
    }
    true
}

/// Whether `needle` occurs anywhere in `haystack`.
pub fn str_contains(haystack: &str, needle: &str) -> (found: bool)
    ensures
        found == spec_contains(haystack@, needle@),
{
    let h = haystack.unicode_len();
    let n = needle.unicode_len();
    if n > h {
        return false;
    }
    let last = h - n;
    let mut start: usize = 0;
    loop
        invariant
            h == haystack@.len(),
            n == needle@.len(),
            last == h - n,
            start <= last,
            forall|s: int| 0 <= s < start ==> !occurs_at(haystack@, needle@, s),
        decreases last - start,
    {
        if matches_at(haystack, needle, start) {
            return true;
        }
        if start == last {
            return false;
        }
        start = start + 1;
    }
}

/// Whether `haystack` begins with `prefix`.
pub fn str_starts_with(haystack: &str, prefix: &str) -> (found: bool)
    ensures
        found == spec_starts_with(haystack@, prefix@),
{
    if prefix.unicode_len() > haystack.unicode_len() {
        return false;
    }
    matches_at(haystack, prefix, 0)
}

/// Whether two strings hold the same characters.
pub fn str_eq(a: &str, b: &str) -> (same: bool)
    ensures
        same == (a@ == b@),
{
    if a.unicode_len() != b.unicode_len() {
        return false;
    }
    let found = matches_at(a, b, 0);
    proof {
        if found {
            assert(a@.subrange(0, a@.len() as int) =~= a@);
        } else {
            assert(a@ != b@ ) by {
                if a@ == b@ {
                    assert(a@.subrange(0, b@.len() as int) =~= b@);
                }
            }
        }
    }
    found
}

} // verus!
