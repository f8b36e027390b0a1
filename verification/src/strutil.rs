//! Character and substring search over strings, used by text handling
//! and configuration validation.

use vstd::prelude::*;
use vstd::string::StrSliceExecFns;

verus! {

/// Whether the character occurs in the sequence.
pub open spec fn spec_contains_char(s: Seq<char>, c: char) -> bool {
    exists|i: int| 0 <= i < s.len() && s[i] == c
}

/// Whether the needle occurs in the haystack starting at `i`.
pub open spec fn spec_contains_at(h: Seq<char>, n: Seq<char>, i: int) -> bool {
    &&& 0 <= i
    &&& i + n.len() <= h.len()
    &&& h.subrange(i, i + n.len()) == n
}

/// Whether the needle occurs anywhere in the haystack.
pub open spec fn spec_contains(h: Seq<char>, n: Seq<char>) -> bool {
    exists|i: int| spec_contains_at(h, n, i)
}

/// Whether the character occurs in the string.
pub fn str_contains_char(s: &str, c: char) -> (r: bool)
    ensures
        r == spec_contains_char(s@, c),
{
    let len = s.unicode_len();
    for i in 0..len
        invariant
            len == s@.len(),
            forall|k: int| 0 <= k < i ==> s@[k] != c,
    {
        if s.get_char(i) == c {
            return true;
        }
    }
    false
}

/// Whether the needle occurs as a contiguous substring of the haystack.
pub fn str_contains(h: &str, n: &str) -> (r: bool)
    ensures
        r == spec_contains(h@, n@),
{
    let hl = h.unicode_len();
    let nl = n.unicode_len();
    if nl > hl {
        proof {
            assert forall|i: int| !spec_contains_at(h@, n@, i) by {}
        }
        return false;
    }
    if nl == 0 {
        proof {
            assert(h@.subrange(0, 0) =~= n@);
            assert(spec_contains_at(h@, n@, 0));
        }
        return true;
    }
    for i in 0..hl - nl + 1
        invariant
            hl == h@.len(),
            nl == n@.len(),
            nl <= hl,
            forall|k: int| 0 <= k < i ==> !spec_contains_at(h@, n@, k),
    {
        let mut all_match = true;
        proof {
            assert(h@.subrange(i as int, i as int) =~= n@.subrange(0, 0));
        }
        for j in 0..nl
            invariant
                hl == h@.len(),
                nl == n@.len(),
                i + nl <= hl,
                all_match <==> h@.subrange(i as int, i + j) == n@.subrange(0, j as int),
        {
            let ghost pre_h = h@.subrange(i as int, i + j);
            let ghost pre_n = n@.subrange(0, j as int);
            if h.get_char(i + j) != n.get_char(j) {
                all_match = false;
                proof {
                    if h@.subrange(i as int, i + j + 1) == n@.subrange(0, j + 1) {
                        assert(h@.subrange(i as int, i + j + 1)[j as int] == n@.subrange(
                            0,
                            j + 1,
                        )[j as int]);
                        assert(false);
                    }
                }
            } else {
                proof {
                    if all_match {
                        assert(h@.subrange(i as int, i + j + 1) =~= pre_h.push(h@[i + j]));
                        assert(n@.subrange(0, j + 1) =~= pre_n.push(n@[j as int]));
                    } else {
                        if h@.subrange(i as int, i + j + 1) == n@.subrange(0, j + 1) {
                            assert forall|k: int| 0 <= k < j implies pre_h[k] == pre_n[k] by {
                                assert(h@.subrange(i as int, i + j + 1)[k] == n@.subrange(
                                    0,
                                    j + 1,
                                )[k]);
                            }
                            assert(pre_h =~= pre_n);
                            assert(false);
                        }
                    }
                }
            }
        }
        if all_match {
            proof {
                assert(h@.subrange(i as int, i + nl) == n@.subrange(0, nl as int));
                assert(n@.subrange(0, nl as int) =~= n@);
                assert(spec_contains_at(h@, n@, i as int));
            }
            return true;
        }
        proof {
            if spec_contains_at(h@, n@, i as int) {
                assert(h@.subrange(i as int, i + nl) == n@);
                assert(n@.subrange(0, nl as int) =~= n@);
                assert(false);
            }
        }
    }
    false
}

/// Whether the needle is a prefix of the haystack.
pub open spec fn spec_starts_with(h: Seq<char>, n: Seq<char>) -> bool {
    spec_contains_at(h, n, 0)
}

/// Whether the string starts with the prefix.
pub fn str_starts_with(h: &str, n: &str) -> (r: bool)
    ensures
        r == spec_starts_with(h@, n@),
{
    let hl = h.unicode_len();
    let nl = n.unicode_len();
    if nl > hl {
        return false;
    }
    for j in 0..nl
        invariant
            hl == h@.len(),
            nl == n@.len(),
            nl <= hl,
            h@.subrange(0, j as int) == n@.subrange(0, j as int),
    {
        let ghost pre_h = h@.subrange(0, j as int);
        let ghost pre_n = n@.subrange(0, j as int);
        if h.get_char(j) != n.get_char(j) {
            proof {
                if h@.subrange(0, nl as int) == n@ {
                    assert(h@.subrange(0, nl as int)[j as int] == n@[j as int]);
                    assert(false);
                }
            }
            return false;
        }
        proof {
            assert(h@.subrange(0, j + 1) =~= pre_h.push(h@[j as int]));
            assert(n@.subrange(0, j + 1) =~= pre_n.push(n@[j as int]));
        }
    }
    proof {
        assert(n@.subrange(0, nl as int) =~= n@);
    }
    true
}

} // verus!
