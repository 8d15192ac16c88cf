//! Character-level helpers for pointer strings: equality of two string
//! slices, and locating the first `/` so a pointer can be split into its
//! segments.

use vstd::prelude::*;

verus! {

/// No character of `s` is a `/`.
pub open spec fn no_slash(s: Seq<char>) -> bool {
    forall|i: int| 0 <= i < s.len() ==> s[i] != '/'
}

/// The position of the first `/` in `s`, if any.
pub open spec fn spec_find_slash(s: Seq<char>) -> Option<int>
    decreases s.len(),
{
    if s.len() == 0 {
        None
    } else if s[0] == '/' {
        Some(0)
    } else {
        match spec_find_slash(s.skip(1)) {
            None => None,
            Some(i) => Some(i + 1),
        }
    }
}

/// What `spec_find_slash` returns: the position of a `/` that no earlier
/// position shares, and `None` exactly when `s` holds no `/` at all.
pub proof fn lemma_find_slash_characterization(s: Seq<char>)
    ensures
        match spec_find_slash(s) {
            Some(i) => 0 <= i < s.len() && s[i] == '/' && no_slash(s.take(i)),
            None => no_slash(s),
        },
    decreases s.len(),
{
    if s.len() == 0 {
    } else if s[0] == '/' {
    } else {
        lemma_find_slash_characterization(s.skip(1));
        match spec_find_slash(s.skip(1)) {
            None => {
                assert forall|i: int| 0 <= i < s.len() implies s[i] != '/' by {
                    if i > 0 {
                        assert(s.skip(1)[i - 1] == s[i]);
                    }
                }
            },
            Some(j) => {
                assert(s[j + 1] == s.skip(1)[j]);
                assert forall|i: int| 0 <= i < j + 1 implies #[trigger] s.take(j + 1)[i] != '/' by {
                    if i > 0 {
                        assert(s.skip(1).take(j)[i - 1] == s[i]);
                    }
                }
            },
        }
    }
}

/// A `/` at position `i` with none before it is the first one.
pub proof fn lemma_find_slash_at(s: Seq<char>, i: int)
    requires
        0 <= i < s.len(),
        s[i] == '/',
        no_slash(s.take(i)),
    ensures
        spec_find_slash(s) == Some(i),
{
    lemma_find_slash_characterization(s);
    match spec_find_slash(s) {
        None => {
            assert(false);
        },
        Some(j) => {
            if j < i {
                assert(s.take(i)[j] == s[j]);
                assert(false);
            }
            if j > i {
                assert(s.take(j)[i] == s[i]);
                assert(false);
            }
        },
    }
}

/// Whether two string slices hold the same characters.
pub fn str_eq(a: &str, b: &str) -> (r: bool)
    ensures
        r == (a@ == b@),
{
    let a_len = a.unicode_len();
    let b_len = b.unicode_len();
    if a_len != b_len {
        return false;
    }
    let mut i: usize = 0;
    while i < a_len
        invariant
            i <= a_len,
            a_len == a@.len(),
            b_len == b@.len(),
            a_len == b_len,
            forall|j: int| 0 <= j < i ==> a@[j] == b@[j],
        decreases a_len - i,
    {
        if a.get_char(i) != b.get_char(i) {
            return false;
        }
        i = i + 1;
    }
    proof {
        assert(a@ =~= b@);
    }
    true
}

/// The position of the first `/` in `s`, if any.
pub fn find_slash(s: &str) -> (r: Option<usize>)
    ensures
        match r {
            Some(i) => spec_find_slash(s@) == Some(i as int),
            None => spec_find_slash(s@) is None,
        },
{
    let n = s.unicode_len();
    let mut i: usize = 0;
    while i < n
        invariant
            i <= n,
            n == s@.len(),
            no_slash(s@.take(i as int)),
        decreases n - i,
    {
        if s.get_char(i) == '/' {
            proof {
                lemma_find_slash_at(s@, i as int);
            }
            return Some(i);
        }
        proof {
            assert forall|j: int| 0 <= j < i + 1 implies #[trigger] s@.take(i + 1)[j] != '/' by {
                if j < i {
                    assert(s@.take(i as int)[j] == s@[j]);
                }
            }
        }
        i = i + 1;
    }
    proof {
        lemma_find_slash_characterization(s@);
        match spec_find_slash(s@) {
            Some(j) => {
                assert(s@.take(i as int)[j] == s@[j]);
            },
            None => {},
        }
    }
    None
}

} // verus!
