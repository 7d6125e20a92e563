//! First-occurrence searches over sequences: a name in a list of names, a
//! character in a string.  Shared by the controller's pause-requester
//! bookkeeping and the script parser.

use vstd::prelude::*;

verus! {

/// Index of the first occurrence of `n` in `ns`, or `-1` when absent.
pub open spec fn name_idx(ns: Seq<Seq<char>>, n: Seq<char>) -> int
    decreases ns.len(),
{
    if ns.len() == 0 {
        -1
    } else if ns[0] == n {
        0
    } else {
        let r = name_idx(ns.drop_first(), n);
        if r < 0 {
            -1
        } else {
            r + 1
        }
    }
}

/// When `n` occurs nowhere in `ns`, its first occurrence is `-1`.
pub proof fn lemma_name_idx_none(ns: Seq<Seq<char>>, n: Seq<char>)
    requires
        forall|j: int| 0 <= j < ns.len() ==> #[trigger] ns[j] != n,
    ensures
        name_idx(ns, n) == -1,
    decreases ns.len(),
{
    if ns.len() > 0 {
        lemma_name_idx_none(ns.drop_first(), n);
    }
}

/// When `ns[i] == n` and nothing before `i` is `n`, then `i` is the first
/// occurrence.
pub proof fn lemma_name_idx_at(ns: Seq<Seq<char>>, n: Seq<char>, i: int)
    requires
        0 <= i < ns.len(),
        ns[i] == n,
        forall|j: int| 0 <= j < i ==> #[trigger] ns[j] != n,
    ensures
        name_idx(ns, n) == i,
    decreases i,
{
    if i > 0 {
        lemma_name_idx_at(ns.drop_first(), n, i - 1);
    }
}

/// What a first occurrence of `-1` or of an in-range index each imply.
pub proof fn lemma_name_idx_props(ns: Seq<Seq<char>>, n: Seq<char>)
    ensures
        name_idx(ns, n) == -1 ==> forall|j: int| 0 <= j < ns.len() ==> #[trigger] ns[j] != n,
        name_idx(ns, n) != -1 ==> 0 <= name_idx(ns, n) < ns.len() && ns[name_idx(ns, n)] == n
            && forall|j: int| 0 <= j < name_idx(ns, n) ==> #[trigger] ns[j] != n,
    decreases ns.len(),
{
    if ns.len() > 0 {
        lemma_name_idx_props(ns.drop_first(), n);
        let r = name_idx(ns, n);
        if r == -1 {
            assert forall|j: int| 0 <= j < ns.len() implies #[trigger] ns[j] != n by {
                if j > 0 {
                    assert(ns.drop_first()[j - 1] == ns[j]);
                }
            }
        } else if r > 0 {
            assert(ns.drop_first()[r - 1] == ns[r]);
            assert forall|j: int| 0 <= j < r implies #[trigger] ns[j] != n by {
                if j > 0 {
                    assert(ns.drop_first()[j - 1] == ns[j]);
                }
            }
        }
    }
}

/// Index of the first occurrence of the character `c` in `s`, or `-1`.
pub open spec fn char_idx(s: Seq<char>, c: char) -> int
    decreases s.len(),
{
    if s.len() == 0 {
        -1
    } else if s[0] == c {
        0
    } else {
        let r = char_idx(s.drop_first(), c);
        if r < 0 {
            -1
        } else {
            r + 1
        }
    }
}

/// When `c` occurs nowhere in `s`, its first occurrence is `-1`.
pub proof fn lemma_char_idx_none(s: Seq<char>, c: char)
    requires
        forall|j: int| 0 <= j < s.len() ==> #[trigger] s[j] != c,
    ensures
        char_idx(s, c) == -1,
    decreases s.len(),
{
    if s.len() > 0 {
        lemma_char_idx_none(s.drop_first(), c);
    }
}

/// When `s[i] == c` and nothing before `i` is `c`, then `i` is the first
/// occurrence.
pub proof fn lemma_char_idx_at(s: Seq<char>, c: char, i: int)
    requires
        0 <= i < s.len(),
        s[i] == c,
        forall|j: int| 0 <= j < i ==> #[trigger] s[j] != c,
    ensures
        char_idx(s, c) == i,
    decreases i,
{
    if i > 0 {
        lemma_char_idx_at(s.drop_first(), c, i - 1);
    }
}

} // verus!
