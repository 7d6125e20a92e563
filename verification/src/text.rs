//! Executable helpers over strings: equality and first-character search.

use vstd::prelude::*;
use vstd::string::{StringExecFns, StrSliceExecFns};
use crate::search::{char_idx, lemma_char_idx_at, lemma_char_idx_none};

verus! {

/// Whether two string slices hold the same characters.
pub fn str_eq(a: &str, b: &str) -> (r: bool)
    ensures
        r == (a@ == b@),
{
    let sa = String::from_str(a);
    let sb = String::from_str(b);
    sa == sb
}

/// Position of the first occurrence of `c` in `s`, if any.
pub fn find_char(s: &str, c: char) -> (r: Option<usize>)
    ensures
        match r {
            Some(i) => i < s@.len() && char_idx(s@, c) == i as int,
            None => char_idx(s@, c) == -1,
        },
{
    let n = s.unicode_len();
    let mut i: usize = 0;
    while i < n
        invariant
            n == s@.len(),
            i <= n,
            forall|j: int| 0 <= j < i ==> #[trigger] s@[j] != c,
        decreases n - i,
    {
        if s.get_char(i) == c {
            proof {
                lemma_char_idx_at(s@, c, i as int);
            }
            return Some(i);
        }
        i = i + 1;
    }
    proof {
        lemma_char_idx_none(s@, c);
    }
    None
}

/// The pieces of `s` between newline characters: one more piece than there
/// are newlines, in order, each without its terminator.
pub open spec fn split_on_nl(s: Seq<char>) -> Seq<Seq<char>>
    decreases s.len(),
{
    let i = char_idx(s, '\n');
    if 0 <= i < s.len() {
        seq![s.subrange(0, i)] + split_on_nl(s.subrange(i + 1, s.len() as int))
    } else {
        seq![s]
    }
}

/// The views of a list of string slices.
pub open spec fn pieces_view(ps: Seq<&str>) -> Seq<Seq<char>> {
    Seq::new(ps.len(), |i: int| ps[i]@)
}

/// Splits `s` at each newline character.
pub fn split_newlines<'a>(s: &'a str) -> (ps: Vec<&'a str>)
    ensures
        pieces_view(ps@) == split_on_nl(s@),
{
    let mut out: Vec<&'a str> = Vec::new();
    let mut rest: &'a str = s;
    loop
        invariant
            split_on_nl(s@) =~= pieces_view(out@) + split_on_nl(rest@),
        decreases rest@.len(),
    {
        let ghost pre_out = out@;
        let ghost pre_rest = rest@;
        match find_char(rest, '\n') {
            Some(j) => {
                let n = rest.unicode_len();
                let piece = rest.substring_char(0, j);
                out.push(piece);
                rest = rest.substring_char(j + 1, n);
                proof {
                    assert(split_on_nl(pre_rest) == seq![pre_rest.subrange(0, j as int)]
                        + split_on_nl(pre_rest.subrange(j + 1, pre_rest.len() as int)));
                    assert(pieces_view(out@) =~= pieces_view(pre_out).push(piece@));
                    assert(pieces_view(out@) + split_on_nl(rest@) =~= pieces_view(pre_out)
                        + split_on_nl(pre_rest));
                }
            },
            None => {
                out.push(rest);
                proof {
                    assert(split_on_nl(pre_rest) == seq![pre_rest]);
                    assert(pieces_view(out@) =~= pieces_view(pre_out).push(pre_rest));
                    assert(pieces_view(out@) =~= split_on_nl(s@));
                }
                return out;
            },
        }
    }
}

} // verus!
