//! The rebase instruction script: an ordered list of lines with a selection
//! cursor, an optional visual range, and bulk editing operations.

use vstd::prelude::*;
use vstd::pervasive::VecAdditionalExecFns;
use vstd::string::{StringExecFns, StrSliceExecFns};
use crate::action::Action;
use crate::line::{line_text, spec_parse_line, token_of, Line, LineV, ParseError};
use crate::text::{pieces_view, split_newlines, split_on_nl, str_eq};

verus! {

/// The views of a list of lines.
pub open spec fn lines_view(s: Seq<Line>) -> Seq<LineV> {
    Seq::new(s.len(), |i: int| s[i]@)
}

/// The given lines with every no-op instruction dropped, order kept.
pub open spec fn effective_lines(ls: Seq<LineV>) -> Seq<LineV>
    decreases ls.len(),
{
    if ls.len() == 0 {
        Seq::empty()
    } else {
        let front = effective_lines(ls.drop_last());
        if ls.last().action is Noop {
            front
        } else {
            front.push(ls.last())
        }
    }
}

/// Specification-level form of [`GitInteractive`].
#[verifier::ext_equal]
pub struct GitInteractiveV {
    pub filepath: Seq<char>,
    pub lines: Seq<LineV>,
    pub selected: int,
    pub visual: Option<int>,
    pub comment_char: Seq<char>,
    pub is_noop: bool,
}

/// What adopting a list of lines does: a script whose first instruction is
/// the no-op marker becomes the empty effective script, remembered as such;
/// any other script keeps every line that is not a no-op.
pub open spec fn spec_set_lines(g: GitInteractiveV, ls: Seq<LineV>) -> GitInteractiveV {
    let noop = ls.len() > 0 && ls[0].action is Noop;
    GitInteractiveV {
        is_noop: noop,
        lines: if noop {
            Seq::empty()
        } else {
            effective_lines(ls)
        },
        ..g
    }
}

/// Whether a piece of script text is significant: empty pieces and pieces
/// that begin with the comment prefix are skipped.
pub open spec fn keep_piece(p: Seq<char>, cc: Seq<char>) -> bool {
    p.len() > 0 && !(cc.len() <= p.len() && p.subrange(0, cc.len() as int) == cc)
}

/// The lines written by the given pieces: skipped pieces contribute
/// nothing, every kept piece must parse, and the first failure aborts.
pub open spec fn parse_pieces(ps: Seq<Seq<char>>, cc: Seq<char>) -> Option<Seq<LineV>>
    decreases ps.len(),
{
    if ps.len() == 0 {
        Some(Seq::empty())
    } else if !keep_piece(ps[0], cc) {
        parse_pieces(ps.drop_first(), cc)
    } else {
        match spec_parse_line(ps[0]) {
            None => None,
            Some(l) => match parse_pieces(ps.drop_first(), cc) {
                None => None,
                Some(t) => Some(seq![l] + t),
            },
        }
    }
}

/// The unknown token of the first kept piece that fails to parse.
pub open spec fn first_bad_token(ps: Seq<Seq<char>>, cc: Seq<char>) -> Seq<char>
    decreases ps.len(),
{
    if ps.len() == 0 {
        Seq::empty()
    } else if keep_piece(ps[0], cc) && spec_parse_line(ps[0]) is None {
        token_of(ps[0])
    } else {
        first_bad_token(ps.drop_first(), cc)
    }
}

/// What remains to be parsed, appended to what already was.
pub open spec fn parse_rest(acc: Seq<LineV>, rest: Seq<Seq<char>>, cc: Seq<char>) -> Option<
    Seq<LineV>,
> {
    match parse_pieces(rest, cc) {
        None => None,
        Some(t) => Some(acc + t),
    }
}

/// The end of the edited range: the visual start when visual mode is on,
/// the selected line otherwise.
pub open spec fn range_end(g: GitInteractiveV) -> int {
    if g.visual is Some {
        g.visual->0
    } else {
        g.selected
    }
}

/// The smaller bound of the edited range (one-based).
pub open spec fn range_lo(g: GitInteractiveV) -> int {
    if g.selected <= range_end(g) {
        g.selected
    } else {
        range_end(g)
    }
}

/// The larger bound of the edited range (one-based).
pub open spec fn range_hi(g: GitInteractiveV) -> int {
    if g.selected <= range_end(g) {
        range_end(g)
    } else {
        g.selected
    }
}

/// The given lines with the action of every line whose zero-based index
/// lies in `[lo, hi]` replaced by `a` — except `Exec` and `Break` lines,
/// which a bulk range action never overwrites.
pub open spec fn range_action_applied(ls: Seq<LineV>, lo: int, hi: int, a: Action) -> Seq<LineV> {
    Seq::new(
        ls.len(),
        |i: int|
            if lo <= i <= hi && !(ls[i].action is Exec) && !(ls[i].action is Break) {
                LineV { action: a, content: ls[i].content }
            } else {
                ls[i]
            },
    )
}

/// The script text that writes the given lines, separated by newlines.
pub open spec fn join_nl(ls: Seq<LineV>) -> Seq<char>
    decreases ls.len(),
{
    if ls.len() == 0 {
        Seq::empty()
    } else if ls.len() == 1 {
        line_text(ls[0])
    } else {
        join_nl(ls.drop_last()) + "\n"@ + line_text(ls.last())
    }
}

/// The text a script writes back: the literal no-op marker when the loaded
/// script was one, otherwise its lines joined by newlines.
pub open spec fn spec_file_text(g: GitInteractiveV) -> Seq<char> {
    if g.is_noop {
        "noop"@
    } else {
        join_nl(g.lines)
    }
}

/// The rebase instruction script under edit.
#[derive(Debug)]
pub struct GitInteractive {
    filepath: String,
    lines: Vec<Line>,
    selected_line_index: usize,
    visual_index_start: Option<usize>,
    comment_char: String,
    is_noop: bool,
}

impl View for GitInteractive {
    type V = GitInteractiveV;

    closed spec fn view(&self) -> GitInteractiveV {
        GitInteractiveV {
            filepath: self.filepath@,
            lines: lines_view(self.lines@),
            selected: self.selected_line_index as int,
            visual: match self.visual_index_start {
                Some(v) => Some(v as int),
                None => None,
            },
            comment_char: self.comment_char@,
            is_noop: self.is_noop,
        }
    }
}

impl GitInteractive {
    /// An empty script for the file at `path`, with `comment_char` as the
    /// comment prefix and the cursor on line one.
    pub fn new(path: &str, comment_char: &str) -> (g: GitInteractive)
        ensures
            g@.filepath == path@,
            g@.lines =~= Seq::<LineV>::empty(),
            g@.selected == 1,
            g@.visual is None,
            g@.comment_char == comment_char@,
            !g@.is_noop,
    {
        GitInteractive {
            filepath: String::from_str(path),
            lines: Vec::new(),
            selected_line_index: 1,
            is_noop: false,
            visual_index_start: None,
            comment_char: String::from_str(comment_char),
        }
    }

    /// Adopts `lines` as the script, per [`spec_set_lines`].
    pub fn set_lines(&mut self, lines: Vec<Line>)
        ensures
            final(self)@ == spec_set_lines(old(self)@, lines_view(lines@)),
    {
        let ghost full = lines_view(lines@);
        let noop = lines.len() > 0 && matches!(*lines[0].get_action(), Action::Noop);
        self.is_noop = noop;
        if noop {
            self.lines = Vec::new();
        } else {
            let mut rest = lines;
            let mut kept: Vec<Line> = Vec::new();
            let ghost orig = rest@;
            let ghost mut k: int = 0;
            while rest.len() > 0
                invariant
                    0 <= k <= orig.len(),
                    rest@ =~= orig.skip(k),
                    rest@.len() == orig.len() - k,
                    lines_view(kept@) =~= effective_lines(lines_view(orig).take(k)),
                decreases rest.len(),
            {
                let l = rest.remove(0);
                proof {
                    assert(l == orig[k]);
                    assert(rest@ =~= orig.skip(k + 1));
                }
                let drop_it = matches!(*l.get_action(), Action::Noop);
                if !drop_it {
                    kept.push(l);
                }
                proof {
                    let lv = lines_view(orig);
                    assert(lv.take(k + 1).drop_last() =~= lv.take(k));
                    assert(lv.take(k + 1).last() == lv[k]);
                    assert(lines_view(kept@) =~= effective_lines(lv.take(k + 1)));
                    k = k + 1;
                }
            }
            proof {
                assert(lines_view(orig).take(k) =~= lines_view(orig));
                assert(lines_view(orig) =~= full);
            }
            self.lines = kept;
        }
        proof {
            assert(self@ =~~= spec_set_lines(old(self)@, full));
        }
    }

    /// Whether a piece of script text is significant.
    fn keep_piece_exec(piece: &str, comment_char: &String) -> (r: bool)
        ensures
            r == keep_piece(piece@, comment_char@),
    {
        let pn = piece.unicode_len();
        if pn == 0 {
            return false;
        }
        let ccn = comment_char.as_str().unicode_len();
        if ccn <= pn {
            let prefix = piece.substring_char(0, ccn);
            if str_eq(prefix, comment_char.as_str()) {
                return false;
            }
        }
        true
    }

    /// Parses whole script text — skipping blank lines and comment lines —
    /// and adopts the result; the first unknown action aborts the load and
    /// leaves the script untouched.
    pub fn load_from_text(&mut self, text: &str) -> (r: Result<(), ParseError>)
        ensures
            match r {
                Ok(_) => parse_pieces(split_on_nl(text@), old(self)@.comment_char) is Some
                    && final(self)@ == spec_set_lines(
                    old(self)@,
                    parse_pieces(split_on_nl(text@), old(self)@.comment_char)->0,
                ),
                Err(e) => parse_pieces(split_on_nl(text@), old(self)@.comment_char) is None
                    && final(self)@ == old(self)@ && (match e {
                    ParseError::UnknownAction(tok) => tok@ == first_bad_token(
                        split_on_nl(text@),
                        old(self)@.comment_char,
                    ),
                }),
            },
    {
        let pieces = split_newlines(text);
        let ghost pv = split_on_nl(text@);
        let ghost cc = self@.comment_char;
        let mut parsed: Vec<Line> = Vec::new();
        let mut k: usize = 0;
        proof {
            assert(pv.skip(0) =~= pv);
            assert(lines_view(parsed@) =~= Seq::<LineV>::empty());
            if parse_pieces(pv, cc) is Some {
                assert(lines_view(parsed@) + parse_pieces(pv, cc)->0 =~= parse_pieces(pv, cc)->0);
            }
        }
        while k < pieces.len()
            invariant
                k <= pieces.len(),
                pieces_view(pieces@) == pv,
                pv == split_on_nl(text@),
                *self == *old(self),
                cc == self@.comment_char,
                cc == old(self)@.comment_char,
                parse_pieces(pv, cc) == parse_rest(lines_view(parsed@), pv.skip(k as int), cc),
                parse_pieces(pv.skip(k as int), cc) is None ==> first_bad_token(pv, cc)
                    == first_bad_token(pv.skip(k as int), cc),
            decreases pieces.len() - k,
        {
            let ghost pre_parsed = lines_view(parsed@);
            let piece = pieces[k];
            proof {
                assert(piece@ == pv[k as int]);
                assert(pv.skip(k as int).drop_first() =~= pv.skip(k as int + 1));
                assert(pv.skip(k as int)[0] == pv[k as int]);
            }
            let keep = Self::keep_piece_exec(piece, &self.comment_char);
            if keep {
                match Line::new(piece) {
                    Ok(l) => {
                        parsed.push(l);
                        proof {
                            assert(lines_view(parsed@) =~= pre_parsed.push(l@));
                            assert forall|t: Seq<LineV>| pre_parsed + (seq![l@] + t)
                                =~= lines_view(parsed@) + t by {}
                        }
                    },
                    Err(e) => {
                        proof {
                            assert(parse_pieces(pv.skip(k as int), cc) is None);
                            assert(parse_pieces(pv, cc) is None);
                            assert(first_bad_token(pv.skip(k as int), cc) == token_of(
                                pv[k as int],
                            ));
                            assert(first_bad_token(pv, cc) == token_of(piece@));
                            assert(self@ == old(self)@);
                        }
                        return Err(e);
                    },
                }
            }
            k = k + 1;
        }
        proof {
            assert(pv.skip(pieces@.len() as int) =~= Seq::<Seq<char>>::empty());
            assert(lines_view(parsed@) + Seq::<LineV>::empty() =~= lines_view(parsed@));
        }
        self.set_lines(parsed);
        Ok(())
    }

    /// Writes the whole script back as text, per [`spec_file_text`].
    pub fn to_file_text(&self) -> (r: String)
        ensures
            r@ == spec_file_text(self@),
    {
        if self.is_noop {
            return String::from_str("noop");
        }
        let ghost lv = self@.lines;
        let mut out = String::new();
        let mut i: usize = 0;
        while i < self.lines.len()
            invariant
                i <= self.lines.len(),
                lv == self@.lines,
                self.lines@.len() == lv.len(),
                lines_view(self.lines@) == lv,
                out@ == join_nl(lv.take(i as int)),
            decreases self.lines.len() - i,
        {
            let t = self.lines[i].to_text();
            if i > 0 {
                out.append("\n");
            }
            out.append(t.as_str());
            proof {
                assert(lv.take(i as int + 1).drop_last() =~= lv.take(i as int));
                assert(lv.take(i as int + 1).last() == lv[i as int]);
                if i == 0 {
                    assert(out@ =~= join_nl(lv.take(1)));
                }
            }
            i = i + 1;
        }
        proof {
            assert(lv.take(lv.len() as int) =~= lv);
        }
        out
    }

    /// Empties the script's lines; everything else is kept.
    pub fn clear(&mut self)
        ensures
            final(self)@ == (GitInteractiveV { lines: Seq::<LineV>::empty(), ..old(self)@ }),
    {
        self.lines.clear();
        proof {
            assert(self@ =~~= (GitInteractiveV { lines: Seq::<LineV>::empty(), ..old(self)@ }));
        }
    }

    /// Moves the selection cursor to the given one-based line index.
    pub fn set_selected_line_index(&mut self, selected_line_index: usize)
        ensures
            final(self)@ == (GitInteractiveV {
                selected: selected_line_index as int,
                ..old(self)@
            }),
    {
        self.selected_line_index = selected_line_index;
        proof {
            assert(self@ =~~= (GitInteractiveV {
                selected: selected_line_index as int,
                ..old(self)@
            }));
        }
    }

    /// Anchors the visual range at the given one-based line index.
    pub fn set_visual_index(&mut self, visual_index: usize)
        ensures
            final(self)@ == (GitInteractiveV { visual: Some(visual_index as int), ..old(self)@ }),
    {
        self.visual_index_start = Some(visual_index);
        proof {
            assert(self@ =~~= (GitInteractiveV {
                visual: Some(visual_index as int),
                ..old(self)@
            }));
        }
    }

    /// Enters visual mode, anchored at the selected line.
    pub fn start_visual_mode(&mut self)
        ensures
            final(self)@ == (GitInteractiveV { visual: Some(old(self)@.selected), ..old(self)@ }),
    {
        self.visual_index_start = Some(self.selected_line_index);
        proof {
            assert(self@ =~~= (GitInteractiveV { visual: Some(old(self)@.selected), ..old(self)@ }));
        }
    }

    /// Leaves visual mode.
    pub fn end_visual_mode(&mut self)
        ensures
            final(self)@ == (GitInteractiveV { visual: None, ..old(self)@ }),
    {
        self.visual_index_start = None;
        proof {
            assert(self@ =~~= (GitInteractiveV { visual: None, ..old(self)@ }));
        }
    }

    /// Swaps the lines at the given zero-based indices.
    pub fn swap_lines(&mut self, a: usize, b: usize)
        requires
            a < old(self)@.lines.len(),
            b < old(self)@.lines.len(),
        ensures
            final(self)@ == (GitInteractiveV {
                lines: old(self)@.lines.update(a as int, old(self)@.lines[b as int]).update(
                    b as int,
                    old(self)@.lines[a as int],
                ),
                ..old(self)@
            }),
    {
        if a != b {
            let la = Line::create(
                *self.lines[a].get_action(),
                String::from_str(self.lines[a].get_content()),
            );
            let lb = Line::create(
                *self.lines[b].get_action(),
                String::from_str(self.lines[b].get_content()),
            );
            self.lines.set(a, lb);
            self.lines.set(b, la);
        }
        proof {
            assert(self@ =~~= (GitInteractiveV {
                lines: old(self)@.lines.update(a as int, old(self)@.lines[b as int]).update(
                    b as int,
                    old(self)@.lines[a as int],
                ),
                ..old(self)@
            }));
        }
    }

    /// Replaces the content of the selected line; its action is kept.
    pub fn edit_selected_line(&mut self, content: &str)
        requires
            1 <= old(self)@.selected <= old(self)@.lines.len(),
        ensures
            final(self)@ == (GitInteractiveV {
                lines: old(self)@.lines.update(
                    old(self)@.selected - 1,
                    LineV {
                        action: old(self)@.lines[old(self)@.selected - 1].action,
                        content: content@,
                    },
                ),
                ..old(self)@
            }),
    {
        let idx = self.selected_line_index - 1;
        let a = *self.lines[idx].get_action();
        self.lines.set(idx, Line::create(a, String::from_str(content)));
        proof {
            assert(self@ =~~= (GitInteractiveV {
                lines: old(self)@.lines.update(
                    old(self)@.selected - 1,
                    LineV {
                        action: old(self)@.lines[old(self)@.selected - 1].action,
                        content: content@,
                    },
                ),
                ..old(self)@
            }));
        }
    }

    /// Applies `action` to every line between the selected line and the
    /// visual anchor (inclusive, in either order); `Exec` and `Break` lines
    /// are never overwritten.
    pub fn set_range_action(&mut self, action: Action)
        requires
            1 <= old(self)@.selected <= old(self)@.lines.len(),
            old(self)@.visual is Some ==> 1 <= old(self)@.visual->0 <= old(self)@.lines.len(),
        ensures
            final(self)@ == (GitInteractiveV {
                lines: range_action_applied(
                    old(self)@.lines,
                    range_lo(old(self)@) - 1,
                    range_hi(old(self)@) - 1,
                    action,
                ),
                ..old(self)@
            }),
    {
        let ghost g0 = old(self)@;
        let end_index = match self.visual_index_start {
            Some(v) => v,
            None => self.selected_line_index,
        };
        let start_index = self.selected_line_index;
        let lo = if start_index <= end_index {
            start_index
        } else {
            end_index
        };
        let hi = if start_index <= end_index {
            end_index
        } else {
            start_index
        };
        let ghost lo0 = range_lo(g0) - 1;
        let ghost hi0 = range_hi(g0) - 1;
        let mut j = lo - 1;
        proof {
            assert(lines_view(self.lines@) =~= range_action_applied(g0.lines, lo0, j as int - 1, action));
        }
        while j <= hi - 1
            invariant
                lo as int - 1 == lo0,
                hi as int - 1 == hi0,
                1 <= lo <= hi,
                hi0 < self.lines@.len(),
                lo as int - 1 <= j <= hi0 + 1,
                self.lines@.len() == g0.lines.len(),
                self@.filepath == g0.filepath,
                self@.selected == g0.selected,
                self@.visual == g0.visual,
                self@.comment_char == g0.comment_char,
                self@.is_noop == g0.is_noop,
                lines_view(self.lines@) =~= range_action_applied(g0.lines, lo0, j as int - 1, action),
            decreases hi - j,
        {
            let ghost pre_lines = lines_view(self.lines@);
            let a = *self.lines[j].get_action();
            if !(a == Action::Exec || a == Action::Break) {
                let content = String::from_str(self.lines[j].get_content());
                self.lines.set(j, Line::create(action, content));
            }
            proof {
                let cur = lines_view(self.lines@);
                let tgt = range_action_applied(g0.lines, lo0, j as int, action);
                let prev_tgt = range_action_applied(g0.lines, lo0, j as int - 1, action);
                assert(pre_lines[j as int] == g0.lines[j as int]);
                assert forall|i: int| 0 <= i < cur.len() implies cur[i] == tgt[i] by {
                    if i != j as int {
                        assert(cur[i] == pre_lines[i]);
                        assert(pre_lines[i] == prev_tgt[i]);
                    }
                }
                assert(cur =~= tgt);
            }
            j = j + 1;
        }
        proof {
            assert(self@ =~~= (GitInteractiveV {
                lines: range_action_applied(g0.lines, lo0, hi0, action),
                ..g0
            }));
        }
    }

    /// Inserts `line` so that it becomes the given one-based line number.
    pub fn add_line(&mut self, line_number: usize, line: Line)
        requires
            1 <= line_number <= old(self)@.lines.len() + 1,
        ensures
            final(self)@ == (GitInteractiveV {
                lines: old(self)@.lines.insert(line_number - 1, line@),
                ..old(self)@
            }),
    {
        self.lines.insert(line_number - 1, line);
        proof {
            assert(self@ =~~= (GitInteractiveV {
                lines: old(self)@.lines.insert(line_number as int - 1, line@),
                ..old(self)@
            }));
        }
    }

    /// Removes the line with the given one-based line number.
    pub fn remove_line(&mut self, line_number: usize)
        requires
            1 <= line_number <= old(self)@.lines.len(),
        ensures
            final(self)@ == (GitInteractiveV {
                lines: old(self)@.lines.remove(line_number - 1),
                ..old(self)@
            }),
    {
        self.lines.remove(line_number - 1);
        proof {
            assert(self@ =~~= (GitInteractiveV {
                lines: old(self)@.lines.remove(line_number as int - 1),
                ..old(self)@
            }));
        }
    }

    /// Whether the loaded script was the literal no-op marker.
    pub fn is_noop(&self) -> (r: bool)
        ensures
            r == self@.is_noop,
    {
        self.is_noop
    }

    /// The selected line.
    pub fn get_selected_line(&self) -> (l: &Line)
        requires
            1 <= self@.selected <= self@.lines.len(),
        ensures
            l@ == self@.lines[self@.selected - 1],
    {
        &self.lines[self.selected_line_index - 1]
    }

    /// The one-based index of the selected line.
    pub fn get_selected_line_index(&self) -> (i: usize)
        ensures
            i as int == self@.selected,
    {
        self.selected_line_index
    }

    /// The one-based visual anchor, when visual mode is on.
    pub fn get_visual_start_index(&self) -> (i: Option<usize>)
        ensures
            match i {
                Some(v) => self@.visual == Some(v as int),
                None => self@.visual is None,
            },
    {
        self.visual_index_start
    }

    /// The path of the file the script was read from.
    pub fn get_filepath(&self) -> (p: &str)
        ensures
            p@ == self@.filepath,
    {
        self.filepath.as_str()
    }

    /// The script's lines, in order.
    pub fn get_lines(&self) -> (ls: &Vec<Line>)
        ensures
            lines_view(ls@) == self@.lines,
    {
        &self.lines
    }
}

} // verus!
