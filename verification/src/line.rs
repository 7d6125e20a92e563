//! One line of the rebase script: an action token paired with free-form
//! content.

use vstd::prelude::*;
use vstd::string::{StringExecFns, StrSliceExecFns};
use crate::action::{action_from_token, action_to_token, action_token, spec_action_of, Action};
use crate::search::char_idx;
use crate::text::find_char;

verus! {

/// Why a piece of script text is not a line.
#[derive(Debug, PartialEq, Eq)]
pub enum ParseError {
    /// The first token of the text names no known action.
    UnknownAction(String),
}

impl ParseError {
    /// A human-readable account of the failure.
    pub fn describe(&self) -> (r: String)
        ensures
            match self {
                ParseError::UnknownAction(tok) => r@ == "unknown action: "@ + tok@,
            },
    {
        match self {
            ParseError::UnknownAction(tok) => String::from_str("unknown action: ").concat(
                tok.as_str(),
            ),
        }
    }
}

/// One instruction of the rebase script.
#[derive(Debug, PartialEq, Eq)]
pub struct Line {
    action: Action,
    content: String,
}

/// Specification-level form of [`Line`].
#[verifier::ext_equal]
pub struct LineV {
    pub action: Action,
    pub content: Seq<char>,
}

impl View for Line {
    type V = LineV;

    closed spec fn view(&self) -> LineV {
        LineV { action: self.action, content: self.content@ }
    }
}

/// Position of the first space in `s`, or `-1`.
pub open spec fn first_space(s: Seq<char>) -> int {
    char_idx(s, ' ')
}

/// The first space-separated token of `s`: everything before the first
/// space, or all of `s` when it holds none.
pub open spec fn token_of(s: Seq<char>) -> Seq<char> {
    if first_space(s) < 0 {
        s
    } else {
        s.subrange(0, first_space(s))
    }
}

/// The content of `s`: everything after the first space, or empty when `s`
/// holds none.
pub open spec fn content_of(s: Seq<char>) -> Seq<char> {
    if first_space(s) < 0 {
        Seq::empty()
    } else {
        s.subrange(first_space(s) + 1, s.len() as int)
    }
}

/// The line written by the text `s`, when its first token is an action.
pub open spec fn spec_parse_line(s: Seq<char>) -> Option<LineV> {
    match spec_action_of(token_of(s)) {
        Some(a) => Some(LineV { action: a, content: content_of(s) }),
        None => None,
    }
}

/// The text that writes the given line: its action token, then — unless the
/// content is empty — one space and the content.
pub open spec fn line_text(l: LineV) -> Seq<char> {
    if l.content.len() == 0 {
        action_token(l.action)
    } else {
        action_token(l.action) + " "@ + l.content
    }
}

impl Line {
    /// Parses one line of script text: the first space-separated token must
    /// name an action; the rest is kept as content.
    pub fn new(input: &str) -> (r: Result<Line, ParseError>)
        ensures
            match r {
                Ok(l) => spec_parse_line(input@) == Some(l@),
                Err(e) => spec_parse_line(input@) is None && (match e {
                    ParseError::UnknownAction(tok) => tok@ == token_of(input@),
                }),
            },
    {
        let n = input.unicode_len();
        let sp = find_char(input, ' ');
        let tok: &str;
        let content: String;
        match sp {
            Some(i) => {
                tok = input.substring_char(0, i);
                content = String::from_str(input.substring_char(i + 1, n));
            },
            None => {
                tok = input;
                content = String::new();
            },
        }
        match action_from_token(tok) {
            Some(a) => Ok(Line { action: a, content }),
            None => Err(ParseError::UnknownAction(String::from_str(tok))),
        }
    }

    /// A line built directly from its parts.
    pub fn create(action: Action, content: String) -> (l: Line)
        ensures
            l@ == (LineV { action, content: content@ }),
    {
        Line { action, content }
    }

    /// The line's action.
    pub fn get_action(&self) -> (a: &Action)
        ensures
            *a == self@.action,
    {
        &self.action
    }

    /// The line's content.
    pub fn get_content(&self) -> (c: &str)
        ensures
            c@ == self@.content,
    {
        self.content.as_str()
    }

    /// Replaces the line's action; the content is kept.
    pub fn set_action(&mut self, action: Action)
        ensures
            final(self)@ == (LineV { action, content: old(self)@.content }),
    {
        self.action = action;
    }

    /// Replaces the line's content; the action is kept.
    pub fn edit_content(&mut self, content: &str)
        ensures
            final(self)@ == (LineV { action: old(self)@.action, content: content@ }),
    {
        self.content = String::from_str(content);
    }

    /// Writes the line back as script text.
    pub fn to_text(&self) -> (r: String)
        ensures
            r@ == line_text(self@),
    {
        let mut out = String::from_str(action_to_token(self.action));
        if self.content.as_str().unicode_len() > 0 {
            out.append(" ");
            out.append(self.content.as_str());
        }
        out
    }
}

} // verus!
