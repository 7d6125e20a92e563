//! The action token of one rebase script instruction.

use vstd::prelude::*;
use crate::text::str_eq;

verus! {

/// One action of the rebase script.  `Exec` and `Break` mark instructions
/// that bulk range edits never overwrite.
#[derive(Debug, PartialEq, Eq, Clone, Copy, Structural)]
pub enum Action {
    Pick,
    Reword,
    Edit,
    Squash,
    Fixup,
    Exec,
    Break,
    Drop,
    Label,
    Reset,
    Merge,
    Noop,
}

/// The token that writes the given action.
pub open spec fn action_token(a: Action) -> Seq<char> {
    match a {
        Action::Pick => "pick"@,
        Action::Reword => "reword"@,
        Action::Edit => "edit"@,
        Action::Squash => "squash"@,
        Action::Fixup => "fixup"@,
        Action::Exec => "exec"@,
        Action::Break => "break"@,
        Action::Drop => "drop"@,
        Action::Label => "label"@,
        Action::Reset => "reset"@,
        Action::Merge => "merge"@,
        Action::Noop => "noop"@,
    }
}

/// The action written by the given token, if it is one.
pub open spec fn spec_action_of(s: Seq<char>) -> Option<Action> {
    if s == "pick"@ {
        Some(Action::Pick)
    } else if s == "reword"@ {
        Some(Action::Reword)
    } else if s == "edit"@ {
        Some(Action::Edit)
    } else if s == "squash"@ {
        Some(Action::Squash)
    } else if s == "fixup"@ {
        Some(Action::Fixup)
    } else if s == "exec"@ {
        Some(Action::Exec)
    } else if s == "break"@ {
        Some(Action::Break)
    } else if s == "drop"@ {
        Some(Action::Drop)
    } else if s == "label"@ {
        Some(Action::Label)
    } else if s == "reset"@ {
        Some(Action::Reset)
    } else if s == "merge"@ {
        Some(Action::Merge)
    } else if s == "noop"@ {
        Some(Action::Noop)
    } else {
        None
    }
}

/// The token that writes the given action.
pub fn action_to_token(a: Action) -> (r: &'static str)
    ensures
        r@ == action_token(a),
{
    match a {
        Action::Pick => "pick",
        Action::Reword => "reword",
        Action::Edit => "edit",
        Action::Squash => "squash",
        Action::Fixup => "fixup",
        Action::Exec => "exec",
        Action::Break => "break",
        Action::Drop => "drop",
        Action::Label => "label",
        Action::Reset => "reset",
        Action::Merge => "merge",
        Action::Noop => "noop",
    }
}

/// The action written by the given token, if it is one.
pub fn action_from_token(tok: &str) -> (r: Option<Action>)
    ensures
        r == spec_action_of(tok@),
{
    if str_eq(tok, "pick") {
        Some(Action::Pick)
    } else if str_eq(tok, "reword") {
        Some(Action::Reword)
    } else if str_eq(tok, "edit") {
        Some(Action::Edit)
    } else if str_eq(tok, "squash") {
        Some(Action::Squash)
    } else if str_eq(tok, "fixup") {
        Some(Action::Fixup)
    } else if str_eq(tok, "exec") {
        Some(Action::Exec)
    } else if str_eq(tok, "break") {
        Some(Action::Break)
    } else if str_eq(tok, "drop") {
        Some(Action::Drop)
    } else if str_eq(tok, "label") {
        Some(Action::Label)
    } else if str_eq(tok, "reset") {
        Some(Action::Reset)
    } else if str_eq(tok, "merge") {
        Some(Action::Merge)
    } else if str_eq(tok, "noop") {
        Some(Action::Noop)
    } else {
        None
    }
}

} // verus!
