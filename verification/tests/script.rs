use rebase_core::action::Action;
use rebase_core::git_interactive::GitInteractive;
use rebase_core::line::{Line, ParseError};

#[test]
fn noop_script_round_trip() {
    let mut g = GitInteractive::new("todo", "#");
    g.load_from_text("noop\n").unwrap();
    assert!(g.is_noop());
    assert_eq!(g.get_lines().len(), 0);
    assert_eq!(g.to_file_text(), "noop");
}

#[test]
fn load_parses_actions_and_content() {
    let mut g = GitInteractive::new("todo", "#");
    g.load_from_text("pick aaa first\nfixup bbb second\nbreak\n").unwrap();
    assert!(!g.is_noop());
    let lines = g.get_lines();
    assert_eq!(lines.len(), 3);
    assert_eq!(*lines[0].get_action(), Action::Pick);
    assert_eq!(lines[0].get_content(), "aaa first");
    assert_eq!(*lines[1].get_action(), Action::Fixup);
    assert_eq!(lines[1].get_content(), "bbb second");
    assert_eq!(*lines[2].get_action(), Action::Break);
    assert_eq!(lines[2].get_content(), "");
}

#[test]
fn load_skips_comments_and_blank_lines() {
    let mut g = GitInteractive::new("todo", "#");
    g.load_from_text("# a comment\n\npick aaa subject\n# another\n").unwrap();
    assert_eq!(g.get_lines().len(), 1);
    assert_eq!(*g.get_lines()[0].get_action(), Action::Pick);
}

#[test]
fn load_rejects_unknown_action() {
    let mut g = GitInteractive::new("todo", "#");
    let err = g.load_from_text("frobnicate xyz\n").unwrap_err();
    assert_eq!(err, ParseError::UnknownAction(String::from("frobnicate")));
    assert_eq!(err.describe(), "unknown action: frobnicate");
    assert_eq!(g.get_lines().len(), 0);
}

#[test]
fn noop_must_be_first_to_empty_the_script() {
    let mut g = GitInteractive::new("todo", "#");
    g.load_from_text("pick aaa one\nnoop\ndrop bbb two\n").unwrap();
    assert!(!g.is_noop());
    let lines = g.get_lines();
    assert_eq!(lines.len(), 2);
    assert_eq!(*lines[0].get_action(), Action::Pick);
    assert_eq!(*lines[1].get_action(), Action::Drop);
}

#[test]
fn serialize_joins_lines_with_newlines() {
    let mut g = GitInteractive::new("todo", "#");
    g.load_from_text("pick aaa one\ndrop bbb two\n").unwrap();
    assert_eq!(g.to_file_text(), "pick aaa one\ndrop bbb two");
}

#[test]
fn line_parse_and_write_back() {
    let l = Line::new("reword ccc subject line").unwrap();
    assert_eq!(*l.get_action(), Action::Reword);
    assert_eq!(l.get_content(), "ccc subject line");
    assert_eq!(l.to_text(), "reword ccc subject line");
    let b = Line::new("break").unwrap();
    assert_eq!(b.to_text(), "break");
}

#[test]
fn line_edit_and_set_action() {
    let mut l = Line::new("pick aaa one").unwrap();
    l.set_action(Action::Squash);
    assert_eq!(*l.get_action(), Action::Squash);
    assert_eq!(l.get_content(), "aaa one");
    l.edit_content("bbb two");
    assert_eq!(l.to_text(), "squash bbb two");
}

#[test]
fn range_action_respects_exec_and_break() {
    let mut g = GitInteractive::new("todo", "#");
    g.load_from_text("pick a 1\nexec make test\nbreak\ndrop b 2\n").unwrap();
    g.set_selected_line_index(1);
    g.set_visual_index(4);
    g.set_range_action(Action::Squash);
    let lines = g.get_lines();
    assert_eq!(*lines[0].get_action(), Action::Squash);
    assert_eq!(*lines[1].get_action(), Action::Exec);
    assert_eq!(*lines[2].get_action(), Action::Break);
    assert_eq!(*lines[3].get_action(), Action::Squash);
}

#[test]
fn range_action_works_with_reversed_range() {
    let mut g = GitInteractive::new("todo", "#");
    g.load_from_text("pick a 1\npick b 2\npick c 3\n").unwrap();
    g.set_selected_line_index(3);
    g.set_visual_index(1);
    g.set_range_action(Action::Edit);
    for l in g.get_lines() {
        assert_eq!(*l.get_action(), Action::Edit);
    }
}

#[test]
fn range_action_without_visual_mode_edits_selected_line() {
    let mut g = GitInteractive::new("todo", "#");
    g.load_from_text("pick a 1\npick b 2\n").unwrap();
    g.set_selected_line_index(2);
    g.set_range_action(Action::Drop);
    assert_eq!(*g.get_lines()[0].get_action(), Action::Pick);
    assert_eq!(*g.get_lines()[1].get_action(), Action::Drop);
}

#[test]
fn swap_add_remove_lines() {
    let mut g = GitInteractive::new("todo", "#");
    g.load_from_text("pick a 1\npick b 2\n").unwrap();
    g.swap_lines(0, 1);
    assert_eq!(g.get_lines()[0].get_content(), "b 2");
    assert_eq!(g.get_lines()[1].get_content(), "a 1");
    g.add_line(2, Line::new("break").unwrap());
    assert_eq!(g.get_lines().len(), 3);
    assert_eq!(*g.get_lines()[1].get_action(), Action::Break);
    g.remove_line(2);
    assert_eq!(g.get_lines().len(), 2);
    assert_eq!(g.get_lines()[1].get_content(), "a 1");
}

#[test]
fn edit_selected_line_keeps_action() {
    let mut g = GitInteractive::new("todo", "#");
    g.load_from_text("pick a 1\npick b 2\n").unwrap();
    g.set_selected_line_index(2);
    g.edit_selected_line("b rewritten");
    assert_eq!(*g.get_selected_line().get_action(), Action::Pick);
    assert_eq!(g.get_selected_line().get_content(), "b rewritten");
}

#[test]
fn visual_mode_bookkeeping() {
    let mut g = GitInteractive::new("todo", "#");
    g.load_from_text("pick a 1\npick b 2\n").unwrap();
    assert_eq!(g.get_selected_line_index(), 1);
    assert_eq!(g.get_visual_start_index(), None);
    g.set_selected_line_index(2);
    g.start_visual_mode();
    assert_eq!(g.get_visual_start_index(), Some(2));
    g.end_visual_mode();
    assert_eq!(g.get_visual_start_index(), None);
}

#[test]
fn clear_empties_the_lines() {
    let mut g = GitInteractive::new("todo", "#");
    g.load_from_text("pick a 1\n").unwrap();
    g.clear();
    assert_eq!(g.get_lines().len(), 0);
    assert_eq!(g.get_filepath(), "todo");
}

#[test]
fn empty_text_loads_to_empty_script() {
    let mut g = GitInteractive::new("todo", "#");
    g.load_from_text("").unwrap();
    assert!(!g.is_noop());
    assert_eq!(g.get_lines().len(), 0);
    assert_eq!(g.to_file_text(), "");
}
