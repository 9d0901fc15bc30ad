use bora::lists::{MenuListState, SelectionListState};
use bora::state::{Mode, SettingsSection};
use bora::text::{str_contains, str_lt, text_matches_query, trim_str};

#[test]
fn text_helpers_match_std() {
    assert_eq!(trim_str("  a b \t"), "a b");
    assert_eq!(trim_str(""), "");
    assert!(text_matches_query("ÀB", "xàbx"));
    assert!(str_contains("hello world", "o w"));
    assert!(str_contains("x", ""));
    assert!(!str_contains("abc", "abcd"));
    assert!(str_lt("a", "b"));
    assert!(str_lt("ab", "abc"));
    assert!(!str_lt("b", "a"));
    assert!(!str_lt("a", "a"));
}

#[test]
fn query_words_each_occur_case_insensitively() {
    assert!(text_matches_query("Fd Clean", "/repo/fd-cleanup"));
    assert!(!text_matches_query("fd zz", "/repo/fd-cleanup"));
    assert!(text_matches_query("", "anything"));
}

#[test]
fn list_cursors_clamp() {
    let mut menu = MenuListState::new(0);
    menu.move_prev();
    assert_eq!(menu.highlighted, 0);
    menu.move_next(3);
    menu.move_next(3);
    menu.move_next(3);
    assert_eq!(menu.highlighted, 2);
    menu.move_next(0);
    assert_eq!(menu.highlighted, 2);
    menu.hover(Some(1));
    assert_eq!(menu.highlighted, 1);
    menu.hover(None);
    assert_eq!(menu.highlighted, 1);
    let mut sel = SelectionListState::new(4);
    sel.move_next(2);
    assert_eq!(sel.selected, 1);
    sel.move_prev();
    sel.move_prev();
    assert_eq!(sel.selected, 0);
    sel.select(7);
    assert_eq!(sel.selected, 7);
}

#[test]
fn modes_and_settings_labels() {
    assert!(Mode::Navigate.wants_ascii_input());
    assert!(!Mode::Terminal.wants_ascii_input());
    assert_eq!(SettingsSection::Theme.label(), "theme");
}

#[test]
fn closed_dialogs_return_to_the_terminal_or_navigation() {
    assert_eq!(bora::state::mode_after_closing_dialog(true), Mode::Terminal);
    assert_eq!(bora::state::mode_after_closing_dialog(false), Mode::Navigate);
    assert!(Mode::ContextMenu.mouse_motion_changes_view());
    assert!(!Mode::Terminal.mouse_motion_changes_view());
}
