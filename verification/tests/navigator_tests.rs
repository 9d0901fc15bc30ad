use bora::menus::PaneId;
use bora::navigator::{
    navigator_display_index_of_row, navigator_display_lines, navigator_first_row_at_or_after,
    AgentState, NavigatorDisplayLine, NavigatorRow, NavigatorTarget,
};

fn navigator_row_for_display(is_workspace: bool) -> NavigatorRow {
    NavigatorRow {
        target: NavigatorTarget::Workspace { ws_idx: 0 },
        depth: if is_workspace { 0 } else { 1 },
        label: String::new(),
        meta: String::new(),
        status: AgentState::Idle,
        seen: true,
        is_current: false,
        is_workspace,
        is_tab: false,
        expanded: true,
        search_text: String::new(),
        matched: true,
    }
}

#[test]
fn navigator_display_lines_separate_workspace_groups() {
    let rows = vec![
        navigator_row_for_display(true),
        navigator_row_for_display(false),
        navigator_row_for_display(true),
        navigator_row_for_display(false),
    ];
    assert_eq!(
        navigator_display_lines(&rows),
        vec![
            NavigatorDisplayLine::Row(0),
            NavigatorDisplayLine::Row(1),
            NavigatorDisplayLine::Spacer,
            NavigatorDisplayLine::Row(2),
            NavigatorDisplayLine::Row(3),
        ]
    );
}

#[test]
fn navigator_display_lines_have_no_leading_spacer() {
    let rows = vec![
        navigator_row_for_display(true),
        navigator_row_for_display(false),
    ];
    assert_eq!(
        navigator_display_lines(&rows),
        vec![NavigatorDisplayLine::Row(0), NavigatorDisplayLine::Row(1)]
    );
    assert!(navigator_display_lines(&[]).is_empty());
}

#[test]
fn navigator_display_index_maps_row_to_line() {
    let rows = vec![
        navigator_row_for_display(true),
        navigator_row_for_display(false),
        navigator_row_for_display(true),
    ];
    let lines = navigator_display_lines(&rows);
    assert_eq!(navigator_display_index_of_row(&lines, 2), Some(3));
    assert_eq!(navigator_display_index_of_row(&lines, 9), None);
}

#[test]
fn navigator_first_row_skips_spacer_lines() {
    let rows = vec![
        navigator_row_for_display(true),
        navigator_row_for_display(false),
        navigator_row_for_display(true),
    ];
    let lines = navigator_display_lines(&rows);
    // Line 2 is the spacer before the second workspace.
    assert_eq!(navigator_first_row_at_or_after(&lines, 2), Some(2));
    assert_eq!(navigator_first_row_at_or_after(&lines, 4), None);
}

#[test]
fn every_row_has_exactly_one_line() {
    let flags = [true, false, false, true, true, false];
    let rows: Vec<NavigatorRow> = flags.iter().map(|f| navigator_row_for_display(*f)).collect();
    let lines = navigator_display_lines(&rows);
    for (i, _) in rows.iter().enumerate() {
        let at = navigator_display_index_of_row(&lines, i).expect("each row is drawn");
        assert_eq!(lines[at], NavigatorDisplayLine::Row(i));
        assert_eq!(
            lines.iter().filter(|l| **l == NavigatorDisplayLine::Row(i)).count(),
            1
        );
        assert_eq!(navigator_first_row_at_or_after(&lines, at), Some(i));
    }
    assert_eq!(lines.len(), rows.len() + 2);
}

#[test]
fn a_leading_non_workspace_row_gets_no_spacer_and_spacers_precede_workspaces() {
    let rows = vec![
        navigator_row_for_display(false),
        navigator_row_for_display(true),
    ];
    let lines = navigator_display_lines(&rows);
    assert_eq!(
        lines,
        vec![
            NavigatorDisplayLine::Row(0),
            NavigatorDisplayLine::Spacer,
            NavigatorDisplayLine::Row(1),
        ]
    );
    assert_eq!(navigator_first_row_at_or_after(&lines, 1), Some(1));
    assert_eq!(navigator_first_row_at_or_after(&lines, 3), None);
    assert_eq!(navigator_first_row_at_or_after(&lines, 7), None);
}

#[test]
fn pane_targets_carry_their_pane() {
    let row = NavigatorRow {
        target: NavigatorTarget::Pane { ws_idx: 1, tab_idx: 2, pane_id: PaneId { raw: 9 } },
        status: AgentState::Blocked,
        ..navigator_row_for_display(false)
    };
    assert_eq!(navigator_display_lines(&[row]), vec![NavigatorDisplayLine::Row(0)]);
}
