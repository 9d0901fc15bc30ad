use bora::geometry::{
    global_launcher_rect, global_menu_labels, global_menu_rect, on_hotspot, on_sidebar_divider,
    project_row_target_at, sidebar_footer_rect, sidebar_new_button_rect, sidebar_width_for_divider,
    ProjectRowHitArea, Rect,
};
use bora::state::ProjectRowTarget;

#[test]
fn project_row_target_at_resolves_against_offset_area_geometry_not_zero_based_rows() {
    let areas = vec![
        ProjectRowHitArea {
            rect: Rect::new(2, 7, 20, 1),
            target: ProjectRowTarget::Project { collapse_key: "project:cnb".into() },
        },
        ProjectRowHitArea {
            rect: Rect::new(2, 8, 20, 1),
            target: ProjectRowTarget::Section {
                ws_idx: 7,
                checkout_key: "cnb-main".into(),
                collapse_key: "wsec:7".into(),
            },
        },
        ProjectRowHitArea {
            rect: Rect::new(2, 12, 20, 3),
            target: ProjectRowTarget::Band { collapse_key: "section:cnb:main:checks".into() },
        },
    ];
    assert_eq!(
        project_row_target_at(&areas, 5, 7),
        Some(&ProjectRowTarget::Project { collapse_key: "project:cnb".into() }),
    );
    assert_eq!(
        project_row_target_at(&areas, 5, 8),
        Some(&ProjectRowTarget::Section {
            ws_idx: 7,
            checkout_key: "cnb-main".into(),
            collapse_key: "wsec:7".into(),
        }),
    );
    assert_eq!(
        project_row_target_at(&areas, 5, 12),
        Some(&ProjectRowTarget::Band { collapse_key: "section:cnb:main:checks".into() }),
    );
    assert_eq!(
        project_row_target_at(&areas, 5, 14),
        Some(&ProjectRowTarget::Band { collapse_key: "section:cnb:main:checks".into() }),
    );
}

#[test]
fn project_row_target_at_returns_none_outside_every_area() {
    let areas = vec![ProjectRowHitArea {
        rect: Rect::new(2, 7, 20, 1),
        target: ProjectRowTarget::Project { collapse_key: "project:cnb".into() },
    }];
    assert_eq!(project_row_target_at(&areas, 5, 6), None, "row above");
    assert_eq!(project_row_target_at(&areas, 5, 8), None, "row below");
    assert_eq!(project_row_target_at(&areas, 1, 7), None, "col left of rect");
    assert_eq!(project_row_target_at(&areas, 22, 7), None, "col at x + width");
}

#[test]
fn footer_and_new_button_sit_on_the_last_list_row() {
    let footer = sidebar_footer_rect(Rect::new(0, 1, 24, 10));
    assert_eq!(footer, Rect::new(0, 10, 24, 1));
    assert_eq!(sidebar_footer_rect(Rect::default()), Rect::default());
    assert_eq!(sidebar_new_button_rect(footer), Rect::new(0, 10, 5, 1));
    assert_eq!(sidebar_new_button_rect(Rect::new(0, 10, 3, 1)), Rect::new(0, 10, 3, 1));
    assert_eq!(sidebar_new_button_rect(Rect::new(0, 10, 0, 1)).width, 1);
}

#[test]
fn global_launcher_never_covers_the_sidebar_collapse_toggle() {
    let footer = Rect::new(0, 10, 24, 1);
    let toggle = Rect::new(22, 10, 2, 1);
    let launcher = global_launcher_rect(false, Rect::default(), footer, false, toggle);
    assert_eq!(launcher, Rect::new(16, 10, 6, 1));
    assert!(launcher.x + launcher.width <= toggle.x);
    let badged = global_launcher_rect(false, Rect::default(), footer, true, Rect::default());
    assert_eq!(badged, Rect::new(16, 10, 8, 1));
    let mobile_area = Rect::new(1, 2, 3, 4);
    assert_eq!(global_launcher_rect(true, mobile_area, footer, false, toggle), mobile_area);
}

#[test]
fn global_menu_lists_its_entries() {
    assert_eq!(
        global_menu_labels(false, false, false),
        vec!["settings", "keybinds", "reload config", "detach"]
    );
    assert_eq!(
        global_menu_labels(true, true, true),
        vec!["settings", "chat", "keybinds", "reload config", "update ready", "detach"]
    );
    assert_eq!(
        global_menu_labels(false, false, true),
        vec!["settings", "keybinds", "reload config", "what's new", "detach"]
    );
}

#[test]
fn global_menu_opens_above_the_launcher_inside_the_screen() {
    let screen = Rect::new(0, 0, 80, 24);
    let launcher = Rect::new(16, 22, 6, 1);
    let labels = vec!["settings", "keybinds", "reload config", "detach"];
    let rect = global_menu_rect(screen, launcher, &labels, &vec![false; 4]);
    // "reload config" is 13 wide, plus padding 2 and border 2.
    assert_eq!(rect, Rect::new(16, 16, 17, 6));
    let badged = global_menu_rect(screen, launcher, &labels, &vec![false, false, true, false]);
    assert_eq!(badged.width, 19);
    let tiny = global_menu_rect(Rect::new(0, 0, 10, 3), Rect::new(0, 2, 6, 1), &labels, &vec![false; 4]);
    assert_eq!(tiny, Rect::new(0, 0, 10, 3));
}

#[test]
fn sidebar_divider_and_hotspots() {
    let sidebar = Rect::new(0, 0, 24, 30);
    let toggle = Rect::new(22, 29, 2, 1);
    assert!(on_sidebar_divider(false, sidebar, toggle, 23, 5));
    assert!(!on_sidebar_divider(false, sidebar, toggle, 23, 29), "toggle wins");
    assert!(!on_sidebar_divider(true, sidebar, toggle, 23, 5));
    assert!(!on_sidebar_divider(false, sidebar, toggle, 22, 5));
    assert!(on_hotspot(toggle, 22, 29));
    assert!(!on_hotspot(Rect::new(22, 29, 0, 1), 22, 29));
}

#[test]
fn dragging_the_divider_clamps_the_width() {
    assert_eq!(sidebar_width_for_divider(0, 29, 16, 60), 30);
    assert_eq!(sidebar_width_for_divider(0, 3, 16, 60), 16);
    assert_eq!(sidebar_width_for_divider(5, 200, 16, 60), 60);
    assert_eq!(sidebar_width_for_divider(10, 4, 1, 60), 1);
}

use bora::geometry::{
    collapsed_workspace_at_row, on_right_panel_divider, scroll_for_offset_from_bottom, scrolled_by,
    workspace_at_row, workspace_drop_index_at_row, WorkspaceCardArea,
};
use bora::menus::ViewMode;
use bora::workspace::{Workspace, WorktreeSpaceMembership};

fn card(ws_idx: usize, y: u16, height: u16) -> WorkspaceCardArea {
    WorkspaceCardArea { ws_idx, rect: Rect::new(0, y, 20, height), indented: false }
}

fn ws_in(key: Option<&str>) -> Workspace {
    Workspace {
        id: String::new(),
        visual_group: None,
        cached_git_branch: None,
        worktree_space: key.map(|k| WorktreeSpaceMembership {
            key: k.to_string(),
            label: k.to_string(),
            repo_root: "/r".to_string(),
            checkout_path: "/r".to_string(),
            is_linked_worktree: false,
        }),
        cached_git_space: None,
        identity_cwd: "/r".to_string(),
        cached_commands: None,
    }
}

#[test]
fn drop_index_picks_the_nearest_slot() {
    let area = Rect::new(0, 1, 20, 20);
    let footer = Rect::new(0, 20, 20, 1);
    let cards = vec![card(0, 1, 2), card(1, 3, 2), card(2, 5, 2)];
    let workspaces = vec![ws_in(None), ws_in(None), ws_in(None)];
    // Slot i is drawn on the row above card i; the slot after the last card below it.
    let indicator = |slot: usize| Some(1 + 2 * slot as u16);
    assert_eq!(workspace_drop_index_at_row(area, footer, 1, &cards, &workspaces, ViewMode::Flat, &indicator), Some(0));
    assert_eq!(workspace_drop_index_at_row(area, footer, 5, &cards, &workspaces, ViewMode::Flat, &indicator), Some(2));
    assert_eq!(workspace_drop_index_at_row(area, footer, 9, &cards, &workspaces, ViewMode::Flat, &indicator), Some(3));
    // A row halfway between two slots goes to the later one.
    assert_eq!(workspace_drop_index_at_row(area, footer, 4, &cards, &workspaces, ViewMode::Flat, &indicator), Some(2));
    assert_eq!(workspace_drop_index_at_row(area, footer, 0, &cards, &workspaces, ViewMode::Flat, &indicator), None);
    assert_eq!(workspace_drop_index_at_row(area, footer, 20, &cards, &workspaces, ViewMode::Flat, &indicator), None);
    assert_eq!(workspace_drop_index_at_row(area, footer, 4, &[], &workspaces, ViewMode::Flat, &indicator), Some(0));
    assert_eq!(workspace_drop_index_at_row(Rect::default(), footer, 4, &cards, &workspaces, ViewMode::Flat, &indicator), None);
    let nowhere = |_: usize| None;
    assert_eq!(workspace_drop_index_at_row(area, footer, 4, &cards, &workspaces, ViewMode::Flat, &nowhere), None);
}

#[test]
fn repo_view_has_no_slots_inside_a_repository_group() {
    let area = Rect::new(0, 1, 20, 20);
    let footer = Rect::new(0, 20, 20, 1);
    let cards = vec![card(0, 1, 2), card(1, 3, 2), card(2, 5, 2)];
    let workspaces = vec![ws_in(None), ws_in(Some("r")), ws_in(Some("r"))];
    let indicator = |slot: usize| Some(1 + 2 * slot as u16);
    // Slot 2 (between the two members of "r") is no slot in Repo view.
    assert_eq!(workspace_drop_index_at_row(area, footer, 4, &cards, &workspaces, ViewMode::Repo, &indicator), Some(1));
    assert_eq!(workspace_drop_index_at_row(area, footer, 4, &cards, &workspaces, ViewMode::Project, &indicator), Some(2));
}

#[test]
fn rows_map_to_workspace_cards() {
    let footer = Rect::new(0, 20, 20, 1);
    let cards = vec![card(4, 1, 2), card(7, 3, 3)];
    assert_eq!(workspace_at_row(footer, &cards, 2), Some(4));
    assert_eq!(workspace_at_row(footer, &cards, 5), Some(7));
    assert_eq!(workspace_at_row(footer, &cards, 6), None);
    assert_eq!(workspace_at_row(Rect::default(), &cards, 2), None);
    let strip = Rect::new(0, 2, 3, 5);
    assert_eq!(collapsed_workspace_at_row(true, strip, 3, 4), Some(1));
    assert_eq!(collapsed_workspace_at_row(true, strip, 6, 4), None, "past the last workspace");
    assert_eq!(collapsed_workspace_at_row(true, strip, 7, 9), None, "below the strip");
    assert_eq!(collapsed_workspace_at_row(false, strip, 3, 4), None);
}

#[test]
fn scrolling_clamps_to_the_list() {
    assert_eq!(scrolled_by(5, -3, 10), 2);
    assert_eq!(scrolled_by(2, -3, 10), 0);
    assert_eq!(scrolled_by(2, i16::MIN, 10), 0);
    assert_eq!(scrolled_by(5, 3, 10), 8);
    assert_eq!(scrolled_by(9, 3, 10), 10);
    assert_eq!(scrolled_by(usize::MAX, 3, usize::MAX), usize::MAX);
    assert_eq!(scroll_for_offset_from_bottom(10, 3), 7);
    assert_eq!(scroll_for_offset_from_bottom(2, 3), 0);
    assert!(on_right_panel_divider(false, Rect::new(60, 0, 20, 30), 60));
    assert!(!on_right_panel_divider(true, Rect::new(60, 0, 20, 30), 60));
    assert!(!on_right_panel_divider(false, Rect::new(60, 0, 0, 30), 60));
}
