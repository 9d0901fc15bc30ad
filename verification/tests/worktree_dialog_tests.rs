use bora::state::{parent_workspace_after_removal, still_same_linked_worktree};
use bora::state::{mode_after_release_notes, restored_selection, startup_mode, Mode};
use bora::github::{
    create_worktree_branch_entries, decimal_string, create_worktree_github_entries, right_panel_issue_at_row,
    right_panel_pr_at_row, OpenPr, RepoBranch, RepoBranches, RepoIssue, RepoIssues, RepoOpenPrs,
};
use bora::github::{create_submit_action, CreateSubmit};
use bora::state::{
    cycle_tab, CreateKeyAction, DialogKey, FlowRunRequest, GithubPickKind, WorktreeCreateTab, WorktreeListPick,
    WorktreeOpenAction, WorktreeOpenEntry, WorktreeOpenState,
};

fn open_state(entries: Vec<WorktreeOpenEntry>, query: &str) -> WorktreeOpenState {
    WorktreeOpenState {
        source_workspace_id: "source".into(),
        source_existing_membership: None,
        source_checkout_path: "/repo/herdr".into(),
        source_repo_root: "/repo/herdr".into(),
        repo_key: "repo-key".into(),
        repo_name: "herdr".into(),
        entries,
        selected: 0,
        query: query.into(),
        search_focused: true,
        error: None,
    }
}

fn entry(path: &str, branch: Option<&str>, linked: bool, open: Option<usize>) -> WorktreeOpenEntry {
    WorktreeOpenEntry {
        path: path.into(),
        branch: branch.map(str::to_string),
        is_linked_worktree: linked,
        already_open_ws_idx: open,
    }
}

fn three_entries() -> Vec<WorktreeOpenEntry> {
    vec![
        entry("/repo/herdr", Some("main"), false, Some(0)),
        entry("/repo/fd-cleanup", Some("fd-cleanup"), true, None),
        entry("/repo/bell-forward-macos-bounce", Some("bell-forward-macos-bounce"), true, None),
    ]
}

#[test]
fn worktree_open_search_filters_entries() {
    let open = open_state(three_entries(), "fd-cl");
    assert_eq!(open.filtered_indices(), vec![1]);
    assert_eq!(open.selected_entry_index(), Some(1));
}

#[test]
fn worktree_open_blank_query_keeps_every_entry() {
    let open = open_state(three_entries(), "   ");
    assert_eq!(open.filtered_indices(), vec![0, 1, 2]);
    assert_eq!(open.selected_entry_index(), Some(0));
}

#[test]
fn worktree_open_query_words_match_anywhere_case_insensitively() {
    let open = open_state(three_entries(), "MACOS bell");
    assert_eq!(open.filtered_indices(), vec![2]);
    let none = open_state(three_entries(), "zzz");
    assert!(none.filtered_indices().is_empty());
    assert_eq!(none.selected_entry_index(), None);
}

#[test]
fn worktree_open_selection_moves_within_the_filtered_entries() {
    let mut open = open_state(three_entries(), "");
    open.select_next_filtered();
    assert_eq!(open.selected, 1);
    open.select_next_filtered();
    open.select_next_filtered();
    assert_eq!(open.selected, 2, "stops at the last entry");
    open.select_previous_filtered();
    assert_eq!(open.selected, 1);
    open.query = "bounce".into();
    open.normalize_selection();
    assert_eq!(open.selected, 2, "normalizes onto the first passing entry");
}

#[test]
fn worktree_open_entry_labels() {
    let detached = entry("/repo/trees/spike", None, true, None);
    assert_eq!(detached.display_name(), "spike");
    assert_eq!(detached.status_label(), "detached");
    assert_eq!(entry("/repo", None, false, None).status_label(), "root");
    assert_eq!(entry("/repo", Some("main"), false, Some(3)).status_label(), "open");
    assert_eq!(entry("/repo", Some("main"), false, None).status_label(), "");
    assert_eq!(detached.search_text(), "spike spike /repo/trees/spike detached");
    assert!(detached.matches_query("SPIKE"));
}

#[test]
fn worktree_create_tab_cycling() {
    assert_eq!(cycle_tab(WorktreeCreateTab::Github, true), WorktreeCreateTab::Branch);
    assert_eq!(cycle_tab(WorktreeCreateTab::Branch, true), WorktreeCreateTab::Name);
    assert_eq!(cycle_tab(WorktreeCreateTab::Name, true), WorktreeCreateTab::Github);
    assert_eq!(cycle_tab(WorktreeCreateTab::Github, false), WorktreeCreateTab::Name);
    for tab in [WorktreeCreateTab::Github, WorktreeCreateTab::Branch, WorktreeCreateTab::Name] {
        assert_eq!(cycle_tab(cycle_tab(tab, true), false), tab);
    }
}

#[test]
fn list_pick_editing_resets_the_cursor() {
    let mut pick = WorktreeListPick::default();
    pick.move_selection(3, true);
    assert_eq!(pick.selected, 1);
    pick.edit_query(Some('f'));
    assert_eq!(pick.query, "f");
    assert_eq!(pick.selected, 0, "typing resets selection");
    pick.edit_query(Some('x'));
    pick.edit_query(None);
    assert_eq!(pick.query, "f");
    pick.edit_query(None);
    pick.edit_query(None);
    assert_eq!(pick.query, "");
    pick.move_selection(2, true);
    pick.move_selection(2, true);
    assert_eq!(pick.selected, 1);
    pick.move_selection(0, true);
    assert_eq!(pick.selected, 0);
}

fn repo_caches() -> (RepoOpenPrs, RepoIssues) {
    (
        RepoOpenPrs {
            prs: vec![OpenPr {
                number: 7,
                title: "fix focus".into(),
                url: "https://github.com/owner/herdr/pull/7".into(),
                head_ref_name: "fix-focus".into(),
            }],
            error: None,
        },
        RepoIssues {
            issues: vec![RepoIssue {
                number: 8,
                title: "crash on resize".into(),
                url: "https://github.com/owner/herdr/issues/8".into(),
            }],
            error: None,
        },
    )
}

#[test]
fn worktree_create_github_entries_prs_before_issues() {
    let (prs, issues) = repo_caches();
    let entries = create_worktree_github_entries("", Some(&prs), Some(&issues), false);
    assert_eq!(entries.len(), 2);
    assert_eq!(entries[0].kind, GithubPickKind::Pr);
    assert_eq!(entries[0].number, 7);
    assert!(entries[0].enabled);
    assert_eq!(entries[0].head_ref.as_deref(), Some("fix-focus"));
    assert_eq!(entries[1].kind, GithubPickKind::Issue);
    assert_eq!(entries[1].number, 8);
    assert!(!entries[1].enabled, "issue disabled without [flow]");
    assert!(create_worktree_github_entries("", Some(&prs), Some(&issues), true)[1].enabled);
}

#[test]
fn worktree_create_github_query_matches_number_or_title() {
    let (prs, issues) = repo_caches();
    let f = create_worktree_github_entries("f", Some(&prs), Some(&issues), false);
    assert_eq!(f.len(), 1, "'f' matches only #7 fix focus");
    assert_eq!(f[0].number, 7);
    let by_number = create_worktree_github_entries("  #8 ", Some(&prs), Some(&issues), false);
    assert_eq!(by_number.len(), 1);
    assert_eq!(by_number[0].number, 8);
    let by_case = create_worktree_github_entries("CRASH", Some(&prs), Some(&issues), false);
    assert_eq!(by_case.len(), 1);
    assert!(create_worktree_github_entries("", None, None, true).is_empty());
}

#[test]
fn branch_pick_filters_case_insensitively() {
    let branches = RepoBranches {
        branches: vec![
            RepoBranch { name: "main".into(), is_current: true },
            RepoBranch { name: "Dev".into(), is_current: false },
        ],
        error: None,
    };
    assert_eq!(create_worktree_branch_entries("", Some(&branches)).len(), 2);
    let dev = create_worktree_branch_entries(" de ", Some(&branches));
    assert_eq!(dev, vec![RepoBranch { name: "Dev".into(), is_current: false }]);
    assert!(create_worktree_branch_entries("zz", Some(&branches)).is_empty());
    assert!(create_worktree_branch_entries("", None).is_empty());
}

#[test]
fn decimal_string_writes_numbers() {
    assert_eq!(decimal_string(0), "0");
    assert_eq!(decimal_string(7), "7");
    assert_eq!(decimal_string(1234567890), "1234567890");
    assert_eq!(decimal_string(u64::MAX), u64::MAX.to_string());
}

#[test]
fn right_panel_rows_map_to_cached_items() {
    let (prs, issues) = repo_caches();
    assert_eq!(right_panel_issue_at_row(4, 0, 4, Some(&issues)), None, "header row");
    assert_eq!(
        right_panel_issue_at_row(4, 0, 5, Some(&issues)),
        Some((8, "https://github.com/owner/herdr/issues/8".to_string()))
    );
    assert_eq!(right_panel_issue_at_row(4, 0, 6, Some(&issues)), None, "past the end");
    assert_eq!(right_panel_issue_at_row(4, 1, 5, Some(&issues)), None, "scrolled past");
    assert_eq!(
        right_panel_pr_at_row(0, 0, 1, Some(&prs)),
        Some((7, "https://github.com/owner/herdr/pull/7".to_string(), "fix-focus".to_string()))
    );
    let errored = RepoOpenPrs { prs: prs.prs.clone(), error: Some("boom".into()) };
    assert_eq!(right_panel_pr_at_row(0, 0, 1, Some(&errored)), None);
    assert_eq!(right_panel_pr_at_row(0, 0, 1, None), None);
}

#[test]
fn worktree_open_search_accepts_pasted_text_when_focused() {
    let mut open = open_state(
        vec![
            entry("/repo/herdr-main", Some("main"), false, None),
            entry("/repo/feature-linear-302", Some("feature/linear-302"), true, None),
        ],
        "",
    );
    open.insert_search_text("linear-302");
    assert_eq!(open.query, "linear-302");
    assert_eq!(open.selected_entry_index(), Some(1));
    assert_eq!(open.selected, 1);
}

#[test]
fn worktree_open_search_ignores_paste_when_search_is_not_focused() {
    let mut open = open_state(Vec::new(), "");
    open.search_focused = false;
    open.insert_search_text("linear-302");
    assert_eq!(open.query, "");
}

#[test]
fn worktree_open_keys_focus_type_and_submit() {
    let mut open = open_state(three_entries(), "");
    open.search_focused = false;
    assert_eq!(open.handle_key(DialogKey::Char('f'), true), WorktreeOpenAction::Stay);
    assert_eq!(open.query, "", "typing needs the search focused");
    open.handle_key(DialogKey::Char('/'), true);
    assert!(open.search_focused);
    assert_eq!(open.query, "");
    for c in "fd-cl".chars() {
        open.handle_key(DialogKey::Char(c), true);
    }
    assert_eq!(open.query, "fd-cl");
    assert_eq!(open.filtered_indices(), vec![1]);
    assert_eq!(open.selected, 1);
    open.handle_key(DialogKey::Char('x'), false);
    open.handle_key(DialogKey::Char('\u{7}'), true);
    assert_eq!(open.query, "fd-cl", "modified and control characters are not typed");
    open.handle_key(DialogKey::Backspace, true);
    assert_eq!(open.query, "fd-c");
    open.handle_key(DialogKey::Char('/'), true);
    assert_eq!(open.query, "fd-c/");
    assert_eq!(open.handle_key(DialogKey::Enter, true), WorktreeOpenAction::Submit);
    assert_eq!(open.handle_key(DialogKey::Esc, true), WorktreeOpenAction::Close);
    assert_eq!(open.handle_key(DialogKey::Tab, true), WorktreeOpenAction::Stay);
}

#[test]
fn worktree_open_arrows_move_the_selection() {
    let mut open = open_state(three_entries(), "");
    open.handle_key(DialogKey::Down, true);
    assert_eq!(open.selected, 1);
    open.handle_key(DialogKey::Up, true);
    open.handle_key(DialogKey::Up, true);
    assert_eq!(open.selected, 0);
}

fn create_state(tab: WorktreeCreateTab, github_selected: usize) -> bora::state::WorktreeCreateState {
    bora::state::WorktreeCreateState {
        source_workspace_id: "source".into(),
        source_checkout_path: "/repo/herdr".into(),
        source_existing_membership: None,
        source_repo_root: "/repo/herdr".into(),
        repo_key: "repo-key".into(),
        repo_name: "herdr".into(),
        branch: "worktree/seed".into(),
        checkout_path: "/repo/.worktrees/herdr/seed".into(),
        error: None,
        creating: false,
        active_tab: tab,
        repo_identity: "owner/herdr".into(),
        github_pick: WorktreeListPick { query: String::new(), selected: github_selected },
        branch_pick: WorktreeListPick::default(),
    }
}

fn source_workspaces() -> Vec<bora::workspace::Workspace> {
    let ws = |id: &str| bora::workspace::Workspace {
        id: id.to_string(),
        visual_group: None,
        cached_git_branch: None,
        worktree_space: None,
        cached_git_space: None,
        identity_cwd: "/repo/herdr".to_string(),
        cached_commands: None,
    };
    vec![ws("other"), ws("source")]
}

#[test]
fn worktree_create_github_enter_on_pr_requests_pr_worktree() {
    let (prs, issues) = repo_caches();
    let entries = create_worktree_github_entries("", Some(&prs), Some(&issues), false);
    let action = create_submit_action(&create_state(WorktreeCreateTab::Github, 0), &entries, &[], &source_workspaces());
    assert_eq!(action, CreateSubmit::OpenPrWorktree { ws_idx: 1, number: 7 });
    let orphan = create_submit_action(&create_state(WorktreeCreateTab::Github, 0), &entries, &[], &[]);
    assert_eq!(orphan, CreateSubmit::Nothing);
}

#[test]
fn worktree_create_github_enter_on_enabled_issue_runs_flow() {
    let (prs, issues) = repo_caches();
    let entries = create_worktree_github_entries("", Some(&prs), Some(&issues), true);
    let action = create_submit_action(&create_state(WorktreeCreateTab::Github, 1), &entries, &[], &source_workspaces());
    assert_eq!(
        action,
        CreateSubmit::RunFlow(FlowRunRequest {
            number: 8,
            url: "https://github.com/owner/herdr/issues/8".into(),
        })
    );
}

#[test]
fn worktree_create_github_enter_on_disabled_issue_is_noop() {
    let (prs, issues) = repo_caches();
    let entries = create_worktree_github_entries("", Some(&prs), Some(&issues), false);
    let action = create_submit_action(&create_state(WorktreeCreateTab::Github, 1), &entries, &[], &source_workspaces());
    assert_eq!(action, CreateSubmit::Nothing);
    let past_end = create_submit_action(&create_state(WorktreeCreateTab::Github, 5), &entries, &[], &source_workspaces());
    assert_eq!(past_end, CreateSubmit::Nothing);
}

#[test]
fn worktree_create_branch_and_name_tabs_submit() {
    let branches = vec![
        RepoBranch { name: "main".into(), is_current: true },
        RepoBranch { name: "dev".into(), is_current: false },
    ];
    let mut state = create_state(WorktreeCreateTab::Branch, 0);
    state.branch_pick.selected = 1;
    assert_eq!(
        create_submit_action(&state, &[], &branches, &[]),
        CreateSubmit::CheckoutBranch("dev".into())
    );
    state.branch_pick.selected = 2;
    assert_eq!(create_submit_action(&state, &[], &branches, &[]), CreateSubmit::Nothing);
    assert_eq!(
        create_submit_action(&create_state(WorktreeCreateTab::Name, 0), &[], &[], &[]),
        CreateSubmit::CreateFromName
    );
}

#[test]
fn worktree_create_keys_cycle_tabs_and_edit_the_active_list() {
    let mut create = create_state(WorktreeCreateTab::Github, 0);
    let mut name = "generated-branch".to_string();
    let mut replace = true;
    assert_eq!(create.handle_key(&mut name, &mut replace, DialogKey::Down, 2, 5), CreateKeyAction::Stay);
    assert_eq!(create.github_pick.selected, 1);
    create.handle_key(&mut name, &mut replace, DialogKey::Down, 2, 5);
    assert_eq!(create.github_pick.selected, 1, "clamped to the two GitHub rows");
    create.handle_key(&mut name, &mut replace, DialogKey::Char('f'), 2, 5);
    assert_eq!(create.github_pick.query, "f");
    assert_eq!(create.github_pick.selected, 0, "typing resets selection");
    assert_eq!(name, "generated-branch", "list typing leaves the name alone");
    create.handle_key(&mut name, &mut replace, DialogKey::Tab, 2, 5);
    assert_eq!(create.active_tab, WorktreeCreateTab::Branch);
    create.handle_key(&mut name, &mut replace, DialogKey::Char('d'), 2, 5);
    assert_eq!(create.branch_pick.query, "d");
    assert_eq!(create.github_pick.query, "f");
    create.handle_key(&mut name, &mut replace, DialogKey::Backspace, 2, 5);
    assert_eq!(create.branch_pick.query, "");
    create.handle_key(&mut name, &mut replace, DialogKey::BackTab, 2, 5);
    create.handle_key(&mut name, &mut replace, DialogKey::BackTab, 2, 5);
    assert_eq!(create.active_tab, WorktreeCreateTab::Name);
}

#[test]
fn worktree_create_name_typing_replaces_the_prefilled_branch() {
    let mut create = create_state(WorktreeCreateTab::Name, 0);
    let mut name = "generated-branch".to_string();
    let mut replace = true;
    assert_eq!(create.handle_key(&mut name, &mut replace, DialogKey::Char('x'), 0, 0), CreateKeyAction::SyncBranch);
    assert_eq!(name, "x");
    assert!(!replace);
    create.handle_key(&mut name, &mut replace, DialogKey::Char('y'), 0, 0);
    assert_eq!(name, "xy");
    create.handle_key(&mut name, &mut replace, DialogKey::Backspace, 0, 0);
    assert_eq!(name, "x");
    let mut prefilled = "seed".to_string();
    let mut replace = true;
    create.handle_key(&mut prefilled, &mut replace, DialogKey::Backspace, 0, 0);
    assert_eq!(prefilled, "", "backspace on a prefilled name clears it");
    assert_eq!(create.handle_key(&mut name, &mut replace, DialogKey::Enter, 0, 0), CreateKeyAction::Submit);
}

#[test]
fn worktree_create_escape_waits_for_a_running_creation() {
    let mut create = create_state(WorktreeCreateTab::Name, 0);
    let mut name = String::new();
    let mut replace = false;
    assert_eq!(create.handle_key(&mut name, &mut replace, DialogKey::Esc, 0, 0), CreateKeyAction::Close);
    create.creating = true;
    assert_eq!(create.handle_key(&mut name, &mut replace, DialogKey::Esc, 0, 0), CreateKeyAction::Stay);
    create.fail_creation("branch exists".to_string());
    assert!(!create.creating);
    assert_eq!(create.error.as_deref(), Some("branch exists"));
}

#[test]
fn worktree_create_memberships() {
    let create = create_state(WorktreeCreateTab::Name, 0);
    let source = create.source_membership();
    assert_eq!(source.key, "repo-key");
    assert_eq!(source.label, "herdr");
    assert_eq!(source.checkout_path, "/repo/herdr");
    assert!(!source.is_linked_worktree);
    let created = create.created_membership();
    assert_eq!(created.checkout_path, "/repo/.worktrees/herdr/seed");
    assert!(created.is_linked_worktree);
    let mut with_existing = create.clone();
    with_existing.source_existing_membership = Some(created.clone());
    assert_eq!(with_existing.source_membership(), created);
}

#[test]
fn existing_worktree_entries_skip_bare_and_prunable_and_find_open_workspaces() {
    let list = bora::worktree_list::parse_worktree_list_porcelain(
        "worktree /repo.git\nbare\n\nworktree /repo/main\nbranch refs/heads/main\n\nworktree /repo/gone\nbranch refs/heads/gone\nprunable gitdir file points to non-existent location\n\nworktree /link/feat\nbranch refs/heads/feat\n\nworktree /repo/spike\ndetached\n",
    );
    let canonical: Vec<String> = list
        .iter()
        .map(|w| if w.path == "/link/feat" { "/repo/feat".to_string() } else { w.path.clone() })
        .collect();
    let workspaces = vec![
        bora::state::WorkspaceCheckout::Unmanaged { checkout_key: None, cwd: Some("/elsewhere".into()) },
        bora::state::WorkspaceCheckout::Member { checkout: "/repo/feat".into() },
        bora::state::WorkspaceCheckout::Unmanaged { checkout_key: Some("/repo/main".into()), cwd: None },
    ];
    let entries = bora::state::existing_worktree_entries(&list, &canonical, "/repo/main", &workspaces);
    assert_eq!(entries.len(), 3);
    assert_eq!(entries[0], entry("/repo/main", Some("main"), false, Some(2)));
    assert_eq!(entries[1], entry("/link/feat", Some("feat"), true, Some(1)));
    assert_eq!(entries[2], entry("/repo/spike", None, true, None));
}

fn remove_state() -> bora::state::WorktreeRemoveState {
    bora::state::WorktreeRemoveState {
        workspace_id: "ws-1".into(),
        repo_root: "/repo".into(),
        path: "/repo/trees/feat".into(),
        error: Some("old".into()),
        removing: false,
        force_confirmation: false,
        branch: Some("feat".into()),
    }
}

#[test]
fn remove_confirmation_keys() {
    let mut remove = remove_state();
    assert_eq!(remove.key_action(DialogKey::Esc), bora::state::RemoveKeyAction::Close);
    assert_eq!(remove.key_action(DialogKey::Enter), bora::state::RemoveKeyAction::Submit);
    assert_eq!(remove.key_action(DialogKey::Char('m')), bora::state::RemoveKeyAction::MergeAndRemove);
    assert_eq!(remove.key_action(DialogKey::Char('x')), bora::state::RemoveKeyAction::Stay);
    assert_eq!(remove.begin_removal(), Some(false));
    assert!(remove.removing);
    assert_eq!(remove.error, None);
    assert_eq!(remove.key_action(DialogKey::Esc), bora::state::RemoveKeyAction::Stay);
    assert_eq!(remove.begin_removal(), None);
}

#[test]
fn dirty_worktree_remove_failure_requests_force_confirmation() {
    let mut remove = remove_state();
    remove.begin_removal();
    remove.removal_failed("contains modified or untracked files".into(), true);
    assert!(!remove.removing);
    assert!(remove.force_confirmation);
    assert_eq!(remove.error, None);
    assert_eq!(remove.begin_removal(), Some(true), "the retry is forced");
    remove.removal_failed("still dirty".into(), true);
    assert_eq!(remove.error.as_deref(), Some("still dirty"));
}

#[test]
fn non_dirty_worktree_remove_failure_keeps_error_message() {
    let mut remove = remove_state();
    remove.begin_removal();
    remove.removal_failed("permission denied".into(), false);
    assert!(!remove.force_confirmation);
    assert_eq!(remove.error.as_deref(), Some("permission denied"));
    assert!(remove.matches_result("ws-1", "/repo/trees/feat"));
    assert!(!remove.matches_result("ws-2", "/repo/trees/feat"));
    assert!(bora::state::should_shutdown_terminals_for_removal(true, false));
    assert!(bora::state::should_shutdown_terminals_for_removal(false, true));
    assert!(!bora::state::should_shutdown_terminals_for_removal(false, false));
}

fn membership(key: &str, checkout: &str, linked: bool) -> bora::workspace::WorktreeSpaceMembership {
    bora::workspace::WorktreeSpaceMembership {
        key: key.into(),
        label: "herdr".into(),
        repo_root: "/repo/herdr".into(),
        checkout_path: checkout.into(),
        is_linked_worktree: linked,
    }
}

#[test]
fn worktree_add_results_for_another_path_are_stale() {
    let create = create_state(WorktreeCreateTab::Branch, 0);
    assert!(create.matches_result("/repo/.worktrees/herdr/seed"));
    assert!(!create.matches_result("/repo/.worktrees/herdr/other"));
    assert_eq!(
        bora::state::workspace_open_failed_message("no shell"),
        "created worktree but failed to open workspace: no shell"
    );
}

#[test]
fn a_failed_open_shows_the_dialog_again_with_only_that_entry() {
    let state = open_state(three_entries(), "fd");
    let again = state.after_failed_open(1, "spawn failed");
    assert_eq!(again.entries, vec![entry("/repo/fd-cleanup", Some("fd-cleanup"), true, None)]);
    assert_eq!(again.selected, 0);
    assert_eq!(again.query, "");
    assert!(!again.search_focused);
    assert_eq!(again.error.as_deref(), Some("failed to open worktree: spawn failed"));
    assert_eq!(again.source_workspace_id, "source");

    assert_eq!(state.source_membership(), membership("repo-key", "/repo/herdr", false));
    let opened = state.opened_membership(&state.entries[1]);
    assert_eq!(opened.checkout_path, "/repo/fd-cleanup");
    assert!(opened.is_linked_worktree);
    assert_eq!(opened.key, "repo-key");
}

#[test]
fn removal_closes_only_the_workspace_still_in_the_removed_worktree() {
    let linked = Some(membership("repo-key", "/repo/fd-cleanup", true));
    assert!(still_same_linked_worktree(&linked, "/repo/fd-cleanup"));
    assert!(!still_same_linked_worktree(&linked, "/repo/other"));
    assert!(!still_same_linked_worktree(&Some(membership("repo-key", "/repo/fd-cleanup", false)), "/repo/fd-cleanup"));
    assert!(!still_same_linked_worktree(&None, "/repo/fd-cleanup"));

    let after = vec![
        None,
        Some(membership("other-key", "/repo/other", false)),
        Some(membership("repo-key", "/repo/x", true)),
        Some(membership("repo-key", "/repo/herdr", false)),
    ];
    assert_eq!(parent_workspace_after_removal(&after, &linked), Some(3));
    assert_eq!(parent_workspace_after_removal(&after[..3].to_vec(), &linked), None);
    assert_eq!(parent_workspace_after_removal(&after, &Some(membership("repo-key", "/repo/herdr", false))), None);
    assert_eq!(parent_workspace_after_removal(&after, &None), None);
}

#[test]
fn startup_and_dismissal_modes() {
    assert_eq!(startup_mode(true, true, true), Mode::Onboarding);
    assert_eq!(startup_mode(false, true, true), Mode::ProductAnnouncement);
    assert_eq!(startup_mode(false, false, true), Mode::Terminal);
    assert_eq!(startup_mode(false, false, false), Mode::Navigate);
    assert_eq!(mode_after_release_notes(true, false), Mode::ProductAnnouncement);
    assert_eq!(mode_after_release_notes(false, true), Mode::Terminal);
    assert_eq!(restored_selection(5, 3), 2);
    assert_eq!(restored_selection(1, 3), 1);
    assert_eq!(restored_selection(4, 0), 0);
}
