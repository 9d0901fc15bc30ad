use bora::bora_config::{BoraCommand, BoraCommandMode};
use bora::menus::ViewMode;
use bora::workspace::{
    section_command_launch, workspace_ids_on_branch, workspace_move_block_params, Workspace,
    WorktreeSpaceMembership,
};

fn ws(id: &str) -> Workspace {
    Workspace {
        id: id.to_string(),
        visual_group: None,
        cached_git_branch: None,
        worktree_space: None,
        cached_git_space: None,
        identity_cwd: format!("/home/u/{id}"),
        cached_commands: None,
    }
}

fn member(id: &str, key: &str, linked: bool) -> Workspace {
    Workspace {
        worktree_space: Some(WorktreeSpaceMembership {
            key: key.to_string(),
            label: key.to_string(),
            repo_root: format!("/repo/{key}"),
            checkout_path: format!("/repo/{key}/{id}"),
            is_linked_worktree: linked,
        }),
        ..ws(id)
    }
}

#[test]
fn workspace_ids_on_branch_selects_matching_workspaces() {
    let mut ws_a = ws("a");
    ws_a.cached_git_branch = Some("feat-x".into());
    let mut ws_b = ws("b");
    ws_b.cached_git_branch = Some("main".into());
    let workspaces = vec![ws_a, ws_b, ws("c")];
    assert_eq!(workspace_ids_on_branch(&workspaces, "feat-x"), vec!["a".to_string()]);
    assert!(workspace_ids_on_branch(&workspaces, "absent").is_empty());
}

#[test]
fn dragging_a_plain_workspace_moves_it_alone() {
    let workspaces = vec![ws("a"), ws("b"), ws("c")];
    let roots = vec![0, 1, 2];
    let p = workspace_move_block_params(&workspaces, ViewMode::Flat, &roots, false, 2, 0).unwrap();
    assert_eq!(p.workspace_ids, vec!["c".to_string()]);
    assert_eq!(p.before_workspace_id.as_deref(), Some("a"));
    let to_end = workspace_move_block_params(&workspaces, ViewMode::Flat, &roots, false, 0, 3).unwrap();
    assert_eq!(to_end.workspace_ids, vec!["a".to_string()]);
    assert_eq!(to_end.before_workspace_id, None);
}

#[test]
fn a_drop_where_the_block_already_is_moves_nothing() {
    let workspaces = vec![ws("a"), ws("b"), ws("c")];
    let roots = vec![0, 1, 2];
    assert_eq!(workspace_move_block_params(&workspaces, ViewMode::Flat, &roots, false, 0, 1), None);
    assert_eq!(workspace_move_block_params(&workspaces, ViewMode::Flat, &roots, false, 2, 3), None);
    assert_eq!(workspace_move_block_params(&workspaces, ViewMode::Flat, &roots, false, 9, 0), None);
    assert_eq!(workspace_move_block_params(&workspaces, ViewMode::Flat, &[0, 2].to_vec(), false, 1, 0), None);
}

#[test]
fn a_repo_block_moves_with_its_linked_worktrees() {
    let workspaces = vec![ws("solo"), member("main", "r", false), member("wt1", "r", true), member("wt2", "r", true)];
    let roots = vec![0, 1];
    let p = workspace_move_block_params(&workspaces, ViewMode::Repo, &roots, false, 1, 0).unwrap();
    assert_eq!(p.workspace_ids, vec!["main".to_string(), "wt1".to_string(), "wt2".to_string()]);
    assert_eq!(p.before_workspace_id.as_deref(), Some("solo"));
    // A linked worktree is no drag root outside Project and Folders views.
    assert_eq!(workspace_move_block_params(&workspaces, ViewMode::Repo, &roots, false, 2, 0), None);
    // Dropping onto a member of the moving block lands it at the end.
    let p = workspace_move_block_params(&workspaces, ViewMode::Repo, &vec![1, 0], false, 1, 3).unwrap();
    assert_eq!(p.before_workspace_id, None);
}

#[test]
fn folders_view_moves_single_rows() {
    let workspaces = vec![member("main", "r", false), member("wt1", "r", true), ws("solo")];
    let roots = vec![0, 1, 2];
    let p = workspace_move_block_params(&workspaces, ViewMode::Folders, &roots, false, 1, 0).unwrap();
    assert_eq!(p.workspace_ids, vec!["wt1".to_string()]);
    assert_eq!(p.before_workspace_id.as_deref(), Some("main"));
}

#[test]
fn a_drop_on_a_grouped_target_anchors_to_its_group_head() {
    let workspaces = vec![ws("solo"), member("main", "r", false), member("wt1", "r", true)];
    let roots = vec![0, 1, 2];
    let p = workspace_move_block_params(&workspaces, ViewMode::Project, &roots, true, 0, 2).unwrap();
    assert_eq!(p.workspace_ids, vec!["solo".to_string()]);
    assert_eq!(p.before_workspace_id.as_deref(), Some("main"));
    let q = workspace_move_block_params(&workspaces, ViewMode::Project, &roots, false, 0, 2).unwrap();
    assert_eq!(q.before_workspace_id.as_deref(), Some("wt1"));
}

fn commands() -> Vec<BoraCommand> {
    vec![
        BoraCommand { label: "dev".into(), command: "bun dev".into(), mode: BoraCommandMode::Pane, branch: None },
        BoraCommand { label: "dev".into(), command: "later".into(), mode: BoraCommandMode::Shell, branch: None },
    ]
}

#[test]
fn section_command_launch_resolves_the_labelled_command_and_port() {
    let mut w = member("feature", "r", true);
    w.cached_git_branch = Some("feature-x".into());
    w.cached_commands = Some(commands());
    let workspaces = vec![ws("other"), w];
    let seen = std::cell::RefCell::new(Vec::new());
    let port_for = |checkout: &String, key: &String| {
        seen.borrow_mut().push((checkout.clone(), key.clone()));
        Some(3010)
    };
    let launch = section_command_launch(&workspaces, 1, "dev", &port_for).unwrap();
    assert_eq!(launch.ws_idx, 1);
    assert_eq!(launch.command, "bun dev");
    assert_eq!(launch.mode, BoraCommandMode::Pane);
    assert_eq!(launch.label.as_deref(), Some("dev"));
    assert_eq!(launch.port, Some(3010));
    assert_eq!(seen.borrow()[0], ("/repo/r/feature".to_string(), "feature-x".to_string()));
    assert!(section_command_launch(&workspaces, 1, "missing", &port_for).is_none());
    assert!(section_command_launch(&workspaces, 0, "dev", &port_for).is_none());
    assert!(section_command_launch(&workspaces, 5, "dev", &port_for).is_none());
}

#[test]
fn section_command_launch_keys_a_detached_checkout_by_its_directory() {
    let mut w = ws("plain");
    w.cached_commands = Some(commands());
    let key = std::cell::RefCell::new(String::new());
    let port_for = |_: &String, k: &String| {
        *key.borrow_mut() = k.clone();
        None
    };
    let launch = section_command_launch(&[w], 0, "dev", &port_for).unwrap();
    assert_eq!(launch.port, None);
    assert_eq!(*key.borrow(), "plain");
}

use bora::workspace::{worktree_source_metadata, GitSpaceMetadata, WorktreeSourceError};

fn git_space(linked: bool) -> GitSpaceMetadata {
    GitSpaceMetadata {
        key: "repo-key".into(),
        repo_identity: "owner/herdr".into(),
        checkout_key: "/repo/herdr".into(),
        label: "herdr".into(),
        repo_root: "/repo/herdr".into(),
        is_linked_worktree: linked,
    }
}

#[test]
fn worktree_source_prefers_the_membership() {
    let workspaces = vec![member("main", "r", false)];
    let never = || -> Option<GitSpaceMetadata> { panic!("no detection with a membership") };
    let mut w = workspaces.clone();
    w[0].cached_git_space = Some(git_space(false));
    let source = worktree_source_metadata(&w, 0, &never).unwrap();
    assert_eq!(source.source_workspace_id, "main");
    assert_eq!(source.space.key, "r");
    assert_eq!(source.space.repo_identity, "r");
    assert_eq!(source.space.checkout_key, "/repo/r/main");
    assert_eq!(source.source_checkout_path, "/repo/r/main");
    assert_eq!(source.existing_membership, workspaces[0].worktree_space);
}

#[test]
fn worktree_source_falls_back_to_the_detected_checkout() {
    let workspaces = vec![ws("plain")];
    let detect = || Some(git_space(false));
    let source = worktree_source_metadata(&workspaces, 0, &detect).unwrap();
    assert_eq!(source.space, git_space(false));
    assert_eq!(source.source_checkout_path, "/repo/herdr");
    assert_eq!(source.existing_membership, None);
    let nothing = || None;
    let err = worktree_source_metadata(&workspaces, 0, &nothing).unwrap_err();
    assert_eq!(err, WorktreeSourceError::NotInGitWorkTree);
    assert_eq!(err.message(), "Herdr worktree actions require a workspace inside a Git work tree.");
}

#[test]
fn worktree_source_refuses_linked_worktrees_and_missing_workspaces() {
    let linked = vec![member("wt", "r", true)];
    let detect = || Some(git_space(false));
    assert_eq!(
        worktree_source_metadata(&linked, 0, &detect),
        Err(WorktreeSourceError::LinkedWorktree)
    );
    let mut detected_linked = vec![ws("plain")];
    detected_linked[0].cached_git_space = Some(git_space(true));
    assert_eq!(
        worktree_source_metadata(&detected_linked, 0, &detect),
        Err(WorktreeSourceError::LinkedWorktree)
    );
    assert_eq!(
        worktree_source_metadata(&linked, 3, &detect),
        Err(WorktreeSourceError::WorkspaceNotFound)
    );
    assert_eq!(WorktreeSourceError::WorkspaceNotFound.message(), "Workspace not found.");
}
