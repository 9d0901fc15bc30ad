use bora::lists::MenuListState;
use bora::menus::{
    build_context_menu_items, context_menu_separator, plugin_menu_action_id, plugin_menu_context,
    plugin_menu_titles, ContextMenuKind, ContextMenuState, PaneId, ViewMode,
};
use bora::plugins::{
    InstalledPluginInfo, InstalledPluginRegistry, PluginActionContext, PluginManifestAction,
};
use bora::workspace::Workspace;

fn menu_for(kind: ContextMenuKind) -> ContextMenuState {
    ContextMenuState {
        items: build_context_menu_items(
            &kind,
            &[],
            ViewMode::Repo,
            &[],
            &[],
            &InstalledPluginRegistry::new(),
        ),
        kind,
        x: 0,
        y: 0,
        list: MenuListState::new(0),
        bora_commands: vec![],
        bora_port: None,
    }
}

#[test]
fn linked_worktree_context_menu_keeps_safe_close_and_explicit_remove() {
    let menu = menu_for(ContextMenuKind::GitWorkspace {
        ws_idx: 0,
        is_linked_worktree: true,
        has_worktree_children: false,
        collapsed: false,
        hidden: false,
    });
    let sep = context_menu_separator();
    assert_eq!(
        menu.items().iter().map(String::as_str).collect::<Vec<_>>(),
        [
            "Rename",
            "Copy path",
            sep,
            "Merge to main",
            "Open PR",
            "Sync",
            "Refresh status",
            sep,
            "New group\u{2026}",
            "Remove from group",
            sep,
            "Close",
            "Delete worktree\u{2026}",
            sep,
            "Hide 5m",
            "Hide 10m",
            "Hide 15m",
            "Hide 30m",
        ]
    );
}

#[test]
fn git_workspace_context_menu_keeps_remove_for_managed_worktrees_only() {
    let menu = menu_for(ContextMenuKind::GitWorkspace {
        ws_idx: 0,
        is_linked_worktree: false,
        has_worktree_children: false,
        collapsed: false,
        hidden: false,
    });
    let sep = context_menu_separator();
    assert_eq!(
        menu.items().iter().map(String::as_str).collect::<Vec<_>>(),
        [
            "Rename",
            "Copy path",
            sep,
            "New worktree",
            "Open worktree\u{2026}",
            "Sync",
            "Refresh status",
            sep,
            "New group\u{2026}",
            "Remove from group",
            sep,
            "Close",
            sep,
            "Hide 5m",
            "Hide 10m",
            "Hide 15m",
            "Hide 30m",
        ]
    );
}

#[test]
fn parent_worktree_context_menu_uses_repo_actions() {
    let menu = menu_for(ContextMenuKind::GitWorkspace {
        ws_idx: 0,
        is_linked_worktree: false,
        has_worktree_children: true,
        collapsed: false,
        hidden: false,
    });
    let sep = context_menu_separator();
    assert_eq!(
        menu.items().iter().map(String::as_str).collect::<Vec<_>>(),
        [
            "Rename",
            "Copy path",
            sep,
            "New worktree",
            "Open worktree\u{2026}",
            "Sync",
            "Refresh status",
            "Collapse",
            sep,
            "New group\u{2026}",
            "Remove from group",
            sep,
            "Close workspace",
            sep,
            "Hide 5m",
            "Hide 10m",
            "Hide 15m",
            "Hide 30m",
        ]
    );
}

fn test_plugin_action(
    plugin_id: &str,
    enabled: bool,
    action_id: &str,
    contexts: Vec<PluginActionContext>,
) -> InstalledPluginInfo {
    InstalledPluginInfo {
        plugin_id: plugin_id.to_string(),
        name: plugin_id.to_string(),
        version: "0.1.0".to_string(),
        enabled,
        actions: vec![PluginManifestAction {
            id: action_id.to_string(),
            title: "Do it".to_string(),
            contexts,
        }],
    }
}

fn plugin_registry_with(plugin: InstalledPluginInfo) -> InstalledPluginRegistry {
    let mut map = InstalledPluginRegistry::new();
    map.insert(plugin.plugin_id.clone(), plugin);
    map
}

fn workspace_menu_with(plugins: &InstalledPluginRegistry) -> Vec<String> {
    build_context_menu_items(
        &ContextMenuKind::Workspace { ws_idx: 0, hidden: false },
        &[],
        ViewMode::Repo,
        &[],
        &[],
        plugins,
    )
}

#[test]
fn plugin_action_context_matching_action_appears_in_menu() {
    let plugins = plugin_registry_with(test_plugin_action(
        "example.tool",
        true,
        "run",
        vec![PluginActionContext::Workspace],
    ));
    let items = workspace_menu_with(&plugins);
    assert!(
        items.iter().any(|item| item == "Do it"),
        "matching-context action must appear: {items:?}"
    );
}

#[test]
fn plugin_action_context_non_matching_context_is_skipped() {
    let plugins = plugin_registry_with(test_plugin_action(
        "example.tool",
        true,
        "run",
        vec![PluginActionContext::Tab],
    ));
    let items = workspace_menu_with(&plugins);
    assert!(
        !items.iter().any(|item| item == "Do it"),
        "non-matching-context action must not appear: {items:?}"
    );
}

#[test]
fn plugin_action_context_unknown_context_is_silent_skip() {
    let plugins = plugin_registry_with(test_plugin_action("example.tool", true, "run", vec![]));
    let items = workspace_menu_with(&plugins);
    assert!(
        !items.iter().any(|item| item == "Do it"),
        "empty contexts must never match: {items:?}"
    );
    assert_eq!(
        items.last().map(String::as_str),
        Some("Hide 30m"),
        "no orphan separator/plugin section when nothing matched: {items:?}"
    );
}

#[test]
fn plugin_action_context_disabled_plugin_contributes_nothing() {
    let plugins = plugin_registry_with(test_plugin_action(
        "example.tool",
        false,
        "run",
        vec![PluginActionContext::Workspace],
    ));
    let items = workspace_menu_with(&plugins);
    assert!(
        !items.iter().any(|item| item == "Do it"),
        "disabled plugin must contribute nothing: {items:?}"
    );
}

fn every_menu_kind() -> Vec<ContextMenuKind> {
    vec![
        ContextMenuKind::Workspace { ws_idx: 0, hidden: false },
        ContextMenuKind::GitWorkspace {
            ws_idx: 0,
            is_linked_worktree: false,
            has_worktree_children: false,
            collapsed: false,
            hidden: false,
        },
        ContextMenuKind::GroupHeader {
            name: "g".to_string(),
            collapse_key: "vg:g".to_string(),
            hidden: false,
        },
        ContextMenuKind::Tab { ws_idx: 0, tab_idx: 0 },
        ContextMenuKind::Pane {
            ws_idx: 0,
            tab_idx: 0,
            pane_id: PaneId { raw: 1 },
            source_pane_id: None,
            has_manual_label: false,
            right_click_passthrough: false,
        },
        ContextMenuKind::RepoPr {
            ws_idx: 0,
            number: 1,
            url: "https://example.com/pr/1".to_string(),
            head_ref: "feature".to_string(),
        },
        ContextMenuKind::RepoIssue {
            number: 1,
            url: "https://example.com/issues/1".to_string(),
            flow_available: false,
        },
    ]
}

#[test]
fn plugin_action_context_global_action_appears_in_every_menu_kind() {
    let plugins = plugin_registry_with(test_plugin_action(
        "example.tool",
        true,
        "run",
        vec![PluginActionContext::Global],
    ));
    for kind in every_menu_kind() {
        let items = build_context_menu_items(&kind, &[], ViewMode::Repo, &[], &[], &plugins);
        assert!(
            items.iter().any(|item| item == "Do it"),
            "Global action must appear for {kind:?}: {items:?}"
        );
    }
}

#[test]
fn plugin_menu_entries_resolve_to_qualified_action_ids() {
    let plugins = plugin_registry_with(test_plugin_action(
        "example.tool",
        true,
        "run",
        vec![PluginActionContext::Tab],
    ));
    let tab = ContextMenuKind::Tab { ws_idx: 0, tab_idx: 0 };
    assert_eq!(plugin_menu_context(&tab), PluginActionContext::Tab);
    assert_eq!(plugin_menu_titles(&tab, &plugins), vec!["Do it".to_string()]);
    assert_eq!(
        plugin_menu_action_id(&tab, "Do it", &plugins),
        Some("example.tool.run".to_string())
    );
    assert_eq!(plugin_menu_action_id(&tab, "Other", &plugins), None);
    let ws = ContextMenuKind::Workspace { ws_idx: 0, hidden: false };
    assert_eq!(plugin_menu_action_id(&ws, "Do it", &plugins), None);
}

#[test]
fn registering_a_plugin_twice_replaces_it() {
    let mut plugins = plugin_registry_with(test_plugin_action(
        "example.tool",
        true,
        "run",
        vec![PluginActionContext::Global],
    ));
    plugins.insert(
        "example.tool".to_string(),
        test_plugin_action("example.tool", false, "run", vec![PluginActionContext::Global]),
    );
    assert_eq!(plugins.plugins.len(), 1);
    assert!(!workspace_menu_with(&plugins).iter().any(|i| i == "Do it"));
}

#[test]
fn workspace_menu_lists_visual_groups_sorted_and_unique() {
    let ws = |id: &str, group: Option<&str>| Workspace {
        id: id.to_string(),
        visual_group: group.map(str::to_string),
        cached_git_branch: None,
        worktree_space: None,
        cached_git_space: None,
        identity_cwd: "/tmp".to_string(),
        cached_commands: None,
    };
    let workspaces = vec![ws("a", Some("zeta")), ws("b", Some("alpha")), ws("c", Some("zeta")), ws("d", None)];
    let items = build_context_menu_items(
        &ContextMenuKind::Workspace { ws_idx: 0, hidden: false },
        &workspaces,
        ViewMode::Repo,
        &[],
        &[],
        &InstalledPluginRegistry::new(),
    );
    let alpha = items.iter().position(|i| i.contains("alpha"));
    let zeta = items.iter().position(|i| i.contains("zeta"));
    assert!(alpha.is_some() && zeta.is_some(), "{items:?}");
    assert!(alpha < zeta, "{items:?}");
    assert_eq!(items.iter().filter(|i| i.contains("zeta")).count(), 1, "{items:?}");
}

#[test]
fn hidden_workspace_menu_offers_unhide() {
    let items = build_context_menu_items(
        &ContextMenuKind::Workspace { ws_idx: 0, hidden: true },
        &[],
        ViewMode::Repo,
        &[],
        &["Deploy".to_string()],
        &InstalledPluginRegistry::new(),
    );
    assert!(items.iter().any(|i| i == "Deploy"), "{items:?}");
    assert!(!items.iter().any(|i| i == "Hide 5m"), "{items:?}");
}

#[test]
fn registry_entries_are_found_by_the_key_they_were_inserted_under() {
    let mut plugins = InstalledPluginRegistry::new();
    plugins.insert(
        "alias".to_string(),
        test_plugin_action("example.tool", true, "run", vec![PluginActionContext::Global]),
    );
    plugins.insert(
        "example.tool".to_string(),
        test_plugin_action("example.tool", true, "run", vec![PluginActionContext::Global]),
    );
    assert_eq!(plugins.plugins.len(), 2);
    plugins.insert(
        "alias".to_string(),
        test_plugin_action("example.tool", false, "run", vec![PluginActionContext::Global]),
    );
    assert_eq!(plugins.keys, vec!["alias".to_string(), "example.tool".to_string()]);
    assert!(!plugins.plugins[0].enabled);
    assert!(plugins.plugins[1].enabled);
}
