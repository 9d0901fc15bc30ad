//! Right-click context menus: which items a menu of each kind offers.

use vstd::prelude::*;
use crate::text::{owned, concat, str_lt, str_eq, views, push_str, extend_strs, seq_lt,
    lemma_seq_lt_strict_total};
use crate::workspace::{Workspace, group_set, in_group};
use crate::plugins::{PluginActionContext, InstalledPluginRegistry, InstalledPluginInfo,
    plugin_actions_for_context, registry_titles, registry_actions, first_action_titled, action_visible,
    qualified_id, visible_in_plugin, visible_actions};
use crate::lists::MenuListState;

verus! {

/// Sidebar workspace view (`ui.view_mode`).
#[derive(Debug, Clone, Copy, PartialEq, Eq, Structural)]
pub enum ViewMode {
    Flat,
    Repo,
    Project,
    Folders,
}

/// Identity of a pane.
#[derive(Debug, Clone, Copy, PartialEq, Eq, Structural)]
pub struct PaneId {
    pub raw: u32,
}

/// What a right-click menu was opened on.
#[derive(Debug, Clone, PartialEq, Eq)]
pub enum ContextMenuKind {
    Workspace { ws_idx: usize, hidden: bool },
    GitWorkspace {
        ws_idx: usize,
        is_linked_worktree: bool,
        has_worktree_children: bool,
        collapsed: bool,
        hidden: bool,
    },
    /// A sidebar group/project header row.
    GroupHeader { name: String, collapse_key: String, hidden: bool },
    /// A Project-view group header: a declared project or the orphans bucket.
    ProjectHeader { slug: Option<String>, collapse_key: String, hidden: bool },
    /// The orphan-workspace picker opened from a project header menu.
    ProjectOrphanPicker { slug: Option<String>, orphans: Vec<String> },
    /// The per-dir project membership menu.
    ProjectMemberTargets { member_dir: String },
    Tab { ws_idx: usize, tab_idx: usize },
    Pane {
        ws_idx: usize,
        tab_idx: usize,
        pane_id: PaneId,
        source_pane_id: Option<PaneId>,
        has_manual_label: bool,
        right_click_passthrough: bool,
    },
    /// An open PR row in the right panel.
    RepoPr { ws_idx: usize, number: u64, url: String, head_ref: String },
    /// An issue row in the right panel.
    RepoIssue { number: u64, url: String, flow_available: bool },
}

/// Right-click context menu state.
pub struct ContextMenuState {
    pub kind: ContextMenuKind,
    pub x: u16,
    pub y: u16,
    pub list: MenuListState,
    pub items: Vec<String>,
    pub bora_commands: Vec<crate::bora_config::BoraCommand>,
    pub bora_port: Option<u16>,
}

impl ContextMenuState {
    pub fn items(&self) -> (r: &[String])
        ensures
            r@ == self.items@,
    {
        self.items.as_slice()
    }
}

/// The separator item: drawn as a dim line, not selectable.
pub open spec fn sep() -> Seq<char> {
    "─"@
}

/// Separator item (`CONTEXT_MENU_SEPARATOR`).
pub fn context_menu_separator() -> (r: &'static str)
    ensures
        r@ == sep(),
{
    "─"
}

/// The plugin-action context a menu kind exposes: workspace menus expose
/// `Workspace`, tab and pane menus their own, every other kind `Global`.
pub open spec fn menu_context(kind: ContextMenuKind) -> PluginActionContext {
    match kind {
        ContextMenuKind::Workspace { .. } => PluginActionContext::Workspace,
        ContextMenuKind::GitWorkspace { .. } => PluginActionContext::Workspace,
        ContextMenuKind::Tab { .. } => PluginActionContext::Tab,
        ContextMenuKind::Pane { .. } => PluginActionContext::Pane,
        _ => PluginActionContext::Global,
    }
}

pub fn plugin_menu_context(kind: &ContextMenuKind) -> (r: PluginActionContext)
    ensures
        r == menu_context(*kind),
{
    match kind {
        ContextMenuKind::Workspace { .. } => PluginActionContext::Workspace,
        ContextMenuKind::GitWorkspace { .. } => PluginActionContext::Workspace,
        ContextMenuKind::GroupHeader { .. } => PluginActionContext::Global,
        ContextMenuKind::ProjectHeader { .. } => PluginActionContext::Global,
        ContextMenuKind::ProjectOrphanPicker { .. } => PluginActionContext::Global,
        ContextMenuKind::ProjectMemberTargets { .. } => PluginActionContext::Global,
        ContextMenuKind::Tab { .. } => PluginActionContext::Tab,
        ContextMenuKind::Pane { .. } => PluginActionContext::Pane,
        ContextMenuKind::RepoPr { .. } => PluginActionContext::Global,
        ContextMenuKind::RepoIssue { .. } => PluginActionContext::Global,
    }
}

/// A menu offers the plugin actions of the surface it was opened on: a
/// workspace row of either kind the actions of the `Workspace` context, a
/// tab its `Tab` actions, a pane its `Pane` actions, and every other menu
/// (group and project headers, pickers, PR and issue rows) the `Global`
/// ones.
pub proof fn law_menu_plugin_entries_follow_the_surface(kind: ContextMenuKind, plugins: InstalledPluginRegistry)
    ensures
        (kind is Workspace || kind is GitWorkspace)
            ==> plugin_titles(kind, plugins) == registry_titles(plugins, PluginActionContext::Workspace),
        kind is Tab ==> plugin_titles(kind, plugins) == registry_titles(plugins, PluginActionContext::Tab),
        kind is Pane ==> plugin_titles(kind, plugins) == registry_titles(plugins, PluginActionContext::Pane),
        !(kind is Workspace || kind is GitWorkspace || kind is Tab || kind is Pane)
            ==> plugin_titles(kind, plugins) == registry_titles(plugins, PluginActionContext::Global),
{
}

/// Plugin action titles appended to a menu of `kind`.
pub open spec fn plugin_titles(kind: ContextMenuKind, plugins: InstalledPluginRegistry) -> Seq<Seq<char>> {
    registry_titles(plugins, menu_context(kind))
}

pub fn plugin_menu_titles(kind: &ContextMenuKind, installed_plugins: &InstalledPluginRegistry) -> (r: Vec<String>)
    ensures
        views(r@) == plugin_titles(*kind, *installed_plugins),
{
    let ctx = plugin_menu_context(kind);
    let actions = plugin_actions_for_context(installed_plugins, ctx);
    let mut out: Vec<String> = Vec::new();
    let mut i: usize = 0;
    while i < actions.len()
        invariant
            i <= actions.len(),
            ctx == menu_context(*kind),
            actions@.len() == registry_actions(*installed_plugins, ctx).len(),
            forall|k: int| 0 <= k < actions@.len() ==> (#[trigger] actions@[k]).title@ == registry_actions(*installed_plugins, ctx)[k].0,
            views(out@) == registry_titles(*installed_plugins, ctx).take(i as int),
        decreases actions.len() - i,
    {
        push_str(&mut out, actions[i].title.as_str());
        proof {
            assert(registry_titles(*installed_plugins, ctx).take(i + 1) =~= registry_titles(*installed_plugins, ctx).take(i as int).push(actions@[i as int].title@));
        }
        i = i + 1;
    }
    proof {
        assert(registry_titles(*installed_plugins, ctx).take(i as int) =~= registry_titles(*installed_plugins, ctx));
    }
    out
}

/// Resolves a selected menu label back to the plugin action that put it
/// there, as `plugin_id.action_id`: the first visible action so titled.
pub fn plugin_menu_action_id(kind: &ContextMenuKind, label: &str, installed_plugins: &InstalledPluginRegistry) -> (r: Option<String>)
    ensures
        match r {
            Some(id) => first_action_titled(registry_actions(*installed_plugins, menu_context(*kind)), label@) == Some(id@),
            None => first_action_titled(registry_actions(*installed_plugins, menu_context(*kind)), label@) is None,
        },
{
    let ctx = plugin_menu_context(kind);
    let actions = plugin_actions_for_context(installed_plugins, ctx);
    let ghost acts = registry_actions(*installed_plugins, ctx);
    let mut i: usize = 0;
    proof {
        assert(acts.skip(0) =~= acts);
    }
    while i < actions.len()
        invariant
            i <= actions.len(),
            acts == registry_actions(*installed_plugins, ctx),
            ctx == menu_context(*kind),
            actions@.len() == acts.len(),
            forall|k: int| 0 <= k < actions@.len() ==> (#[trigger] actions@[k]).title@ == acts[k].0 && actions@[k].qualified_id@ == acts[k].1,
            first_action_titled(acts, label@) == first_action_titled(acts.skip(i as int), label@),
        decreases actions.len() - i,
    {
        proof {
            assert(acts.skip(i as int)[0] == acts[i as int]);
            assert(acts.skip(i as int).drop_first() =~= acts.skip(i + 1));
        }
        if str_eq(actions[i].title.as_str(), label) {
            return Some(owned(actions[i].qualified_id.as_str()));
        }
        i = i + 1;
    }
    None
}

/// `New group…`, then `→ <group>` per group, then `Remove from group`.
pub open spec fn groups_block(groups: Seq<Seq<char>>) -> Seq<Seq<char>> {
    seq!["New group\u{2026}"@] + groups.map_values(|g: Seq<char>| "\u{2192} "@ + g) + seq![
        "Remove from group"@,
    ]
}

/// The four timed hides, or `Unhide` for a hidden row.
pub open spec fn hide_choices(hidden: bool) -> Seq<Seq<char>> {
    if hidden {
        seq!["Unhide"@]
    } else {
        seq!["Hide 5m"@, "Hide 10m"@, "Hide 15m"@, "Hide 30m"@]
    }
}

/// Separator, then the hide choices.
pub open spec fn hide_block(hidden: bool) -> Seq<Seq<char>> {
    seq![sep()] + hide_choices(hidden)
}

/// The project-assembly items in the Project view, the group actions
/// otherwise.
pub open spec fn organize_block(view_mode: ViewMode, assembly: Seq<Seq<char>>, groups: Seq<Seq<char>>) -> Seq<Seq<char>> {
    if view_mode == ViewMode::Project {
        assembly
    } else {
        groups_block(groups)
    }
}

/// Separator and the repo's custom commands, when there are any.
pub open spec fn custom_block(custom: Seq<Seq<char>>) -> Seq<Seq<char>> {
    if custom.len() == 0 {
        Seq::empty()
    } else {
        seq![sep()] + custom
    }
}

/// The lead items of a workspace menu, by what the workspace is.
pub open spec fn workspace_lead(kind: ContextMenuKind) -> Seq<Seq<char>> {
    match kind {
        ContextMenuKind::GitWorkspace { is_linked_worktree: true, .. } => seq![
            "Rename"@, "Copy path"@, sep(), "Merge to main"@, "Open PR"@, "Sync"@,
            "Refresh status"@, sep(),
        ],
        ContextMenuKind::GitWorkspace { has_worktree_children: true, collapsed, .. } => seq![
            "Rename"@, "Copy path"@, sep(), "New worktree"@, "Open worktree\u{2026}"@, "Sync"@,
            "Refresh status"@, if collapsed { "Expand"@ } else { "Collapse"@ }, sep(),
        ],
        ContextMenuKind::GitWorkspace { .. } => seq![
            "Rename"@, "Copy path"@, sep(), "New worktree"@, "Open worktree\u{2026}"@, "Sync"@,
            "Refresh status"@, sep(),
        ],
        _ => seq!["Rename"@, "Copy path"@, "Refresh status"@, sep()],
    }
}

/// The close items of a workspace menu.
pub open spec fn workspace_close(kind: ContextMenuKind) -> Seq<Seq<char>> {
    match kind {
        ContextMenuKind::GitWorkspace { is_linked_worktree: true, .. } => seq![
            sep(), "Close"@, "Delete worktree\u{2026}"@,
        ],
        ContextMenuKind::GitWorkspace { has_worktree_children: true, .. } => seq![
            sep(), "Close workspace"@,
        ],
        _ => seq![sep(), "Close"@],
    }
}

/// The pane menu.
pub open spec fn pane_items(has_manual_label: bool, has_source: bool, passthrough: bool) -> Seq<Seq<char>> {
    seq!["Rename pane"@] + (if has_manual_label { seq!["Clear pane name"@] } else { Seq::empty() })
        + (if has_source { seq!["Swap with focused pane"@] } else { Seq::empty() }) + seq![
        "Split right"@,
        "Split down"@,
        "Zoom"@,
        if passthrough { "Use Herdr right-click menu"@ } else { "Send right-clicks to pane"@ },
        "Copy pane ID"@,
        "Close pane"@,
    ]
}

/// The items a menu of `kind` offers before plugin actions.
pub open spec fn base_items(
    kind: ContextMenuKind,
    groups: Seq<Seq<char>>,
    view_mode: ViewMode,
    assembly: Seq<Seq<char>>,
    custom: Seq<Seq<char>>,
) -> Seq<Seq<char>> {
    match kind {
        ContextMenuKind::Workspace { hidden, .. } => workspace_lead(kind) + organize_block(view_mode, assembly, groups)
            + custom_block(custom) + workspace_close(kind) + hide_block(hidden),
        ContextMenuKind::GitWorkspace { hidden, .. } => workspace_lead(kind) + organize_block(view_mode, assembly, groups)
            + custom_block(custom) + workspace_close(kind) + hide_block(hidden),
        ContextMenuKind::GroupHeader { hidden, .. } => hide_choices(hidden),
        ContextMenuKind::ProjectHeader { hidden, .. } => assembly + hide_block(hidden),
        ContextMenuKind::ProjectOrphanPicker { .. } => assembly,
        ContextMenuKind::ProjectMemberTargets { .. } => assembly,
        ContextMenuKind::Tab { .. } => seq!["New tab"@, "Rename"@, "Close"@],
        ContextMenuKind::Pane { has_manual_label, source_pane_id, right_click_passthrough, .. } => pane_items(
            has_manual_label,
            source_pane_id is Some,
            right_click_passthrough,
        ),
        ContextMenuKind::RepoPr { .. } => seq!["Open in worktree"@, sep(), "Open in browser"@, "Copy URL"@],
        ContextMenuKind::RepoIssue { flow_available, .. } => (if flow_available {
            seq!["Run with bora-flow"@, sep()]
        } else {
            Seq::empty()
        }) + seq!["Open in browser"@, "Copy URL"@],
    }
}

/// Base items, then (behind a separator) the plugin actions, if any.
pub open spec fn menu_items(
    kind: ContextMenuKind,
    groups: Seq<Seq<char>>,
    view_mode: ViewMode,
    assembly: Seq<Seq<char>>,
    custom: Seq<Seq<char>>,
    titles: Seq<Seq<char>>,
) -> Seq<Seq<char>> {
    base_items(kind, groups, view_mode, assembly, custom) + if titles.len() == 0 {
        Seq::empty()
    } else {
        seq![sep()] + titles
    }
}

proof fn lemma_visible_in_plugin_has(p: InstalledPluginInfo, n: int, ctx: PluginActionContext, j: int)
    requires
        0 <= j < n <= p.actions@.len(),
        action_visible(p, p.actions@[j], ctx),
    ensures
        visible_in_plugin(p, n, ctx).contains((p.actions@[j].title@, qualified_id(p, p.actions@[j]))),
    decreases n,
{
    let rest = visible_in_plugin(p, n - 1, ctx);
    if j < n - 1 {
        lemma_visible_in_plugin_has(p, n - 1, ctx, j);
        let k = choose|k: int| 0 <= k < rest.len() && rest[k] == (p.actions@[j].title@, qualified_id(p, p.actions@[j]));
        let a = p.actions@[n - 1];
        if action_visible(p, a, ctx) {
            assert(rest.push((a.title@, qualified_id(p, a)))[k] == rest[k]);
        }
    } else {
        assert(rest.push((p.actions@[j].title@, qualified_id(p, p.actions@[j])))[rest.len() as int]
            == (p.actions@[j].title@, qualified_id(p, p.actions@[j])));
    }
}

proof fn lemma_visible_actions_has(ps: Seq<InstalledPluginInfo>, n: int, ctx: PluginActionContext, i: int, j: int)
    requires
        0 <= i < n <= ps.len(),
        0 <= j < ps[i].actions@.len(),
        action_visible(ps[i], ps[i].actions@[j], ctx),
    ensures
        visible_actions(ps, n, ctx).contains((ps[i].actions@[j].title@, qualified_id(ps[i], ps[i].actions@[j]))),
    decreases n,
{
    let e = (ps[i].actions@[j].title@, qualified_id(ps[i], ps[i].actions@[j]));
    let prev = visible_actions(ps, n - 1, ctx);
    let last = visible_in_plugin(ps[n - 1], ps[n - 1].actions@.len() as int, ctx);
    if i < n - 1 {
        lemma_visible_actions_has(ps, n - 1, ctx, i, j);
        let k = choose|k: int| 0 <= k < prev.len() && prev[k] == e;
        assert((prev + last)[k] == e);
    } else {
        lemma_visible_in_plugin_has(ps[i], ps[i].actions@.len() as int, ctx, j);
        let k = choose|k: int| 0 <= k < last.len() && last[k] == e;
        assert((prev + last)[prev.len() + k] == e);
    }
}

/// An action of an enabled plugin that declares the `Global` context shows
/// in the menu of every kind, whatever else the menu holds.
pub proof fn law_global_action_in_every_menu(
    kind: ContextMenuKind,
    plugins: InstalledPluginRegistry,
    i: int,
    j: int,
    groups: Seq<Seq<char>>,
    view_mode: ViewMode,
    assembly: Seq<Seq<char>>,
    custom: Seq<Seq<char>>,
)
    requires
        0 <= i < plugins.plugins@.len(),
        0 <= j < plugins.plugins@[i].actions@.len(),
        plugins.plugins@[i].enabled,
        plugins.plugins@[i].actions@[j].contexts@.contains(PluginActionContext::Global),
    ensures
        menu_items(kind, groups, view_mode, assembly, custom, plugin_titles(kind, plugins))
            .contains(plugins.plugins@[i].actions@[j].title@),
{
    let ctx = menu_context(kind);
    let ps = plugins.plugins@;
    let a = ps[i].actions@[j];
    lemma_visible_actions_has(ps, ps.len() as int, ctx, i, j);
    let acts = registry_actions(plugins, ctx);
    let k = choose|k: int| 0 <= k < acts.len() && acts[k] == (a.title@, qualified_id(ps[i], a));
    let titles = plugin_titles(kind, plugins);
    assert(titles[k] == a.title@);
    let base = base_items(kind, groups, view_mode, assembly, custom);
    let items = menu_items(kind, groups, view_mode, assembly, custom, titles);
    assert(items[base.len() + 1 + k] == a.title@);
}

proof fn lemma_visible_in_plugin_only(p: InstalledPluginInfo, n: int, ctx: PluginActionContext, k: int)
    requires
        0 <= n <= p.actions@.len(),
        0 <= k < visible_in_plugin(p, n, ctx).len(),
    ensures
        exists|j: int| 0 <= j < n && action_visible(p, #[trigger] p.actions@[j], ctx)
            && visible_in_plugin(p, n, ctx)[k] == (p.actions@[j].title@, qualified_id(p, p.actions@[j])),
    decreases n,
{
    let rest = visible_in_plugin(p, n - 1, ctx);
    if k < rest.len() {
        lemma_visible_in_plugin_only(p, n - 1, ctx, k);
        let j = choose|j: int| 0 <= j < n - 1 && action_visible(p, #[trigger] p.actions@[j], ctx)
            && rest[k] == (p.actions@[j].title@, qualified_id(p, p.actions@[j]));
        let a = p.actions@[n - 1];
        if action_visible(p, a, ctx) {
            assert(rest.push((a.title@, qualified_id(p, a)))[k] == rest[k]);
        }
    } else {
        assert(action_visible(p, p.actions@[n - 1], ctx));
    }
}

proof fn lemma_visible_actions_only(ps: Seq<InstalledPluginInfo>, n: int, ctx: PluginActionContext, k: int)
    requires
        0 <= n <= ps.len(),
        0 <= k < visible_actions(ps, n, ctx).len(),
    ensures
        exists|i: int, j: int| 0 <= i < n && 0 <= j < ps[i].actions@.len()
            && action_visible(#[trigger] ps[i], #[trigger] ps[i].actions@[j], ctx)
            && visible_actions(ps, n, ctx)[k] == (ps[i].actions@[j].title@, qualified_id(ps[i], ps[i].actions@[j])),
    decreases n,
{
    let prev = visible_actions(ps, n - 1, ctx);
    let last = visible_in_plugin(ps[n - 1], ps[n - 1].actions@.len() as int, ctx);
    if k < prev.len() {
        lemma_visible_actions_only(ps, n - 1, ctx, k);
        let (i, j) = choose|i: int, j: int| 0 <= i < n - 1 && 0 <= j < ps[i].actions@.len()
            && action_visible(#[trigger] ps[i], #[trigger] ps[i].actions@[j], ctx)
            && prev[k] == (ps[i].actions@[j].title@, qualified_id(ps[i], ps[i].actions@[j]));
        assert((prev + last)[k] == prev[k]);
        assert(action_visible(ps[i], ps[i].actions@[j], ctx));
    } else {
        lemma_visible_in_plugin_only(ps[n - 1], ps[n - 1].actions@.len() as int, ctx, k - prev.len());
        let j = choose|j: int| 0 <= j < ps[n - 1].actions@.len() && action_visible(ps[n - 1], #[trigger] ps[n - 1].actions@[j], ctx)
            && last[k - prev.len()] == (ps[n - 1].actions@[j].title@, qualified_id(ps[n - 1], ps[n - 1].actions@[j]));
        assert((prev + last)[k] == last[k - prev.len()]);
        assert(action_visible(ps[n - 1], ps[n - 1].actions@[j], ctx));
    }
}

/// Every plugin entry of a menu comes from an enabled plugin's action that
/// declares the menu's own context or `Global`: disabled plugins and
/// actions for other contexts (or for none) contribute nothing.
pub proof fn law_menu_plugin_entries_are_visible_actions(kind: ContextMenuKind, plugins: InstalledPluginRegistry, k: int)
    requires
        0 <= k < plugin_titles(kind, plugins).len(),
    ensures
        exists|i: int, j: int| 0 <= i < plugins.plugins@.len() && 0 <= j < plugins.plugins@[i].actions@.len()
            && plugins.plugins@[i].enabled
            && (plugins.plugins@[i].actions@[j].contexts@.contains(menu_context(kind))
                || plugins.plugins@[i].actions@[j].contexts@.contains(PluginActionContext::Global))
            && plugin_titles(kind, plugins)[k] == #[trigger] plugins.plugins@[i].actions@[j].title@,
{
    let ps = plugins.plugins@;
    let ctx = menu_context(kind);
    lemma_visible_actions_only(ps, ps.len() as int, ctx, k);
    let (i, j) = choose|i: int, j: int| 0 <= i < ps.len() && 0 <= j < ps[i].actions@.len()
        && action_visible(#[trigger] ps[i], #[trigger] ps[i].actions@[j], ctx)
        && visible_actions(ps, ps.len() as int, ctx)[k] == (ps[i].actions@[j].title@, qualified_id(ps[i], ps[i].actions@[j]));
    assert(plugin_titles(kind, plugins)[k] == ps[i].actions@[j].title@);
}

/// A menu with no plugin entries is exactly its base items: no separator
/// is left dangling at its end.
pub proof fn law_no_plugin_section_without_entries(
    kind: ContextMenuKind,
    groups: Seq<Seq<char>>,
    view_mode: ViewMode,
    assembly: Seq<Seq<char>>,
    custom: Seq<Seq<char>>,
)
    ensures
        menu_items(kind, groups, view_mode, assembly, custom, Seq::empty())
            == base_items(kind, groups, view_mode, assembly, custom),
{
    assert(menu_items(kind, groups, view_mode, assembly, custom, Seq::empty())
        =~= base_items(kind, groups, view_mode, assembly, custom));
}

/// Strictly increasing, hence duplicate-free.
pub open spec fn sorted_distinct(s: Seq<Seq<char>>) -> bool {
    forall|i: int, j: int| 0 <= i < j < s.len() ==> seq_lt(#[trigger] s[i], #[trigger] s[j])
}

/// A sorted distinct sequence is determined by its set of elements.
proof fn lemma_sorted_distinct_unique(a: Seq<Seq<char>>, b: Seq<Seq<char>>)
    requires
        sorted_distinct(a),
        sorted_distinct(b),
        a.to_set() == b.to_set(),
    ensures
        a == b,
    decreases a.len(),
{
    if a.len() == 0 {
        if b.len() > 0 {
            assert(b.to_set().contains(b[0]));
            assert(!a.to_set().contains(b[0]));
        }
        assert(a =~= b);
        return;
    }
    if b.len() == 0 {
        assert(a.to_set().contains(a[0]));
        assert(false);
    }
    assert(a.to_set().contains(a[0]));
    assert(b.to_set().contains(b[0]));
    let ka = choose|k: int| 0 <= k < b.len() && b[k] == a[0];
    let kb = choose|k: int| 0 <= k < a.len() && a[k] == b[0];
    lemma_seq_lt_strict_total(a[0], b[0], a[0]);
    if ka > 0 {
        assert(seq_lt(b[0], b[ka]));
        if kb > 0 {
            assert(seq_lt(a[0], a[kb]));
        }
    }
    if kb > 0 && ka == 0 {
        assert(seq_lt(a[0], a[kb]));
    }
    assert(a[0] == b[0]);
    let a1 = a.drop_first();
    let b1 = b.drop_first();
    assert forall|x: Seq<char>| a1.to_set().contains(x) implies b1.to_set().contains(x) by {
        let i = choose|i: int| 0 <= i < a1.len() && a1[i] == x;
        assert(a[i + 1] == x);
        assert(a.to_set().contains(x));
        let j = choose|j: int| 0 <= j < b.len() && b[j] == x;
        lemma_seq_lt_strict_total(a[0], x, x);
        assert(seq_lt(a[0], a[i + 1]));
        if j == 0 {
            assert(false);
        }
        assert(b1[j - 1] == x);
    }
    assert forall|x: Seq<char>| b1.to_set().contains(x) implies a1.to_set().contains(x) by {
        let i = choose|i: int| 0 <= i < b1.len() && b1[i] == x;
        assert(b[i + 1] == x);
        assert(b.to_set().contains(x));
        let j = choose|j: int| 0 <= j < a.len() && a[j] == x;
        lemma_seq_lt_strict_total(b[0], x, x);
        assert(seq_lt(b[0], b[i + 1]));
        if j == 0 {
            assert(false);
        }
        assert(a1[j - 1] == x);
    }
    assert(a1.to_set() =~= b1.to_set());
    lemma_sorted_distinct_unique(a1, b1);
    assert(a =~= seq![a[0]] + a1);
    assert(b =~= seq![b[0]] + b1);
}

/// The workspaces' visual group names, sorted and without repeats.
pub open spec fn sorted_groups(ws: Seq<Workspace>) -> Seq<Seq<char>> {
    choose|g: Seq<Seq<char>>| sorted_distinct(g) && g.to_set() == group_set(ws)
}

/// Inserts `g` into the sorted distinct list `v`, keeping it so.
fn insert_sorted(v: &mut Vec<String>, g: &str)
    requires
        sorted_distinct(views(old(v)@)),
    ensures
        sorted_distinct(views(final(v)@)),
        views(final(v)@).to_set() == views(old(v)@).to_set().insert(g@),
{
    let ghost s = views(v@);
    let mut p: usize = 0;
    while p < v.len() && str_lt(v[p].as_str(), g)
        invariant
            p <= v.len(),
            s == views(v@),
            sorted_distinct(s),
            forall|k: int| 0 <= k < p ==> seq_lt(#[trigger] s[k], g@),
        decreases v.len() - p,
    {
        p = p + 1;
    }
    if p < v.len() && str_eq(v[p].as_str(), g) {
        proof {
            assert(s[p as int] == g@);
            assert(s.to_set().contains(g@));
            assert(s.to_set().insert(g@) =~= s.to_set());
        }
        return;
    }
    v.insert(p, owned(g));
    proof {
        let t = views(v@);
        assert(t =~= s.subrange(0, p as int).push(g@) + s.subrange(p as int, s.len() as int));
        if p < s.len() {
            lemma_seq_lt_strict_total(s[p as int], g@, g@);
            assert(seq_lt(g@, s[p as int]));
        }
        assert forall|i: int, j: int| 0 <= i < j < t.len() implies seq_lt(#[trigger] t[i], #[trigger] t[j]) by {
            if i < p && j > p {
                assert(t[j] == s[j - 1]);
                lemma_seq_lt_strict_total(s[i], g@, s[j - 1]);
                if j - 1 > p {
                    lemma_seq_lt_strict_total(g@, s[p as int], s[j - 1]);
                }
            } else if i == p && j > p {
                assert(t[j] == s[j - 1]);
                if j - 1 > p {
                    lemma_seq_lt_strict_total(g@, s[p as int], s[j - 1]);
                }
            } else if i > p {
                assert(t[i] == s[i - 1]);
                assert(t[j] == s[j - 1]);
            }
        }
        assert forall|x: Seq<char>| t.to_set().contains(x) <==> s.to_set().insert(g@).contains(x) by {
            if t.to_set().contains(x) {
                let k = choose|k: int| 0 <= k < t.len() && t[k] == x;
                if k < p {
                    assert(s[k] == x);
                } else if k > p {
                    assert(s[k - 1] == x);
                }
            }
            if s.to_set().contains(x) {
                let k = choose|k: int| 0 <= k < s.len() && s[k] == x;
                if k < p {
                    assert(t[k] == x);
                } else {
                    assert(t[k + 1] == x);
                }
            }
            if x == g@ {
                assert(t[p as int] == x);
            }
        }
        assert(t.to_set() =~= s.to_set().insert(g@));
    }
}

/// The distinct visual groups of `workspaces`, sorted.
pub fn collect_groups(workspaces: &[Workspace]) -> (r: Vec<String>)
    ensures
        views(r@) == sorted_groups(workspaces@),
{
    let mut v: Vec<String> = Vec::new();
    let mut i: usize = 0;
    proof {
        assert(views(v@).to_set() =~= Set::<Seq<char>>::empty());
    }
    while i < workspaces.len()
        invariant
            i <= workspaces.len(),
            sorted_distinct(views(v@)),
            views(v@).to_set() == group_set(workspaces@.take(i as int)),
        decreases workspaces.len() - i,
    {
        let ghost before = views(v@);
        if let Some(g) = &workspaces[i].visual_group {
            insert_sorted(&mut v, g.as_str());
            assert(in_group(workspaces@[i as int], g@));
            assert(forall|x: Seq<char>| in_group(workspaces@[i as int], x) ==> x == g@);
        } else {
            assert(forall|x: Seq<char>| !in_group(workspaces@[i as int], x));
        }
        proof {
            let w = workspaces@.take(i + 1);
            let w0 = workspaces@.take(i as int);
            assert forall|x: Seq<char>| group_set(w).contains(x) <==> views(v@).to_set().contains(x) by {
                if views(v@).to_set().contains(x) && !before.to_set().contains(x) {
                    assert(in_group(w[i as int], x));
                }
                if group_set(w).contains(x) {
                    let k = choose|k: int| 0 <= k < w.len() && in_group(w[k], x);
                    if k < i {
                        assert(w0[k] == w[k]);
                        assert(group_set(w0).contains(x));
                    }
                }
                if before.contains(x) {
                    assert(group_set(w0).contains(x));
                    let k = choose|k: int| 0 <= k < w0.len() && in_group(w0[k], x);
                    assert(w[k] == w0[k]);
                }
            }
            assert(views(v@).to_set() =~= group_set(w));
        }
        i = i + 1;
    }
    proof {
        assert(workspaces@.take(i as int) =~= workspaces@);
        lemma_sorted_distinct_unique(views(v@), sorted_groups(workspaces@));
    }
    v
}

fn push_all(v: &mut Vec<String>, items: &[&str])
    ensures
        views(final(v)@) == views(old(v)@) + items@.map_values(|s: &str| s@),
{
    let ghost before = views(v@);
    let mut i: usize = 0;
    while i < items.len()
        invariant
            i <= items.len(),
            views(v@) == before + items@.take(i as int).map_values(|s: &str| s@),
        decreases items.len() - i,
    {
        push_str(v, items[i]);
        proof {
            assert(items@.take(i + 1).map_values(|s: &str| s@) =~= items@.take(i as int).map_values(|s: &str| s@).push(items@[i as int]@));
        }
        i = i + 1;
    }
    proof {
        assert(items@.take(i as int) =~= items@);
    }
}

fn push_groups_block(v: &mut Vec<String>, groups: &Vec<String>)
    ensures
        views(final(v)@) == views(old(v)@) + groups_block(views(groups@)),
{
    let ghost before = views(v@);
    push_str(v, "New group\u{2026}");
    let mut i: usize = 0;
    while i < groups.len()
        invariant
            i <= groups.len(),
            views(v@) == before + seq!["New group\u{2026}"@] + views(groups@).take(i as int).map_values(|g: Seq<char>| "\u{2192} "@ + g),
        decreases groups.len() - i,
    {
        let item = concat("\u{2192} ", groups[i].as_str());
        let ghost prev = v@;
        v.push(item);
        proof {
            assert(views(v@) =~= views(prev).push(item@));
            assert(views(groups@).take(i + 1).map_values(|g: Seq<char>| "\u{2192} "@ + g) =~= views(groups@).take(i as int).map_values(|g: Seq<char>| "\u{2192} "@ + g).push("\u{2192} "@ + groups@[i as int]@));
        }
        i = i + 1;
    }
    push_str(v, "Remove from group");
    proof {
        assert(views(groups@).take(i as int) =~= views(groups@));
        assert(views(v@) =~= before + groups_block(views(groups@)));
    }
}

fn push_hide_choices(v: &mut Vec<String>, hidden: bool)
    ensures
        views(final(v)@) == views(old(v)@) + hide_choices(hidden),
{
    if hidden {
        push_all(v, &["Unhide"]);
    } else {
        push_all(v, &["Hide 5m", "Hide 10m", "Hide 15m", "Hide 30m"]);
    }
    proof {
        reveal_strlit("Unhide");
    }
    assert(views(final(v)@) =~= views(old(v)@) + hide_choices(hidden));
}

fn push_hide_block(v: &mut Vec<String>, hidden: bool)
    ensures
        views(final(v)@) == views(old(v)@) + hide_block(hidden),
{
    push_str(v, context_menu_separator());
    push_hide_choices(v, hidden);
    assert(views(final(v)@) =~= views(old(v)@) + hide_block(hidden));
}

fn push_organize(v: &mut Vec<String>, view_mode: ViewMode, assembly: &[String], workspaces: &[Workspace])
    ensures
        views(final(v)@) == views(old(v)@) + organize_block(view_mode, views(assembly@), sorted_groups(workspaces@)),
{
    if view_mode == ViewMode::Project {
        extend_strs(v, assembly);
    } else {
        let groups = collect_groups(workspaces);
        push_groups_block(v, &groups);
    }
}

fn push_custom(v: &mut Vec<String>, custom: &[String])
    ensures
        views(final(v)@) == views(old(v)@) + custom_block(views(custom@)),
{
    if custom.len() > 0 {
        push_str(v, context_menu_separator());
        extend_strs(v, custom);
        assert(views(final(v)@) =~= views(old(v)@) + custom_block(views(custom@)));
    } else {
        assert(views(final(v)@) =~= views(old(v)@) + custom_block(views(custom@)));
    }
}

fn workspace_menu(
    kind: &ContextMenuKind,
    hidden: bool,
    workspaces: &[Workspace],
    view_mode: ViewMode,
    assembly: &[String],
    custom: &[String],
) -> (r: Vec<String>)
    requires
        kind is Workspace || kind is GitWorkspace,
        match *kind {
            ContextMenuKind::Workspace { hidden: h, .. } => h == hidden,
            ContextMenuKind::GitWorkspace { hidden: h, .. } => h == hidden,
            _ => false,
        },
    ensures
        views(r@) == base_items(*kind, sorted_groups(workspaces@), view_mode, views(assembly@), views(custom@)),
{
    let mut v: Vec<String> = Vec::new();
    let sep = context_menu_separator();
    match kind {
        ContextMenuKind::GitWorkspace { is_linked_worktree: true, .. } => {
            push_all(&mut v, &["Rename", "Copy path", sep, "Merge to main", "Open PR", "Sync", "Refresh status", sep]);
        },
        ContextMenuKind::GitWorkspace { has_worktree_children: true, collapsed, .. } => {
            let fold = if *collapsed { "Expand" } else { "Collapse" };
            push_all(&mut v, &["Rename", "Copy path", sep, "New worktree", "Open worktree\u{2026}", "Sync", "Refresh status", fold, sep]);
        },
        ContextMenuKind::GitWorkspace { .. } => {
            push_all(&mut v, &["Rename", "Copy path", sep, "New worktree", "Open worktree\u{2026}", "Sync", "Refresh status", sep]);
        },
        _ => {
            push_all(&mut v, &["Rename", "Copy path", "Refresh status", sep]);
        },
    }
    proof {
        assert(views(v@) =~= workspace_lead(*kind));
    }
    push_organize(&mut v, view_mode, assembly, workspaces);
    push_custom(&mut v, custom);
    match kind {
        ContextMenuKind::GitWorkspace { is_linked_worktree: true, .. } => {
            push_all(&mut v, &[sep, "Close", "Delete worktree\u{2026}"]);
        },
        ContextMenuKind::GitWorkspace { has_worktree_children: true, .. } => {
            push_all(&mut v, &[sep, "Close workspace"]);
        },
        _ => {
            push_all(&mut v, &[sep, "Close"]);
        },
    }
    push_hide_block(&mut v, hidden);
    proof {
        let g = sorted_groups(workspaces@);
        let a = views(assembly@);
        let c = views(custom@);
        assert(views(v@) =~= workspace_lead(*kind) + organize_block(view_mode, a, g) + custom_block(c) + workspace_close(*kind) + hide_block(hidden));
    }
    v
}

/// The items of a right-click menu of `kind`: the kind's own items, then,
/// behind a separator, every plugin action offered in the kind's context.
/// Workspace menus list the Project-view assembly items in the Project view
/// and the visual group actions (one `→ <group>` per distinct group, sorted)
/// otherwise; the repo's custom commands follow behind a separator.
pub fn build_context_menu_items(
    kind: &ContextMenuKind,
    workspaces: &[Workspace],
    view_mode: ViewMode,
    assembly_items: &[String],
    custom_commands: &[String],
    installed_plugins: &InstalledPluginRegistry,
) -> (r: Vec<String>)
    ensures
        views(r@) == menu_items(
            *kind,
            sorted_groups(workspaces@),
            view_mode,
            views(assembly_items@),
            views(custom_commands@),
            plugin_titles(*kind, *installed_plugins),
        ),
{
    let sep = context_menu_separator();
    let mut v: Vec<String> = match kind {
        ContextMenuKind::Workspace { hidden, .. } => workspace_menu(kind, *hidden, workspaces, view_mode, assembly_items, custom_commands),
        ContextMenuKind::GitWorkspace { hidden, .. } => workspace_menu(kind, *hidden, workspaces, view_mode, assembly_items, custom_commands),
        ContextMenuKind::GroupHeader { hidden, .. } => {
            let mut v: Vec<String> = Vec::new();
            push_hide_choices(&mut v, *hidden);
            v
        },
        ContextMenuKind::ProjectHeader { hidden, .. } => {
            let mut v = crate::text::clone_strs(assembly_items);
            push_hide_block(&mut v, *hidden);
            v
        },
        ContextMenuKind::ProjectOrphanPicker { .. } | ContextMenuKind::ProjectMemberTargets { .. } => {
            crate::text::clone_strs(assembly_items)
        },
        ContextMenuKind::Tab { .. } => {
            let mut v: Vec<String> = Vec::new();
            push_all(&mut v, &["New tab", "Rename", "Close"]);
            v
        },
        ContextMenuKind::Pane { has_manual_label, source_pane_id, right_click_passthrough, .. } => {
            let mut v: Vec<String> = Vec::new();
            push_str(&mut v, "Rename pane");
            if *has_manual_label {
                push_str(&mut v, "Clear pane name");
            }
            if source_pane_id.is_some() {
                push_str(&mut v, "Swap with focused pane");
            }
            let route = if *right_click_passthrough { "Use Herdr right-click menu" } else { "Send right-clicks to pane" };
            push_all(&mut v, &["Split right", "Split down", "Zoom", route, "Copy pane ID", "Close pane"]);
            proof {
                assert(views(v@) =~= pane_items(*has_manual_label, source_pane_id is Some, *right_click_passthrough));
            }
            v
        },
        ContextMenuKind::RepoPr { .. } => {
            let mut v: Vec<String> = Vec::new();
            push_all(&mut v, &["Open in worktree", sep, "Open in browser", "Copy URL"]);
            v
        },
        ContextMenuKind::RepoIssue { flow_available, .. } => {
            let mut v: Vec<String> = Vec::new();
            if *flow_available {
                push_all(&mut v, &["Run with bora-flow", sep]);
            }
            push_all(&mut v, &["Open in browser", "Copy URL"]);
            v
        },
    };
    proof {
        assert(views(v@) =~= base_items(
            *kind,
            sorted_groups(workspaces@),
            view_mode,
            views(assembly_items@),
            views(custom_commands@),
        ));
    }
    let titles = plugin_menu_titles(kind, installed_plugins);
    if titles.len() > 0 {
        push_str(&mut v, sep);
        extend_strs(&mut v, titles.as_slice());
    }
    proof {
        assert(views(v@) =~= menu_items(
            *kind,
            sorted_groups(workspaces@),
            view_mode,
            views(assembly_items@),
            views(custom_commands@),
            plugin_titles(*kind, *installed_plugins),
        ));
    }
    v
}

} // verus!
