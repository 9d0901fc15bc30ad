//! UI state: modes, panels, pickers and the modal states of the worktree
//! dialogs, with the list navigation each one does.

use vstd::prelude::*;
use crate::text::{owned, concat, str_eq, trim, trim_str, str_is_blank, is_blank, to_lowercase, char_string,
    lowercase, matches_query, text_matches_query, views};
use crate::menus::PaneId;
use crate::workspace::{WorktreeSpaceMembership, clone_membership};
use crate::bora_config::BoraCommandMode;

verus! {

broadcast use vstd::string::group_string_axioms;

/// What the keyboard currently drives.
#[derive(Debug, Clone, Copy, PartialEq, Eq, Structural)]
pub enum Mode {
    Onboarding,
    ReleaseNotes,
    ProductAnnouncement,
    Navigate,
    Prefix,
    Copy,
    Terminal,
    RenameWorkspace,
    RenameTab,
    RenamePane,
    SetWorkspaceGroup,
    ProjectNameInput,
    NewLinkedWorktree,
    OpenExistingWorktree,
    ConfirmRemoveWorktree,
    Resize,
    ConfirmClose,
    ContextMenu,
    Settings,
    GlobalMenu,
    KeybindHelp,
    Navigator,
    Chat,
}

impl Mode {
    /// Modes whose view follows the pointer: the menus and the navigator.
    pub open spec fn spec_mouse_motion_changes_view(self) -> bool {
        self == Mode::GlobalMenu || self == Mode::ContextMenu || self == Mode::Navigator
    }

    pub fn mouse_motion_changes_view(self) -> (r: bool)
        ensures
            r == self.spec_mouse_motion_changes_view(),
    {
        matches!(self, Mode::GlobalMenu | Mode::ContextMenu | Mode::Navigator)
    }

    /// Command and navigation modes, which want an ASCII input source; every
    /// other mode leaves the input method alone.
    pub open spec fn spec_wants_ascii_input(self) -> bool {
        ||| self == Mode::Prefix
        ||| self == Mode::Navigate
        ||| self == Mode::Navigator
        ||| self == Mode::Copy
        ||| self == Mode::Resize
        ||| self == Mode::ConfirmClose
        ||| self == Mode::ConfirmRemoveWorktree
        ||| self == Mode::ContextMenu
        ||| self == Mode::GlobalMenu
        ||| self == Mode::KeybindHelp
    }

    pub fn wants_ascii_input(self) -> (r: bool)
        ensures
            r == self.spec_wants_ascii_input(),
    {
        matches!(
            self,
            Mode::Prefix | Mode::Navigate | Mode::Navigator | Mode::Copy | Mode::Resize
                | Mode::ConfirmClose | Mode::ConfirmRemoveWorktree | Mode::ContextMenu
                | Mode::GlobalMenu | Mode::KeybindHelp
        )
    }
}

/// Desktop or narrow-screen layout.
#[derive(Debug, Clone, Copy, PartialEq, Eq, Structural)]
pub enum ViewLayout {
    Desktop,
    Mobile,
}

/// Tab of the right panel.
#[derive(Debug, Clone, Copy, PartialEq, Eq, Default)]
pub enum RightPanelTab {
    #[default]
    Changes,
    Checks,
    Issues,
    PullRequests,
}

/// Order of the agent panel.
#[derive(Debug, Clone, Copy, PartialEq, Eq, Default)]
pub enum AgentPanelSort {
    #[default]
    Spaces,
    Priority,
}

/// Where the sidebar width came from.
#[derive(Debug, Clone, Copy, PartialEq, Eq)]
pub enum SidebarWidthSource {
    ConfigDefault,
    Persisted,
    Manual,
}

/// The sidebar width and the bounds it is held to.
#[derive(Debug, Clone, Copy, PartialEq, Eq, Structural)]
pub struct SidebarWidths {
    /// The width the sidebar is drawn at.
    pub width: u16,
    /// The width the config asks for.
    pub default_width: u16,
    pub min_width: u16,
    pub max_width: u16,
}

/// The bounds a session starts with: the configured ones, or 18 to 36 when
/// the configured minimum is greater than the maximum.
pub fn startup_sidebar_bounds(min_width: u16, max_width: u16) -> (r: (u16, u16))
    ensures
        r == if min_width <= max_width { (min_width, max_width) } else { (18u16, 36u16) },
{
    if min_width <= max_width {
        (min_width, max_width)
    } else {
        (18, 36)
    }
}

/// `w` clamped to `lo..=hi`.
pub open spec fn clamp_width(w: u16, lo: u16, hi: u16) -> u16 {
    if w < lo { lo } else if w > hi { hi } else { w }
}

/// The message a reload gives for configured bounds whose minimum is
/// greater than the maximum.
pub open spec fn sidebar_bounds_diagnostic(min_width: u16, max_width: u16) -> Seq<char> {
    "ui.sidebar_min_width ("@ + crate::github::decimal(min_width as nat)
        + ") is greater than sidebar_max_width ("@ + crate::github::decimal(max_width as nat)
        + "); keeping previous [ui] settings"@
}

/// The sidebar widths after a live reload of a valid `[ui]` section: the
/// new default and bounds, the width taken from the new default when the
/// config owns it, then clamped to the new bounds whoever owns it.
/// Configured bounds whose minimum is greater than the maximum reject the
/// whole section with a diagnostic, and the current settings stay.
pub fn live_sidebar_widths(
    current: SidebarWidths,
    source: SidebarWidthSource,
    new_default: u16,
    new_min: u16,
    new_max: u16,
) -> (r: Result<SidebarWidths, String>)
    ensures
        new_min > new_max <==> r is Err,
        r matches Err(msg) ==> msg@ == sidebar_bounds_diagnostic(new_min, new_max),
        r matches Ok(w) ==> w == (SidebarWidths {
            width: clamp_width(
                if source == SidebarWidthSource::ConfigDefault { new_default } else { current.width },
                new_min,
                new_max,
            ),
            default_width: new_default,
            min_width: new_min,
            max_width: new_max,
        }),
{
    if new_min > new_max {
        let a = concat("ui.sidebar_min_width (", crate::github::decimal_string(new_min as u64).as_str());
        let b = concat(a.as_str(), ") is greater than sidebar_max_width (");
        let c = concat(b.as_str(), crate::github::decimal_string(new_max as u64).as_str());
        let msg = concat(c.as_str(), "); keeping previous [ui] settings");
        return Err(msg);
    }
    let width = match source {
        SidebarWidthSource::ConfigDefault => new_default,
        _ => current.width,
    };
    let width = if width < new_min { new_min } else if width > new_max { new_max } else { width };
    Ok(SidebarWidths { width, default_width: new_default, min_width: new_min, max_width: new_max })
}

/// A segment at the right end of the tab bar.
#[derive(Debug, Clone, PartialEq, Eq)]
pub enum TabBarStatusSegment {
    Zoom,
    Text(Option<String>),
}

/// Section of the settings panel.
#[derive(Debug, Clone, Copy, PartialEq, Eq, Structural)]
pub enum SettingsSection {
    Theme,
    Indicators,
    Sound,
    Toast,
    PaneLabels,
    Sidebar,
    Integrations,
}

impl SettingsSection {
    pub open spec fn spec_label(self) -> Seq<char> {
        match self {
            SettingsSection::Theme => "theme"@,
            SettingsSection::Indicators => "indicators"@,
            SettingsSection::Sound => "sound"@,
            SettingsSection::Toast => "toasts"@,
            SettingsSection::PaneLabels => "pane labels"@,
            SettingsSection::Sidebar => "sidebar"@,
            SettingsSection::Integrations => "integrations"@,
        }
    }

    /// The section's tab label.
    pub fn label(self) -> (r: &'static str)
        ensures
            r@ == self.spec_label(),
    {
        match self {
            SettingsSection::Theme => "theme",
            SettingsSection::Indicators => "indicators",
            SettingsSection::Sound => "sound",
            SettingsSection::Toast => "toasts",
            SettingsSection::PaneLabels => "pane labels",
            SettingsSection::Sidebar => "sidebar",
            SettingsSection::Integrations => "integrations",
        }
    }
}

/// What the project-name modal writes on confirm.
#[derive(Debug, Clone, PartialEq, Eq)]
pub enum ProjectNameTarget {
    /// Rename the existing project `slug`.
    Rename { slug: String },
    /// Create a project, with `member_dir` as its first member when given.
    New { member_dir: Option<String> },
}

/// What a Project-view row does when clicked.
#[derive(Debug, Clone, PartialEq, Eq)]
pub enum ProjectRowTarget {
    Project { collapse_key: String },
    OpenWorktree { checkout_key: String },
    Band { collapse_key: String },
    Section { ws_idx: usize, checkout_key: String, collapse_key: String },
    SectionNew { repo_identity: String, branch: String },
    /// A row inside a band; `kind` names the band.
    SectionItem { kind: String, label: String, ws_idx: Option<usize> },
    Pane { ws_idx: usize, pane_id: String },
    OpenPr { ws_idx: usize, number: u64 },
}

/// A request to run the flow command for a GitHub issue.
#[derive(Debug, Clone, PartialEq, Eq)]
pub struct FlowRunRequest {
    pub number: u64,
    pub url: String,
}

/// A repo command waiting to be launched.
#[derive(Debug, Clone)]
pub struct PendingBoraCommand {
    pub ws_idx: usize,
    pub command: String,
    pub mode: BoraCommandMode,
    pub port: Option<u16>,
    /// Label of the command, for tagging the pane it opens.
    pub label: Option<String>,
}

#[derive(Debug, Clone, Copy, PartialEq, Eq)]
pub enum ToastKind {
    NeedsAttention,
    Finished,
    UpdateInstalled,
}

/// The pane a toast leads to.
#[derive(Debug, Clone, PartialEq, Eq)]
pub struct ToastTarget {
    pub workspace_id: String,
    pub pane_id: PaneId,
}

/// A toast on screen.
#[derive(Debug, Clone, PartialEq, Eq)]
pub struct ToastNotification {
    pub kind: ToastKind,
    pub title: String,
    pub context: String,
    /// Configured corner of the toast, by name.
    pub position: Option<String>,
    pub target: Option<ToastTarget>,
}

#[derive(Debug, Clone, PartialEq, Eq)]
pub struct CopyFeedback {
    pub message: String,
}

pub struct ReleaseNotesState {
    pub version: String,
    pub body: String,
    pub scroll: u16,
    pub preview: bool,
}

pub struct ProductAnnouncementState {
    pub version: String,
    pub id: String,
    pub title: String,
    pub body: String,
    pub scroll: u16,
    pub preview: bool,
}

#[derive(Default)]
pub struct KeybindHelpState {
    pub scroll: u16,
    pub query: String,
    pub search_focused: bool,
}

/// A running agent pane that could join a chat channel.
#[derive(Debug, Clone, PartialEq, Eq)]
pub struct ChatMemberCandidate {
    pub pane_id: String,
    pub name: String,
    pub cwd: Option<String>,
    pub status: String,
}

/// Modal sub-mode of the chat view.
#[derive(Debug, Clone, PartialEq, Eq)]
pub enum ChatPrompt {
    NewChannel { input: String },
    AddMember { query: String, selected: usize, candidates: Vec<ChatMemberCandidate> },
}

/// Tab of the create-worktree modal.
#[derive(Debug, Clone, Copy, PartialEq, Eq, Default, Structural)]
pub enum WorktreeCreateTab {
    #[default]
    Github,
    Branch,
    Name,
}

/// The tab after `tab` (GitHub → Branch → Name → GitHub), or before it.
pub open spec fn cycled_tab(tab: WorktreeCreateTab, forward: bool) -> WorktreeCreateTab {
    match (tab, forward) {
        (WorktreeCreateTab::Github, true) => WorktreeCreateTab::Branch,
        (WorktreeCreateTab::Branch, true) => WorktreeCreateTab::Name,
        (WorktreeCreateTab::Name, true) => WorktreeCreateTab::Github,
        (WorktreeCreateTab::Github, false) => WorktreeCreateTab::Name,
        (WorktreeCreateTab::Branch, false) => WorktreeCreateTab::Github,
        (WorktreeCreateTab::Name, false) => WorktreeCreateTab::Branch,
    }
}

pub fn cycle_tab(tab: WorktreeCreateTab, forward: bool) -> (r: WorktreeCreateTab)
    ensures
        r == cycled_tab(tab, forward),
{
    match (tab, forward) {
        (WorktreeCreateTab::Github, true) => WorktreeCreateTab::Branch,
        (WorktreeCreateTab::Branch, true) => WorktreeCreateTab::Name,
        (WorktreeCreateTab::Name, true) => WorktreeCreateTab::Github,
        (WorktreeCreateTab::Github, false) => WorktreeCreateTab::Name,
        (WorktreeCreateTab::Branch, false) => WorktreeCreateTab::Github,
        (WorktreeCreateTab::Name, false) => WorktreeCreateTab::Branch,
    }
}

/// Cycling forward then back (or back then forward) returns to the tab one
/// started on, and three steps in one direction come full circle.
pub proof fn law_tab_cycle(tab: WorktreeCreateTab)
    ensures
        cycled_tab(cycled_tab(tab, true), false) == tab,
        cycled_tab(cycled_tab(tab, false), true) == tab,
        cycled_tab(cycled_tab(cycled_tab(tab, true), true), true) == tab,
{
}

/// Query and cursor of one of the create-worktree modal's lists.
#[derive(Debug, Clone, Default, PartialEq, Eq)]
pub struct WorktreeListPick {
    pub query: String,
    pub selected: usize,
}

impl WorktreeListPick {
    /// Types `ch` into the query, or deletes the last character when `None`;
    /// the cursor goes back to the top.
    pub fn edit_query(&mut self, ch: Option<char>)
        ensures
            final(self).query@ == match ch {
                Some(c) => old(self).query@.push(c),
                None => if old(self).query@.len() == 0 {
                    old(self).query@
                } else {
                    old(self).query@.drop_last()
                },
            },
            final(self).selected == 0,
    {
        match ch {
            Some(c) => {
                let s = char_string(c);
                self.query.append(s.as_str());
            },
            None => {
                let n = self.query.as_str().unicode_len();
                if n > 0 {
                    let shorter = self.query.as_str().substring_char(0, n - 1).to_owned();
                    self.query = shorter;
                }
            },
        }
        self.selected = 0;
        proof {
            assert(ch is Some ==> self.query@ =~= old(self).query@.push(ch->0));
            assert(ch is None && old(self).query@.len() > 0 ==> self.query@ =~= old(self).query@.drop_last());
        }
    }

    /// Moves the cursor within a list of `len` entries, clamped to it.
    pub fn move_selection(&mut self, len: usize, down: bool)
        ensures
            final(self).query == old(self).query,
            final(self).selected == if len == 0 {
                0
            } else if down {
                crate::lists::clamp_next(old(self).selected as int, len as int)
            } else if old(self).selected == 0 {
                0
            } else {
                old(self).selected - 1
            },
    {
        if len == 0 {
            self.selected = 0;
        } else if down {
            let next = if self.selected < usize::MAX { self.selected + 1 } else { usize::MAX };
            self.selected = if next < len - 1 { next } else { len - 1 };
        } else {
            self.selected = self.selected.saturating_sub(1);
        }
    }
}

/// The create-worktree modal.
#[derive(Debug, Clone, PartialEq, Eq)]
pub struct WorktreeCreateState {
    pub source_workspace_id: String,
    pub source_checkout_path: String,
    pub source_existing_membership: Option<WorktreeSpaceMembership>,
    pub source_repo_root: String,
    pub repo_key: String,
    pub repo_name: String,
    pub branch: String,
    pub checkout_path: String,
    pub error: Option<String>,
    pub creating: bool,
    pub active_tab: WorktreeCreateTab,
    pub repo_identity: String,
    pub github_pick: WorktreeListPick,
    pub branch_pick: WorktreeListPick,
}

impl WorktreeCreateState {
    /// Switches to the next tab, or the previous one.
    pub fn cycle_tab(&mut self, forward: bool)
        ensures
            final(self).active_tab == cycled_tab(old(self).active_tab, forward),
            *final(self) == (WorktreeCreateState { active_tab: final(self).active_tab, ..*old(self) }),
    {
        self.active_tab = cycle_tab(self.active_tab, forward);
    }
}

/// Whether a GitHub pick is a pull request or an issue.
#[derive(Debug, Clone, Copy, PartialEq, Eq, Structural)]
pub enum GithubPickKind {
    Pr,
    Issue,
}

/// A row of the create-worktree modal's GitHub tab.
#[derive(Debug, Clone, PartialEq, Eq)]
pub struct GithubPickEntry {
    pub kind: GithubPickKind,
    pub number: u64,
    pub title: String,
    pub url: String,
    pub head_ref: Option<String>,
    pub enabled: bool,
}

/// The remove-worktree confirmation.
#[derive(Debug, Clone, PartialEq, Eq)]
pub struct WorktreeRemoveState {
    pub workspace_id: String,
    pub repo_root: String,
    pub path: String,
    pub error: Option<String>,
    pub removing: bool,
    pub force_confirmation: bool,
    pub branch: Option<String>,
}

/// Last component of a path, as `Path::file_name` gives it (`None` for a
/// path ending in `..` or with no component).
pub uninterp spec fn path_file_name(path: Seq<char>) -> Option<Seq<char>>;

/// Calls `Path::file_name` on `path`; the result is what that function
/// returns, and nothing more is claimed of it.
#[verifier::external_body]
pub(crate) fn file_name(path: &str) -> (r: Option<String>)
    ensures
        match r {
            Some(n) => path_file_name(path@) == Some(n@),
            None => path_file_name(path@) is None,
        },
{
    std::path::Path::new(path).file_name().map(|n| n.to_string_lossy().into_owned())
}

/// An existing worktree offered by the open-worktree dialog.
#[derive(Debug, Clone, PartialEq, Eq)]
pub struct WorktreeOpenEntry {
    pub path: String,
    pub branch: Option<String>,
    pub is_linked_worktree: bool,
    pub already_open_ws_idx: Option<usize>,
}

impl WorktreeOpenEntry {
    /// The branch, or the path's last component, or the whole path.
    pub open spec fn spec_display_name(self) -> Seq<char> {
        match self.branch {
            Some(b) => b@,
            None => match path_file_name(self.path@) {
                Some(n) => n,
                None => self.path@,
            },
        }
    }

    pub fn display_name(&self) -> (r: String)
        ensures
            r@ == self.spec_display_name(),
    {
        match &self.branch {
            Some(b) => owned(b.as_str()),
            None => match file_name(self.path.as_str()) {
                Some(n) => n,
                None => owned(self.path.as_str()),
            },
        }
    }

    /// `open` when a workspace shows it already, nothing for a branch,
    /// `detached` for a linked worktree without one, `root` otherwise.
    pub open spec fn spec_status_label(self) -> Seq<char> {
        if self.already_open_ws_idx is Some {
            "open"@
        } else if self.branch is Some {
            ""@
        } else if self.is_linked_worktree {
            "detached"@
        } else {
            "root"@
        }
    }

    pub fn status_label(&self) -> (r: &'static str)
        ensures
            r@ == self.spec_status_label(),
    {
        if self.already_open_ws_idx.is_some() {
            "open"
        } else if self.branch.is_some() {
            ""
        } else if self.is_linked_worktree {
            "detached"
        } else {
            "root"
        }
    }

    /// Lowercased `<display name> <file name> <path> <status>`.
    pub open spec fn spec_search_text(self) -> Seq<char> {
        lowercase(self.spec_display_name() + " "@ + match path_file_name(self.path@) {
            Some(n) => n,
            None => ""@,
        } + " "@ + self.path@ + " "@ + self.spec_status_label())
    }

    pub fn search_text(&self) -> (r: String)
        ensures
            r@ == self.spec_search_text(),
    {
        let name = self.display_name();
        let file = match file_name(self.path.as_str()) {
            Some(n) => n,
            None => owned(""),
        };
        let mut text = concat(name.as_str(), " ");
        text.append(file.as_str());
        text.append(" ");
        text.append(self.path.as_str());
        text.append(" ");
        text.append(self.status_label());
        proof {
            reveal_strlit("");
        }
        assert(text@ =~= self.spec_display_name() + " "@ + match path_file_name(self.path@) {
            Some(n) => n,
            None => ""@,
        } + " "@ + self.path@ + " "@ + self.spec_status_label());
        to_lowercase(text.as_str())
    }

    pub fn matches_query(&self, query: &str) -> (r: bool)
        ensures
            r == matches_query(query@, self.spec_search_text()),
    {
        let text = self.search_text();
        text_matches_query(query, text.as_str())
    }
}

/// An entry is shown by its branch whenever it has one; only an entry
/// without a branch falls back to the last component of its path, and to
/// the whole path when that has none.
pub proof fn law_entries_are_named_by_their_branch(e: WorktreeOpenEntry)
    ensures
        e.branch is Some ==> e.spec_display_name() == e.branch.unwrap()@,
        e.branch is None && path_file_name(e.path@) is Some ==> e.spec_display_name() == path_file_name(e.path@).unwrap(),
        e.branch is None && path_file_name(e.path@) is None ==> e.spec_display_name() == e.path@,
{
}

/// The open-worktree dialog.
#[derive(Debug, Clone, PartialEq, Eq)]
pub struct WorktreeOpenState {
    pub source_workspace_id: String,
    pub source_existing_membership: Option<WorktreeSpaceMembership>,
    pub source_checkout_path: String,
    pub source_repo_root: String,
    pub repo_key: String,
    pub repo_name: String,
    pub entries: Vec<WorktreeOpenEntry>,
    pub selected: usize,
    pub query: String,
    pub search_focused: bool,
    pub error: Option<String>,
}

/// Entry `e` passes the dialog's query: a blank query passes everything,
/// otherwise the trimmed query must match the entry's search text.
pub open spec fn entry_passes(e: WorktreeOpenEntry, query: Seq<char>) -> bool {
    is_blank(query) || matches_query(trim(query), e.spec_search_text())
}

/// Indices of the entries among the first `n` that pass `query`, in order.
pub open spec fn passing_upto(es: Seq<WorktreeOpenEntry>, query: Seq<char>, n: int) -> Seq<usize>
    decreases n,
{
    if n <= 0 {
        Seq::empty()
    } else if entry_passes(es[n - 1], query) {
        passing_upto(es, query, n - 1).push((n - 1) as usize)
    } else {
        passing_upto(es, query, n - 1)
    }
}

impl WorktreeOpenState {
    /// Indices of the entries that pass the query, in order.
    pub open spec fn spec_filtered(self) -> Seq<usize> {
        passing_upto(self.entries@, self.query@, self.entries@.len() as int)
    }

    pub fn filtered_indices(&self) -> (r: Vec<usize>)
        ensures
            r@ == self.spec_filtered(),
    {
        let query = trim_str(self.query.as_str());
        let blank = str_is_blank(self.query.as_str());
        let mut r: Vec<usize> = Vec::new();
        let mut i: usize = 0;
        while i < self.entries.len()
            invariant
                i <= self.entries.len(),
                query@ == trim(self.query@),
                blank == is_blank(self.query@),
                r@ == passing_upto(self.entries@, self.query@, i as int),
            decreases self.entries.len() - i,
        {
            if blank || self.entries[i].matches_query(query.as_str()) {
                r.push(i);
            }
            i = i + 1;
        }
        r
    }

    /// The selected entry when it passes the query, else the first entry
    /// that does.
    pub open spec fn spec_selected_entry(self) -> Option<usize> {
        let f = self.spec_filtered();
        if f.contains(self.selected) {
            Some(self.selected)
        } else if f.len() > 0 {
            Some(f[0])
        } else {
            None
        }
    }

    /// The state with the selection moved onto a passing entry, when any.
    pub open spec fn spec_normalized(self) -> WorktreeOpenState {
        WorktreeOpenState {
            selected: match self.spec_selected_entry() {
                Some(s) => s,
                None => self.selected,
            },
            ..self
        }
    }

    /// The state with the selection on the previous passing entry.
    pub open spec fn spec_previous(self) -> WorktreeOpenState {
        WorktreeOpenState {
            selected: match self.spec_selected_entry() {
                Some(cur) => {
                    let f = self.spec_filtered();
                    let pos = first_pos(f, cur);
                    f[if pos == 0 { 0 } else { pos - 1 }]
                },
                None => self.selected,
            },
            ..self
        }
    }

    /// The state with the selection on the next passing entry.
    pub open spec fn spec_next(self) -> WorktreeOpenState {
        WorktreeOpenState {
            selected: match self.spec_selected_entry() {
                Some(cur) => {
                    let f = self.spec_filtered();
                    let pos = first_pos(f, cur);
                    f[if pos + 1 < f.len() - 1 { pos + 1 } else { f.len() - 1 }]
                },
                None => self.selected,
            },
            ..self
        }
    }

    pub fn selected_entry_index(&self) -> (r: Option<usize>)
        ensures
            r == self.spec_selected_entry(),
    {
        let indices = self.filtered_indices();
        let mut i: usize = 0;
        while i < indices.len()
            invariant
                i <= indices.len(),
                indices@ == self.spec_filtered(),
                forall|k: int| 0 <= k < i ==> indices@[k] != self.selected,
            decreases indices.len() - i,
        {
            if indices[i] == self.selected {
                assert(indices@.contains(self.selected));
                return Some(self.selected);
            }
            i = i + 1;
        }
        proof {
            assert(!indices@.contains(self.selected));
        }
        if indices.len() > 0 {
            Some(indices[0])
        } else {
            None
        }
    }

    /// Moves the selection onto an entry that passes the query, when any
    /// does.
    pub fn normalize_selection(&mut self)
        ensures
            *final(self) == old(self).spec_normalized(),
    {
        if let Some(selected) = self.selected_entry_index() {
            self.selected = selected;
        }
    }

    /// Moves the selection to the previous passing entry (staying on the
    /// first one).
    pub fn select_previous_filtered(&mut self)
        ensures
            *final(self) == old(self).spec_previous(),
    {
        let indices = self.filtered_indices();
        let current = match self.selected_entry_index() {
            Some(c) => c,
            None => {
                return;
            },
        };
        let pos = position_of(&indices, current);
        let prev = if pos == 0 { 0 } else { pos - 1 };
        self.selected = indices[prev];
    }

    /// Moves the selection to the next passing entry (staying on the last
    /// one).
    pub fn select_next_filtered(&mut self)
        ensures
            *final(self) == old(self).spec_next(),
    {
        let indices = self.filtered_indices();
        let current = match self.selected_entry_index() {
            Some(c) => c,
            None => {
                return;
            },
        };
        let pos = position_of(&indices, current);
        let last = indices.len() - 1;
        let next = if pos + 1 < last { pos + 1 } else { last };
        self.selected = indices[next];
    }
}

fn clone_open_entry(e: &WorktreeOpenEntry) -> (r: WorktreeOpenEntry)
    ensures
        r == *e,
{
    WorktreeOpenEntry {
        path: e.path.clone(),
        branch: match &e.branch {
            Some(b) => Some(b.clone()),
            None => None,
        },
        is_linked_worktree: e.is_linked_worktree,
        already_open_ws_idx: e.already_open_ws_idx,
    }
}

impl WorktreeOpenState {
    /// The membership the source workspace keeps in the repository's
    /// worktree space: the one it had, or one for its checkout as the
    /// repository's main worktree.
    pub fn source_membership(&self) -> (r: WorktreeSpaceMembership)
        ensures
            r == match self.source_existing_membership {
                Some(m) => m,
                None => WorktreeSpaceMembership {
                    key: self.repo_key,
                    label: self.repo_name,
                    repo_root: self.source_repo_root,
                    checkout_path: self.source_checkout_path,
                    is_linked_worktree: false,
                },
            },
    {
        match &self.source_existing_membership {
            Some(m) => clone_membership(m),
            None => WorktreeSpaceMembership {
                key: self.repo_key.clone(),
                label: self.repo_name.clone(),
                repo_root: self.source_repo_root.clone(),
                checkout_path: self.source_checkout_path.clone(),
                is_linked_worktree: false,
            },
        }
    }

    /// The membership of the workspace opened on `entry`'s checkout.
    pub fn opened_membership(&self, entry: &WorktreeOpenEntry) -> (r: WorktreeSpaceMembership)
        ensures
            r == (WorktreeSpaceMembership {
                key: self.repo_key,
                label: self.repo_name,
                repo_root: self.source_repo_root,
                checkout_path: entry.path,
                is_linked_worktree: entry.is_linked_worktree,
            }),
    {
        WorktreeSpaceMembership {
            key: self.repo_key.clone(),
            label: self.repo_name.clone(),
            repo_root: self.source_repo_root.clone(),
            checkout_path: entry.path.clone(),
            is_linked_worktree: entry.is_linked_worktree,
        }
    }

    /// The dialog shown again after no workspace could be opened on entry
    /// `entry_idx`: only that entry, selected, with no query and the error.
    pub fn after_failed_open(&self, entry_idx: usize, err: &str) -> (r: WorktreeOpenState)
        requires
            entry_idx < self.entries@.len(),
        ensures
            r == (WorktreeOpenState {
                entries: r.entries,
                query: r.query,
                error: r.error,
                selected: 0,
                search_focused: false,
                ..*self
            }),
            r.entries@ == seq![self.entries@[entry_idx as int]],
            r.query@.len() == 0,
            r.error matches Some(e) && e@ == "failed to open worktree: "@ + err@,
    {
        let mut entries: Vec<WorktreeOpenEntry> = Vec::new();
        entries.push(clone_open_entry(&self.entries[entry_idx]));
        proof {
            assert(entries@ =~= seq![self.entries@[entry_idx as int]]);
        }
        WorktreeOpenState {
            source_workspace_id: self.source_workspace_id.clone(),
            source_existing_membership: match &self.source_existing_membership {
                Some(m) => Some(clone_membership(m)),
                None => None,
            },
            source_checkout_path: self.source_checkout_path.clone(),
            source_repo_root: self.source_repo_root.clone(),
            repo_key: self.repo_key.clone(),
            repo_name: self.repo_name.clone(),
            entries,
            selected: 0,
            query: String::new(),
            search_focused: false,
            error: Some(concat("failed to open worktree: ", err)),
        }
    }
}

/// A key press in one of the worktree dialogs.
#[derive(Debug, Clone, Copy, PartialEq, Eq, Structural)]
pub enum DialogKey {
    Esc,
    Up,
    Down,
    Enter,
    Backspace,
    Tab,
    BackTab,
    Char(char),
    Other,
}

/// What the open-worktree dialog asks of its host after a key.
#[derive(Debug, Clone, Copy, PartialEq, Eq, Structural)]
pub enum WorktreeOpenAction {
    /// Close the dialog.
    Close,
    /// Open the selected worktree.
    Submit,
    /// Keep the dialog open.
    Stay,
}

/// `c` is a control character (`char::is_control`: categories C0 and C1).
pub open spec fn is_control(c: char) -> bool {
    (c as u32) <= 0x1f || (0x7f <= (c as u32) && (c as u32) <= 0x9f)
}

/// `s` with its last character removed, if it has one.
pub open spec fn popped(s: Seq<char>) -> Seq<char> {
    if s.len() == 0 { s } else { s.drop_last() }
}

impl WorktreeOpenState {
    /// The state after the query became `query`: the selection normalized
    /// against the new query.
    pub open spec fn spec_requeried(self, query: String) -> WorktreeOpenState {
        (WorktreeOpenState { query, ..self }).spec_normalized()
    }

    fn push_query_char(&mut self, c: char)
        ensures
            final(self).query@ == old(self).query@.push(c),
            *final(self) == old(self).spec_requeried(final(self).query),
    {
        let s = char_string(c);
        self.query.append(s.as_str());
        self.normalize_selection();
    }

    fn pop_query_char(&mut self)
        ensures
            final(self).query@ == popped(old(self).query@),
            *final(self) == old(self).spec_requeried(final(self).query),
    {
        let n = self.query.as_str().unicode_len();
        if n > 0 {
            let shorter = self.query.as_str().substring_char(0, n - 1).to_owned();
            self.query = shorter;
            proof {
                assert(self.query@ =~= old(self).query@.drop_last());
            }
        }
        self.normalize_selection();
    }

    /// Handles a key press; `plain` tells whether no modifier but Shift was
    /// held. Esc closes and Enter submits; Up and Down move among the passing
    /// entries; `/` focuses the search field, or types itself once focused;
    /// with the search focused, a plainly typed printable character goes
    /// into the query and Backspace deletes the last one, the selection
    /// following the new query. Any other key does nothing.
    pub fn handle_key(&mut self, key: DialogKey, plain: bool) -> (r: WorktreeOpenAction)
        ensures
            match key {
                DialogKey::Esc => r == WorktreeOpenAction::Close && *final(self) == *old(self),
                DialogKey::Enter => r == WorktreeOpenAction::Submit && *final(self) == *old(self),
                DialogKey::Up => r == WorktreeOpenAction::Stay && *final(self) == old(self).spec_previous(),
                DialogKey::Down => r == WorktreeOpenAction::Stay && *final(self) == old(self).spec_next(),
                DialogKey::Char(c) => r == WorktreeOpenAction::Stay && if c == '/' && !old(self).search_focused {
                    *final(self) == (WorktreeOpenState { search_focused: true, ..*old(self) })
                } else if old(self).search_focused && (c == '/' || (plain && !is_control(c))) {
                    final(self).query@ == old(self).query@.push(c)
                        && *final(self) == old(self).spec_requeried(final(self).query)
                } else {
                    *final(self) == *old(self)
                },
                DialogKey::Backspace => r == WorktreeOpenAction::Stay && if old(self).search_focused {
                    final(self).query@ == popped(old(self).query@)
                        && *final(self) == old(self).spec_requeried(final(self).query)
                } else {
                    *final(self) == *old(self)
                },
                _ => r == WorktreeOpenAction::Stay && *final(self) == *old(self),
            },
    {
        match key {
            DialogKey::Esc => WorktreeOpenAction::Close,
            DialogKey::Enter => WorktreeOpenAction::Submit,
            DialogKey::Up => {
                self.select_previous_filtered();
                WorktreeOpenAction::Stay
            },
            DialogKey::Down => {
                self.select_next_filtered();
                WorktreeOpenAction::Stay
            },
            DialogKey::Char(c) => {
                if c == '/' && !self.search_focused {
                    self.search_focused = true;
                } else if self.search_focused && (c == '/' || (plain && !char_is_control(c))) {
                    self.push_query_char(c);
                }
                WorktreeOpenAction::Stay
            },
            DialogKey::Backspace => {
                if self.search_focused {
                    self.pop_query_char();
                }
                WorktreeOpenAction::Stay
            },
            _ => WorktreeOpenAction::Stay,
        }
    }

    /// Types `text` into the focused search field (pasted text); the
    /// selection follows the new query. Nothing happens while the search
    /// field is not focused.
    pub fn insert_search_text(&mut self, text: &str)
        ensures
            old(self).search_focused ==> final(self).query@ == old(self).query@ + text@
                && *final(self) == old(self).spec_requeried(final(self).query),
            !old(self).search_focused ==> *final(self) == *old(self),
    {
        if !self.search_focused {
            return;
        }
        self.query.append(text);
        self.normalize_selection();
    }
}

fn char_is_control(c: char) -> (r: bool)
    ensures
        r == is_control(c),
{
    c <= '\u{1f}' || ('\u{7f}' <= c && c <= '\u{9f}')
}

/// What the create-worktree modal asks of its host after a key.
#[derive(Debug, Clone, Copy, PartialEq, Eq, Structural)]
pub enum CreateKeyAction {
    /// Close the modal.
    Close,
    /// Submit the active tab.
    Submit,
    /// The branch name changed: derive the checkout path from it again.
    SyncBranch,
    /// Nothing more to do.
    Stay,
}

/// A list cursor moved by one: down clamps to the last of `len` entries,
/// up stops at the first; an empty list puts it at the top.
pub open spec fn moved(selected: usize, len: usize, down: bool) -> usize {
    if len == 0 {
        0
    } else if down {
        crate::lists::clamp_next(selected as int, len as int) as usize
    } else if selected == 0 {
        0
    } else {
        (selected - 1) as usize
    }
}

/// The query of a list pick after typing `ch`, or deleting on `None`.
pub open spec fn edited(query: Seq<char>, ch: Option<char>) -> Seq<char> {
    match ch {
        Some(c) => query.push(c),
        None => popped(query),
    }
}

/// The name typed into the Name tab after typing `ch` (deleting on
/// `None`); text still marked to be replaced on typing goes first.
pub open spec fn name_after(name: Seq<char>, replace_on_type: bool, ch: Option<char>) -> Seq<char> {
    if replace_on_type {
        match ch {
            Some(c) => seq![c],
            None => Seq::empty(),
        }
    } else {
        edited(name, ch)
    }
}

impl WorktreeCreateState {
    /// The modal after a list key on its active tab: `ch` typed into (or
    /// deleted from) the tab's query, or the tab's cursor moved.
    pub open spec fn spec_list_key(self, pick: WorktreeListPick) -> WorktreeCreateState {
        match self.active_tab {
            WorktreeCreateTab::Github => WorktreeCreateState { github_pick: pick, ..self },
            WorktreeCreateTab::Branch => WorktreeCreateState { branch_pick: pick, ..self },
            WorktreeCreateTab::Name => self,
        }
    }

    /// The list pick of the active tab (the GitHub one on the Name tab,
    /// which has none).
    pub open spec fn spec_active_pick(self) -> WorktreeListPick {
        match self.active_tab {
            WorktreeCreateTab::Branch => self.branch_pick,
            _ => self.github_pick,
        }
    }

    fn edit_active_query(&mut self, ch: Option<char>)
        requires
            old(self).active_tab != WorktreeCreateTab::Name,
        ensures
            final(self).spec_active_pick().query@ == edited(old(self).spec_active_pick().query@, ch),
            final(self).spec_active_pick().selected == 0,
            *final(self) == old(self).spec_list_key(final(self).spec_active_pick()),
    {
        match self.active_tab {
            WorktreeCreateTab::Github => self.github_pick.edit_query(ch),
            _ => self.branch_pick.edit_query(ch),
        }
    }

    fn move_active_selection(&mut self, len: usize, down: bool)
        requires
            old(self).active_tab != WorktreeCreateTab::Name,
        ensures
            *final(self) == old(self).spec_list_key(WorktreeListPick {
                selected: moved(old(self).spec_active_pick().selected, len, down),
                ..old(self).spec_active_pick()
            }),
    {
        match self.active_tab {
            WorktreeCreateTab::Github => self.github_pick.move_selection(len, down),
            _ => self.branch_pick.move_selection(len, down),
        }
    }

    /// Handles a key press in the modal. `name` and `replace_on_type` are
    /// the Name tab's text and whether typing replaces it; `github_len` and
    /// `branch_len` count the rows the GitHub and Branch tabs list.
    ///
    /// Esc closes unless a creation is running; Tab and BackTab cycle the
    /// tabs; Enter submits; Up and Down move the active list's cursor. On
    /// the Name tab, typing edits the name (replacing it first when marked)
    /// and asks for the checkout path to follow; on a list tab, typing
    /// edits that tab's query and puts its cursor at the top.
    pub fn handle_key(
        &mut self,
        name: &mut String,
        replace_on_type: &mut bool,
        key: DialogKey,
        github_len: usize,
        branch_len: usize,
    ) -> (r: CreateKeyAction)
        ensures
            match key {
                DialogKey::Esc => *final(self) == *old(self) && *final(name) == *old(name)
                    && *final(replace_on_type) == *old(replace_on_type)
                    && r == if old(self).creating { CreateKeyAction::Stay } else { CreateKeyAction::Close },
                DialogKey::Tab | DialogKey::BackTab => r == CreateKeyAction::Stay
                    && *final(self) == (WorktreeCreateState {
                        active_tab: cycled_tab(old(self).active_tab, key == DialogKey::Tab),
                        ..*old(self)
                    })
                    && *final(name) == *old(name) && *final(replace_on_type) == *old(replace_on_type),
                DialogKey::Enter => r == CreateKeyAction::Submit && *final(self) == *old(self)
                    && *final(name) == *old(name) && *final(replace_on_type) == *old(replace_on_type),
                DialogKey::Up | DialogKey::Down => r == CreateKeyAction::Stay
                    && *final(name) == *old(name) && *final(replace_on_type) == *old(replace_on_type)
                    && *final(self) == old(self).spec_list_key(WorktreeListPick {
                        selected: moved(
                            old(self).spec_active_pick().selected,
                            if old(self).active_tab == WorktreeCreateTab::Github { github_len } else { branch_len },
                            key == DialogKey::Down,
                        ),
                        ..old(self).spec_active_pick()
                    }),
                DialogKey::Backspace | DialogKey::Char(_) => {
                    let ch = if key is Char { Some(key->0) } else { None };
                    if old(self).active_tab == WorktreeCreateTab::Name {
                        &&& r == CreateKeyAction::SyncBranch
                        &&& *final(self) == *old(self)
                        &&& final(name)@ == name_after(old(name)@, *old(replace_on_type), ch)
                        &&& !*final(replace_on_type)
                    } else {
                        &&& r == CreateKeyAction::Stay
                        &&& *final(name) == *old(name) && *final(replace_on_type) == *old(replace_on_type)
                        &&& final(self).spec_active_pick().query@ == edited(old(self).spec_active_pick().query@, ch)
                        &&& final(self).spec_active_pick().selected == 0
                        &&& *final(self) == old(self).spec_list_key(final(self).spec_active_pick())
                    }
                },
                DialogKey::Other => r == CreateKeyAction::Stay && *final(self) == *old(self)
                    && *final(name) == *old(name) && *final(replace_on_type) == *old(replace_on_type),
            },
    {
        match key {
            DialogKey::Esc => {
                if self.creating {
                    CreateKeyAction::Stay
                } else {
                    CreateKeyAction::Close
                }
            },
            DialogKey::Tab => {
                self.cycle_tab(true);
                CreateKeyAction::Stay
            },
            DialogKey::BackTab => {
                self.cycle_tab(false);
                CreateKeyAction::Stay
            },
            DialogKey::Enter => CreateKeyAction::Submit,
            DialogKey::Up | DialogKey::Down => {
                let down = key == DialogKey::Down;
                match self.active_tab {
                    WorktreeCreateTab::Name => {},
                    WorktreeCreateTab::Github => self.move_active_selection(github_len, down),
                    WorktreeCreateTab::Branch => self.move_active_selection(branch_len, down),
                }
                CreateKeyAction::Stay
            },
            DialogKey::Backspace | DialogKey::Char(_) => {
                let ch = match key {
                    DialogKey::Char(c) => Some(c),
                    _ => None,
                };
                if self.active_tab == WorktreeCreateTab::Name {
                    if *replace_on_type {
                        *name = String::new();
                        *replace_on_type = false;
                    }
                    match ch {
                        Some(c) => {
                            let s = char_string(c);
                            name.append(s.as_str());
                        },
                        None => {
                            let n = name.as_str().unicode_len();
                            if n > 0 {
                                let shorter = name.as_str().substring_char(0, n - 1).to_owned();
                                *name = shorter;
                            }
                        },
                    }
                    proof {
                        assert(name@ =~= name_after(old(name)@, *old(replace_on_type), ch));
                    }
                    CreateKeyAction::SyncBranch
                } else {
                    self.edit_active_query(ch);
                    CreateKeyAction::Stay
                }
            },
            DialogKey::Other => CreateKeyAction::Stay,
        }
    }

    /// The membership the source workspace keeps in the repository's
    /// worktree space: the one it had, or one for its checkout as the
    /// repository's main worktree.
    pub fn source_membership(&self) -> (r: WorktreeSpaceMembership)
        ensures
            r == match self.source_existing_membership {
                Some(m) => m,
                None => WorktreeSpaceMembership {
                    key: self.repo_key,
                    label: self.repo_name,
                    repo_root: self.source_repo_root,
                    checkout_path: self.source_checkout_path,
                    is_linked_worktree: false,
                },
            },
    {
        match &self.source_existing_membership {
            Some(m) => WorktreeSpaceMembership {
                key: m.key.clone(),
                label: m.label.clone(),
                repo_root: m.repo_root.clone(),
                checkout_path: m.checkout_path.clone(),
                is_linked_worktree: m.is_linked_worktree,
            },
            None => WorktreeSpaceMembership {
                key: self.repo_key.clone(),
                label: self.repo_name.clone(),
                repo_root: self.source_repo_root.clone(),
                checkout_path: self.source_checkout_path.clone(),
                is_linked_worktree: false,
            },
        }
    }

    /// The membership of the linked worktree the modal created.
    pub fn created_membership(&self) -> (r: WorktreeSpaceMembership)
        ensures
            r == (WorktreeSpaceMembership {
                key: self.repo_key,
                label: self.repo_name,
                repo_root: self.source_repo_root,
                checkout_path: self.checkout_path,
                is_linked_worktree: true,
            }),
    {
        WorktreeSpaceMembership {
            key: self.repo_key.clone(),
            label: self.repo_name.clone(),
            repo_root: self.source_repo_root.clone(),
            checkout_path: self.checkout_path.clone(),
            is_linked_worktree: true,
        }
    }

    /// A `git worktree add` result is for this modal: it created the
    /// modal's checkout path. Any other result is stale and ignored.
    pub fn matches_result(&self, path: &str) -> (r: bool)
        ensures
            r == (self.checkout_path@ == path@),
    {
        str_eq(self.checkout_path.as_str(), path)
    }

    /// Records a failed `git worktree add`: the modal stops creating and
    /// shows `message`.
    pub fn fail_creation(&mut self, message: String)
        ensures
            *final(self) == (WorktreeCreateState { creating: false, error: Some(message), ..*old(self) }),
    {
        self.creating = false;
        self.error = Some(message);
    }
}

/// What decides whether a workspace already has a worktree open: its
/// worktree-space checkout when it has a membership, else its detected
/// checkout key and its working directory. Paths are canonical.
#[derive(Debug, Clone, PartialEq, Eq)]
pub enum WorkspaceCheckout {
    Member { checkout: String },
    Unmanaged { checkout_key: Option<String>, cwd: Option<String> },
}

/// A workspace with `wc` has the worktree at canonical path `path` open.
pub open spec fn opens_checkout(wc: WorkspaceCheckout, path: Seq<char>) -> bool {
    match wc {
        WorkspaceCheckout::Member { checkout } => checkout@ == path,
        WorkspaceCheckout::Unmanaged { checkout_key, cwd } => {
            ||| checkout_key matches Some(k) && k@ == path
            ||| cwd matches Some(c) && c@ == path
        },
    }
}

/// The first of the first `n` workspaces with the worktree at `path` open.
pub open spec fn open_at(wcs: Seq<WorkspaceCheckout>, path: Seq<char>, n: int) -> Option<usize>
    decreases n,
{
    if n <= 0 {
        None
    } else {
        match open_at(wcs, path, n - 1) {
            Some(k) => Some(k),
            None => if opens_checkout(wcs[n - 1], path) { Some((n - 1) as usize) } else { None },
        }
    }
}

/// The dialog rows for the first `n` listed worktrees: every worktree but
/// bare and prunable ones, linked unless it is the repository's own
/// checkout, with the workspace that already has it open.
pub open spec fn open_entries(
    list: Seq<crate::worktree_list::ExistingWorktree>,
    canonical: Seq<String>,
    repo_checkout: Seq<char>,
    wcs: Seq<WorkspaceCheckout>,
    n: int,
) -> Seq<WorktreeOpenEntry>
    decreases n,
{
    if n <= 0 {
        Seq::empty()
    } else {
        let prev = open_entries(list, canonical, repo_checkout, wcs, n - 1);
        let w = list[n - 1];
        if w.is_bare || w.is_prunable {
            prev
        } else {
            prev.push(WorktreeOpenEntry {
                path: w.path,
                branch: w.branch,
                is_linked_worktree: canonical[n - 1]@ != repo_checkout,
                already_open_ws_idx: open_at(wcs, canonical[n - 1]@, wcs.len() as int),
            })
        }
    }
}

fn opens(wc: &WorkspaceCheckout, path: &str) -> (r: bool)
    ensures
        r == opens_checkout(*wc, path@),
{
    match wc {
        WorkspaceCheckout::Member { checkout } => str_eq(checkout.as_str(), path),
        WorkspaceCheckout::Unmanaged { checkout_key, cwd } => {
            let by_key = match checkout_key {
                Some(k) => str_eq(k.as_str(), path),
                None => false,
            };
            by_key || match cwd {
                Some(c) => str_eq(c.as_str(), path),
                None => false,
            }
        },
    }
}

proof fn lemma_open_at_found(wcs: Seq<WorkspaceCheckout>, path: Seq<char>, i: int, n: int)
    requires
        0 <= i < n <= wcs.len(),
        open_at(wcs, path, i) is None,
        opens_checkout(wcs[i], path),
    ensures
        open_at(wcs, path, n) == Some(i as usize),
    decreases n - i,
{
    if n > i + 1 {
        lemma_open_at_found(wcs, path, i, n - 1);
    }
}

fn first_open(wcs: &[WorkspaceCheckout], path: &str) -> (r: Option<usize>)
    ensures
        r == open_at(wcs@, path@, wcs@.len() as int),
{
    let mut k: usize = 0;
    while k < wcs.len()
        invariant
            0 <= k <= wcs@.len(),
            open_at(wcs@, path@, k as int) is None,
        decreases wcs@.len() - k,
    {
        if opens(&wcs[k], path) {
            proof {
                lemma_open_at_found(wcs@, path@, k as int, wcs@.len() as int);
            }
            return Some(k);
        }
        k = k + 1;
    }
    None
}

/// The rows of the open-worktree dialog for the worktrees git lists:
/// `canonical[i]` is the canonical path of `list[i]`, `repo_checkout` that
/// of the repository's own checkout, and `workspaces` tells, per open
/// workspace, what decides whether it has a worktree open. Bare and
/// prunable worktrees are left out.
pub fn existing_worktree_entries(
    list: &Vec<crate::worktree_list::ExistingWorktree>,
    canonical: &Vec<String>,
    repo_checkout: &str,
    workspaces: &[WorkspaceCheckout],
) -> (r: Vec<WorktreeOpenEntry>)
    requires
        canonical@.len() == list@.len(),
    ensures
        r@ == open_entries(list@, canonical@, repo_checkout@, workspaces@, list@.len() as int),
{
    let mut out: Vec<WorktreeOpenEntry> = Vec::new();
    let mut i: usize = 0;
    while i < list.len()
        invariant
            0 <= i <= list@.len(),
            canonical@.len() == list@.len(),
            out@ == open_entries(list@, canonical@, repo_checkout@, workspaces@, i as int),
        decreases list@.len() - i,
    {
        let w = &list[i];
        if !w.is_bare && !w.is_prunable {
            let path = canonical[i].as_str();
            let branch = match &w.branch {
                Some(b) => Some(b.clone()),
                None => None,
            };
            out.push(WorktreeOpenEntry {
                path: w.path.clone(),
                branch,
                is_linked_worktree: !str_eq(path, repo_checkout),
                already_open_ws_idx: first_open(workspaces, path),
            });
        }
        i = i + 1;
    }
    out
}

/// What the remove-worktree confirmation asks of its host after a key.
#[derive(Debug, Clone, Copy, PartialEq, Eq, Structural)]
pub enum RemoveKeyAction {
    Close,
    /// Remove the worktree.
    Submit,
    /// Merge the branch into the main checkout, then remove the worktree.
    MergeAndRemove,
    Stay,
}

impl WorktreeRemoveState {
    /// What a key does in the confirmation: Esc closes it unless a removal
    /// is running, Enter removes, `m` merges then removes.
    pub fn key_action(&self, key: DialogKey) -> (r: RemoveKeyAction)
        ensures
            r == match key {
                DialogKey::Esc => if self.removing { RemoveKeyAction::Stay } else { RemoveKeyAction::Close },
                DialogKey::Enter => RemoveKeyAction::Submit,
                DialogKey::Char(c) => if c == 'm' { RemoveKeyAction::MergeAndRemove } else { RemoveKeyAction::Stay },
                _ => RemoveKeyAction::Stay,
            },
    {
        match key {
            DialogKey::Esc => if self.removing { RemoveKeyAction::Stay } else { RemoveKeyAction::Close },
            DialogKey::Enter => RemoveKeyAction::Submit,
            DialogKey::Char(c) => if c == 'm' { RemoveKeyAction::MergeAndRemove } else { RemoveKeyAction::Stay },
            _ => RemoveKeyAction::Stay,
        }
    }

    /// Starts a removal: `None`, changing nothing, while one is running;
    /// otherwise marks it running, clears the error, and returns whether
    /// the removal is forced.
    pub fn begin_removal(&mut self) -> (r: Option<bool>)
        ensures
            old(self).removing ==> r is None && *final(self) == *old(self),
            !old(self).removing ==> r == Some(old(self).force_confirmation)
                && *final(self) == (WorktreeRemoveState { removing: true, error: None, ..*old(self) }),
    {
        if self.removing {
            return None;
        }
        self.removing = true;
        self.error = None;
        Some(self.force_confirmation)
    }

    /// A removal result is for this confirmation: same workspace, same path.
    pub fn matches_result(&self, workspace_id: &str, path: &str) -> (r: bool)
        ensures
            r == (self.workspace_id@ == workspace_id@ && self.path@ == path@),
    {
        str_eq(self.workspace_id.as_str(), workspace_id) && str_eq(self.path.as_str(), path)
    }

    /// Records a failed removal. A first failure on uncommitted changes
    /// (`dirty`) asks to confirm a forced removal instead of showing the
    /// error; any other failure shows `message`.
    pub fn removal_failed(&mut self, message: String, dirty: bool)
        ensures
            !old(self).force_confirmation && dirty ==> *final(self) == (WorktreeRemoveState {
                removing: false,
                force_confirmation: true,
                error: None,
                ..*old(self)
            }),
            !(!old(self).force_confirmation && dirty) ==> *final(self) == (WorktreeRemoveState {
                removing: false,
                error: Some(message),
                ..*old(self)
            }),
    {
        self.removing = false;
        if !self.force_confirmation && dirty {
            self.force_confirmation = true;
            self.error = None;
        } else {
            self.error = Some(message);
        }
    }
}

/// The message shown when `git worktree add` succeeded but no workspace
/// could be opened on the new checkout.
pub fn workspace_open_failed_message(err: &str) -> (r: String)
    ensures
        r@ == "created worktree but failed to open workspace: "@ + err@,
{
    concat("created worktree but failed to open workspace: ", err)
}

/// After a removal, the workspace still sits in the removed linked
/// worktree: its membership is a linked worktree at `path`. Only then is it
/// closed.
pub fn still_same_linked_worktree(space: &Option<WorktreeSpaceMembership>, path: &str) -> (r: bool)
    ensures
        r == (space matches Some(m) && m.is_linked_worktree && m.checkout_path@ == path@),
{
    match space {
        Some(m) => m.is_linked_worktree && str_eq(m.checkout_path.as_str(), path),
        None => false,
    }
}

/// `k` is the first workspace whose membership is the main checkout of the
/// repository keyed `key`.
pub open spec fn first_main_checkout(spaces: Seq<Option<WorktreeSpaceMembership>>, key: Seq<char>, k: int) -> bool {
    &&& 0 <= k < spaces.len()
    &&& spaces[k] matches Some(m) && !m.is_linked_worktree && m.key@ == key
    &&& forall|j: int| 0 <= j < k ==> !(#[trigger] spaces[j] matches Some(m) && !m.is_linked_worktree && m.key@ == key)
}

/// The workspace to switch to once the workspace of a removed linked
/// worktree closed: the first remaining workspace (`spaces` are the
/// memberships after the close) on the main checkout of the same
/// repository. `None` when the closed workspace was no linked worktree or
/// no such workspace remains.
pub fn parent_workspace_after_removal(
    spaces: &Vec<Option<WorktreeSpaceMembership>>,
    closed: &Option<WorktreeSpaceMembership>,
) -> (r: Option<usize>)
    ensures
        match closed {
            Some(c) if c.is_linked_worktree => match r {
                Some(k) => first_main_checkout(spaces@, c.key@, k as int),
                None => forall|k: int| 0 <= k < spaces@.len() ==> !first_main_checkout(spaces@, c.key@, k),
            },
            _ => r is None,
        },
{
    let key = match closed {
        Some(c) => {
            if !c.is_linked_worktree {
                return None;
            }
            c.key.as_str()
        },
        None => {
            return None;
        },
    };
    let mut i: usize = 0;
    while i < spaces.len()
        invariant
            i <= spaces.len(),
            closed matches Some(c) && c.key@ == key@ && c.is_linked_worktree,
            forall|j: int| 0 <= j < i ==> !(#[trigger] spaces@[j] matches Some(m) && !m.is_linked_worktree && m.key@ == key@),
        decreases spaces.len() - i,
    {
        match &spaces[i] {
            Some(m) => {
                if !m.is_linked_worktree && str_eq(m.key.as_str(), key) {
                    return Some(i);
                }
            },
            None => {},
        }
        i = i + 1;
    }
    None
}

/// A removal stops the workspace's terminals first when forced, and always
/// on Windows.
pub fn should_shutdown_terminals_for_removal(force: bool, windows: bool) -> (r: bool)
    ensures
        r == (force || windows),
{
    force || windows
}

/// The mode a session starts in: onboarding first, then an unseen product
/// announcement, then the terminal when a workspace is active, else
/// navigation.
pub fn startup_mode(show_onboarding: bool, has_announcement: bool, has_active_workspace: bool) -> (r: Mode)
    ensures
        r == if show_onboarding {
            Mode::Onboarding
        } else if has_announcement {
            Mode::ProductAnnouncement
        } else if has_active_workspace {
            Mode::Terminal
        } else {
            Mode::Navigate
        },
{
    if show_onboarding {
        Mode::Onboarding
    } else if has_announcement {
        Mode::ProductAnnouncement
    } else if has_active_workspace {
        Mode::Terminal
    } else {
        Mode::Navigate
    }
}

/// The mode after the release notes are dismissed: a pending product
/// announcement comes next, else the mode a closed dialog returns to.
pub fn mode_after_release_notes(has_announcement: bool, has_active_workspace: bool) -> (r: Mode)
    ensures
        r == if has_announcement {
            Mode::ProductAnnouncement
        } else if has_active_workspace {
            Mode::Terminal
        } else {
            Mode::Navigate
        },
{
    if has_announcement {
        Mode::ProductAnnouncement
    } else {
        mode_after_closing_dialog(has_active_workspace)
    }
}

/// A restored selection held to the restored workspaces: at most the last
/// index, 0 when there are none.
pub fn restored_selection(selected: usize, workspace_count: usize) -> (r: usize)
    ensures
        r == if workspace_count == 0 {
            0
        } else if selected < workspace_count {
            selected as int
        } else {
            workspace_count - 1
        },
{
    let last = workspace_count.saturating_sub(1);
    if selected < last { selected } else { last }
}

/// The mode a closed dialog returns to: the terminal when a workspace is
/// active, else navigation.
pub fn mode_after_closing_dialog(has_active_workspace: bool) -> (r: Mode)
    ensures
        r == if has_active_workspace { Mode::Terminal } else { Mode::Navigate },
{
    if has_active_workspace {
        Mode::Terminal
    } else {
        Mode::Navigate
    }
}

/// Position of the first occurrence of `x` in `s`.
pub open spec fn first_pos(s: Seq<usize>, x: usize) -> int {
    choose|i: int| 0 <= i < s.len() && s[i] == x && forall|j: int| 0 <= j < i ==> s[j] != x
}

/// Position of `x` in `v`, which holds it.
fn position_of(v: &Vec<usize>, x: usize) -> (r: usize)
    requires
        v@.contains(x),
    ensures
        r < v@.len(),
        r == first_pos(v@, x),
{
    let mut i: usize = 0;
    while i < v.len()
        invariant
            v@.contains(x),
            i <= v.len(),
            forall|k: int| 0 <= k < i ==> v@[k] != x,
        decreases v.len() - i,
    {
        if v[i] == x {
            proof {
                assert(0 <= i < v@.len() && v@[i as int] == x && forall|j: int| 0 <= j < i ==> v@[j] != x);
                let f = first_pos(v@, x);
                if f < i {
                    assert(v@[f] != x);
                } else if f > i {
                    assert(v@[i as int] != x);
                }
            }
            return i;
        }
        i = i + 1;
    }
    proof {
        let j = choose|j: int| 0 <= j < v@.len() && v@[j] == x;
        assert(false);
    }
    0
}

} // verus!
