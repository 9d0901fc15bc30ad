//! Cached GitHub pull requests, issues and branches of a repository, and
//! the picks the create-worktree modal and the right panel offer from them.

use vstd::prelude::*;
use crate::text::{str_eq, concat, char_string, to_lowercase, lowercase, trim, trim_str, str_contains,
    seq_contains};
use crate::state::{GithubPickEntry, GithubPickKind, WorktreeCreateState, WorktreeCreateTab, FlowRunRequest};
use crate::workspace::Workspace;

verus! {

/// An open pull request of a repository.
#[derive(Debug, Clone, PartialEq, Eq)]
pub struct OpenPr {
    pub number: u64,
    pub title: String,
    pub url: String,
    pub head_ref_name: String,
}

/// The cached open pull requests of a repository, or the fetch error.
#[derive(Debug, Clone, PartialEq, Eq)]
pub struct RepoOpenPrs {
    pub prs: Vec<OpenPr>,
    pub error: Option<String>,
}

/// An open issue of a repository.
#[derive(Debug, Clone, PartialEq, Eq)]
pub struct RepoIssue {
    pub number: u64,
    pub title: String,
    pub url: String,
}

/// The cached open issues of a repository, or the fetch error.
#[derive(Debug, Clone, PartialEq, Eq)]
pub struct RepoIssues {
    pub issues: Vec<RepoIssue>,
    pub error: Option<String>,
}

/// A local branch of a repository.
#[derive(Debug, Clone, PartialEq, Eq)]
pub struct RepoBranch {
    pub name: String,
    pub is_current: bool,
}

/// The cached local branches of a repository, or the listing error.
#[derive(Debug, Clone, PartialEq, Eq)]
pub struct RepoBranches {
    pub branches: Vec<RepoBranch>,
    pub error: Option<String>,
}

/// The decimal digit `d`.
pub open spec fn digit_char(d: nat) -> char {
    if d == 0 { '0' } else if d == 1 { '1' } else if d == 2 { '2' } else if d == 3 { '3' }
    else if d == 4 { '4' } else if d == 5 { '5' } else if d == 6 { '6' } else if d == 7 { '7' }
    else if d == 8 { '8' } else { '9' }
}

/// `n` written in decimal, without leading zeros.
pub open spec fn decimal(n: nat) -> Seq<char>
    decreases n,
{
    if n < 10 {
        seq![digit_char(n)]
    } else {
        decimal(n / 10).push(digit_char(n % 10))
    }
}

fn digit(d: u64) -> (c: char)
    requires
        d < 10,
    ensures
        c == digit_char(d as nat),
{
    if d == 0 { '0' } else if d == 1 { '1' } else if d == 2 { '2' } else if d == 3 { '3' }
    else if d == 4 { '4' } else if d == 5 { '5' } else if d == 6 { '6' } else if d == 7 { '7' }
    else if d == 8 { '8' } else { '9' }
}

/// `n` in decimal, as `format!("{n}")` writes it.
pub fn decimal_string(n: u64) -> (r: String)
    ensures
        r@ == decimal(n as nat),
    decreases n,
{
    let last = char_string(digit(n % 10));
    if n < 10 {
        last
    } else {
        let head = decimal_string(n / 10);
        concat(head.as_str(), last.as_str())
    }
}

/// A pick numbered `number` and titled `title` passes the lowercased query
/// `q`: an empty query passes everything, else `#<number>` or the lowercased
/// title must contain it.
pub open spec fn pick_matches(q: Seq<char>, number: u64, title: Seq<char>) -> bool {
    ||| q.len() == 0
    ||| seq_contains(seq!['#'] + decimal(number as nat), q)
    ||| seq_contains(lowercase(title), q)
}

/// The query of a pick list as it is matched: trimmed, then lowercased.
pub open spec fn pick_query(query: Seq<char>) -> Seq<char> {
    lowercase(trim(query))
}

/// The GitHub tab row for a pull request.
pub open spec fn pr_entry(pr: OpenPr) -> GithubPickEntry {
    GithubPickEntry {
        kind: GithubPickKind::Pr,
        number: pr.number,
        title: pr.title,
        url: pr.url,
        head_ref: Some(pr.head_ref_name),
        enabled: true,
    }
}

/// The GitHub tab row for an issue; it can be picked only when a flow
/// command is configured.
pub open spec fn issue_entry(issue: RepoIssue, issues_enabled: bool) -> GithubPickEntry {
    GithubPickEntry {
        kind: GithubPickKind::Issue,
        number: issue.number,
        title: issue.title,
        url: issue.url,
        head_ref: None,
        enabled: issues_enabled,
    }
}

/// The rows for the first `n` pull requests that pass `q`, in order.
pub open spec fn pr_picks(q: Seq<char>, prs: Seq<OpenPr>, n: int) -> Seq<GithubPickEntry>
    decreases n,
{
    if n <= 0 {
        Seq::empty()
    } else {
        let prev = pr_picks(q, prs, n - 1);
        if pick_matches(q, prs[n - 1].number, prs[n - 1].title@) {
            prev.push(pr_entry(prs[n - 1]))
        } else {
            prev
        }
    }
}

/// The rows for the first `n` issues that pass `q`, in order.
pub open spec fn issue_picks(q: Seq<char>, issues: Seq<RepoIssue>, n: int, enabled: bool) -> Seq<GithubPickEntry>
    decreases n,
{
    if n <= 0 {
        Seq::empty()
    } else {
        let prev = issue_picks(q, issues, n - 1, enabled);
        if pick_matches(q, issues[n - 1].number, issues[n - 1].title@) {
            prev.push(issue_entry(issues[n - 1], enabled))
        } else {
            prev
        }
    }
}

/// The GitHub tab's rows: matching pull requests first, then matching
/// issues, each in cache order.
pub open spec fn github_picks(
    query: Seq<char>,
    prs: Option<RepoOpenPrs>,
    issues: Option<RepoIssues>,
    issues_enabled: bool,
) -> Seq<GithubPickEntry> {
    let q = pick_query(query);
    let from_prs = match prs {
        Some(p) => pr_picks(q, p.prs@, p.prs@.len() as int),
        None => Seq::empty(),
    };
    let from_issues = match issues {
        Some(i) => issue_picks(q, i.issues@, i.issues@.len() as int, issues_enabled),
        None => Seq::empty(),
    };
    from_prs + from_issues
}

fn pick_passes(q: &str, number: u64, title: &str) -> (r: bool)
    ensures
        r == pick_matches(q@, number, title@),
{
    if q.is_empty() {
        return true;
    }
    let hash = char_string('#');
    let digits = decimal_string(number);
    let tag = concat(hash.as_str(), digits.as_str());
    if str_contains(tag.as_str(), q) {
        return true;
    }
    let lowered = to_lowercase(title);
    str_contains(lowered.as_str(), q)
}

/// The rows of the create-worktree modal's GitHub tab for the tab query
/// `query`: the cached pull requests whose `#<number>` or title contains the
/// trimmed, lowercased query, then the issues that do, issues enabled only
/// when `issues_enabled` (a flow command is configured).
pub fn create_worktree_github_entries(
    query: &str,
    prs: Option<&RepoOpenPrs>,
    issues: Option<&RepoIssues>,
    issues_enabled: bool,
) -> (r: Vec<GithubPickEntry>)
    ensures
        r@ == github_picks(query@, match prs {
            Some(p) => Some(*p),
            None => None,
        }, match issues {
            Some(i) => Some(*i),
            None => None,
        }, issues_enabled),
{
    let trimmed = trim_str(query);
    let q = to_lowercase(trimmed.as_str());
    let ghost qs = pick_query(query@);
    let mut entries: Vec<GithubPickEntry> = Vec::new();
    if let Some(p) = prs {
        let mut i: usize = 0;
        while i < p.prs.len()
            invariant
                0 <= i <= p.prs@.len(),
                q@ == qs,
                entries@ == pr_picks(qs, p.prs@, i as int),
            decreases p.prs@.len() - i,
        {
            let pr = &p.prs[i];
            if pick_passes(q.as_str(), pr.number, pr.title.as_str()) {
                entries.push(GithubPickEntry {
                    kind: GithubPickKind::Pr,
                    number: pr.number,
                    title: pr.title.clone(),
                    url: pr.url.clone(),
                    head_ref: Some(pr.head_ref_name.clone()),
                    enabled: true,
                });
            }
            i = i + 1;
        }
    }
    let ghost from_prs = entries@;
    if let Some(iss) = issues {
        let mut i: usize = 0;
        while i < iss.issues.len()
            invariant
                0 <= i <= iss.issues@.len(),
                q@ == qs,
                entries@ == from_prs + issue_picks(qs, iss.issues@, i as int, issues_enabled),
            decreases iss.issues@.len() - i,
        {
            let issue = &iss.issues[i];
            if pick_passes(q.as_str(), issue.number, issue.title.as_str()) {
                entries.push(GithubPickEntry {
                    kind: GithubPickKind::Issue,
                    number: issue.number,
                    title: issue.title.clone(),
                    url: issue.url.clone(),
                    head_ref: None,
                    enabled: issues_enabled,
                });
                proof {
                    assert(entries@ =~= from_prs + issue_picks(qs, iss.issues@, i + 1, issues_enabled));
                }
            }
            i = i + 1;
        }
    } else {
        proof {
            assert(entries@ =~= from_prs + Seq::<GithubPickEntry>::empty());
        }
    }
    entries
}

/// The first `n` branches whose lowercased name contains `q` (every branch
/// when `q` is empty), in order.
pub open spec fn branch_picks(q: Seq<char>, branches: Seq<RepoBranch>, n: int) -> Seq<RepoBranch>
    decreases n,
{
    if n <= 0 {
        Seq::empty()
    } else {
        let prev = branch_picks(q, branches, n - 1);
        if q.len() == 0 || seq_contains(lowercase(branches[n - 1].name@), q) {
            prev.push(branches[n - 1])
        } else {
            prev
        }
    }
}

/// The rows of the create-worktree modal's Branch tab for the tab query
/// `query`: the cached branches whose lowercased name contains the trimmed,
/// lowercased query; none when no branch list is cached.
pub fn create_worktree_branch_entries(query: &str, branches: Option<&RepoBranches>) -> (r: Vec<RepoBranch>)
    ensures
        r@ == match branches {
            Some(b) => branch_picks(pick_query(query@), b.branches@, b.branches@.len() as int),
            None => Seq::empty(),
        },
{
    let trimmed = trim_str(query);
    let q = to_lowercase(trimmed.as_str());
    let mut out: Vec<RepoBranch> = Vec::new();
    match branches {
        None => out,
        Some(b) => {
            let mut i: usize = 0;
            while i < b.branches.len()
                invariant
                    0 <= i <= b.branches@.len(),
                    q@ == pick_query(query@),
                    out@ == branch_picks(q@, b.branches@, i as int),
                decreases b.branches@.len() - i,
            {
                let branch = &b.branches[i];
                let keep = if q.as_str().is_empty() {
                    true
                } else {
                    let name = to_lowercase(branch.name.as_str());
                    str_contains(name.as_str(), q.as_str())
                };
                if keep {
                    out.push(RepoBranch { name: branch.name.clone(), is_current: branch.is_current });
                }
                i = i + 1;
            }
            out
        },
    }
}

/// What submitting the create-worktree modal asks for.
#[derive(Debug, Clone, PartialEq, Eq)]
pub enum CreateSubmit {
    /// Create a fresh branch and worktree from the Name tab.
    CreateFromName,
    /// Check out the selected local branch in a new worktree.
    CheckoutBranch(String),
    /// Open the selected pull request in a worktree of the source workspace.
    OpenPrWorktree { ws_idx: usize, number: u64 },
    /// Run the flow command for the selected issue.
    RunFlow(FlowRunRequest),
    /// Nothing to do: no row selected, the source workspace is gone, or the
    /// issue's flow is unavailable.
    Nothing,
}

/// The first workspace whose id is `id`.
pub open spec fn workspace_with_id(ws: Seq<Workspace>, id: Seq<char>, n: int) -> Option<int>
    decreases n,
{
    if n <= 0 {
        None
    } else {
        match workspace_with_id(ws, id, n - 1) {
            Some(k) => Some(k),
            None => if ws[n - 1].id@ == id { Some(n - 1) } else { None },
        }
    }
}

/// The submission of the create-worktree modal `create`, given the rows of
/// its GitHub and Branch tabs.
pub open spec fn create_submit(
    create: WorktreeCreateState,
    github: Seq<GithubPickEntry>,
    branches: Seq<RepoBranch>,
    workspaces: Seq<Workspace>,
) -> CreateSubmit {
    match create.active_tab {
        WorktreeCreateTab::Name => CreateSubmit::CreateFromName,
        WorktreeCreateTab::Branch => if create.branch_pick.selected < branches.len() {
            CreateSubmit::CheckoutBranch(branches[create.branch_pick.selected as int].name)
        } else {
            CreateSubmit::Nothing
        },
        WorktreeCreateTab::Github => if create.github_pick.selected < github.len() {
            let e = github[create.github_pick.selected as int];
            match e.kind {
                GithubPickKind::Pr => match workspace_with_id(workspaces, create.source_workspace_id@, workspaces.len() as int) {
                    Some(k) => CreateSubmit::OpenPrWorktree { ws_idx: k as usize, number: e.number },
                    None => CreateSubmit::Nothing,
                },
                GithubPickKind::Issue => if e.enabled {
                    CreateSubmit::RunFlow(FlowRunRequest { number: e.number, url: e.url })
                } else {
                    CreateSubmit::Nothing
                },
            }
        } else {
            CreateSubmit::Nothing
        },
    }
}

proof fn lemma_workspace_with_id_found(ws: Seq<Workspace>, id: Seq<char>, i: int, n: int)
    requires
        0 <= i < n <= ws.len(),
        workspace_with_id(ws, id, i) is None,
        ws[i].id@ == id,
    ensures
        workspace_with_id(ws, id, n) == Some(i),
    decreases n - i,
{
    if n > i + 1 {
        lemma_workspace_with_id_found(ws, id, i, n - 1);
    }
}

/// What Enter on the create-worktree modal asks for: the Name tab creates a
/// branch, the Branch tab checks out the selected branch, and the GitHub
/// tab opens the selected pull request in a worktree of the source
/// workspace or runs the flow command for the selected issue when flows
/// are available.
pub fn create_submit_action(
    create: &WorktreeCreateState,
    github_entries: &[GithubPickEntry],
    branch_entries: &[RepoBranch],
    workspaces: &[Workspace],
) -> (r: CreateSubmit)
    ensures
        r == create_submit(*create, github_entries@, branch_entries@, workspaces@),
{
    match create.active_tab {
        WorktreeCreateTab::Name => CreateSubmit::CreateFromName,
        WorktreeCreateTab::Branch => {
            let selected = create.branch_pick.selected;
            if selected < branch_entries.len() {
                CreateSubmit::CheckoutBranch(branch_entries[selected].name.clone())
            } else {
                CreateSubmit::Nothing
            }
        },
        WorktreeCreateTab::Github => {
            let selected = create.github_pick.selected;
            if selected >= github_entries.len() {
                return CreateSubmit::Nothing;
            }
            let e = &github_entries[selected];
            match e.kind {
                GithubPickKind::Pr => {
                    let mut k: usize = 0;
                    while k < workspaces.len()
                        invariant
                            0 <= k <= workspaces@.len(),
                            create.active_tab == WorktreeCreateTab::Github,
                            selected == create.github_pick.selected,
                            selected < github_entries@.len(),
                            *e == github_entries@[selected as int],
                            e.kind == GithubPickKind::Pr,
                            workspace_with_id(workspaces@, create.source_workspace_id@, k as int) is None,
                        decreases workspaces@.len() - k,
                    {
                        if str_eq(workspaces[k].id.as_str(), create.source_workspace_id.as_str()) {
                            proof {
                                lemma_workspace_with_id_found(workspaces@, create.source_workspace_id@, k as int, workspaces@.len() as int);
                            }
                            return CreateSubmit::OpenPrWorktree { ws_idx: k, number: e.number };
                        }
                        k = k + 1;
                    }
                    CreateSubmit::Nothing
                },
                GithubPickKind::Issue => {
                    if e.enabled {
                        CreateSubmit::RunFlow(FlowRunRequest { number: e.number, url: e.url.clone() })
                    } else {
                        CreateSubmit::Nothing
                    }
                },
            }
        },
    }
}

/// The cached row shown on screen row `screen_row` of a right-panel list
/// whose panel starts at row `panel_y` (its first row holds the tab header)
/// and is scrolled by `scroll` rows; none above the body, past the end, or
/// when the cache holds an error.
pub open spec fn list_index_at_row(panel_y: u16, scroll: u16, screen_row: u16) -> Option<int> {
    if screen_row < panel_y + 1 {
        None
    } else {
        Some(screen_row - (panel_y + 1) + scroll)
    }
}

/// The issue (number and url) on screen row `screen_row` of the right
/// panel's Issues tab.
pub fn right_panel_issue_at_row(
    panel_y: u16,
    scroll: u16,
    screen_row: u16,
    cache: Option<&RepoIssues>,
) -> (r: Option<(u64, String)>)
    requires
        panel_y < u16::MAX,
    ensures
        r == match (list_index_at_row(panel_y, scroll, screen_row), cache) {
            (Some(k), Some(c)) => if c.error is None && k < c.issues@.len() {
                Some((c.issues@[k].number, c.issues@[k].url))
            } else {
                None
            },
            _ => None,
        },
{
    let body_start = panel_y + 1;
    if screen_row < body_start {
        return None;
    }
    let flat_index = (screen_row - body_start) as usize + scroll as usize;
    let c = match cache {
        Some(c) => c,
        None => return None,
    };
    if c.error.is_some() {
        return None;
    }
    if flat_index < c.issues.len() {
        let issue = &c.issues[flat_index];
        Some((issue.number, issue.url.clone()))
    } else {
        None
    }
}

/// The pull request (number, url and head branch) on screen row
/// `screen_row` of the right panel's PRs tab.
pub fn right_panel_pr_at_row(
    panel_y: u16,
    scroll: u16,
    screen_row: u16,
    cache: Option<&RepoOpenPrs>,
) -> (r: Option<(u64, String, String)>)
    requires
        panel_y < u16::MAX,
    ensures
        r == match (list_index_at_row(panel_y, scroll, screen_row), cache) {
            (Some(k), Some(c)) => if c.error is None && k < c.prs@.len() {
                Some((c.prs@[k].number, c.prs@[k].url, c.prs@[k].head_ref_name))
            } else {
                None
            },
            _ => None,
        },
{
    let body_start = panel_y + 1;
    if screen_row < body_start {
        return None;
    }
    let flat_index = (screen_row - body_start) as usize + scroll as usize;
    let c = match cache {
        Some(c) => c,
        None => return None,
    };
    if c.error.is_some() {
        return None;
    }
    if flat_index < c.prs.len() {
        let pr = &c.prs[flat_index];
        Some((pr.number, pr.url.clone(), pr.head_ref_name.clone()))
    } else {
        None
    }
}

} // verus!
