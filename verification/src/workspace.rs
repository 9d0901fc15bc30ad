//! What the library reads of a workspace, and plans that move workspaces
//! around the sidebar.

use vstd::prelude::*;
use crate::text::{str_eq, views};
use crate::bora_config::opt_view;
use crate::menus::ViewMode;
use crate::bora_config::BoraCommand;
use crate::state::{PendingBoraCommand, file_name, path_file_name};

verus! {

/// Where a workspace's checkout stands among the worktrees of a repository.
#[derive(Debug, Clone, PartialEq, Eq)]
pub struct WorktreeSpaceMembership {
    /// Key shared by every checkout of the repository.
    pub key: String,
    pub label: String,
    pub repo_root: String,
    pub checkout_path: String,
    /// The checkout is a linked worktree rather than the main checkout.
    pub is_linked_worktree: bool,
}

/// The git checkout a workspace sits in.
#[derive(Debug, Clone, PartialEq, Eq)]
pub struct GitSpaceMetadata {
    /// Key shared by every checkout of the repository.
    pub key: String,
    /// The repository's identity on its forge.
    pub repo_identity: String,
    /// The checkout's own key (its path).
    pub checkout_key: String,
    pub label: String,
    pub repo_root: String,
    pub is_linked_worktree: bool,
}

/// A sidebar workspace, reduced to the values the menu, command and
/// branch logic read.
#[derive(Debug, Clone, PartialEq, Eq)]
pub struct Workspace {
    /// Stable workspace id.
    pub id: String,
    /// Visual group the workspace is filed under, if any.
    pub visual_group: Option<String>,
    /// Branch last read from git for the workspace's checkout.
    pub cached_git_branch: Option<String>,
    /// The repository worktree space the checkout belongs to, if any.
    pub worktree_space: Option<WorktreeSpaceMembership>,
    /// The git checkout last detected for the workspace, if any.
    pub cached_git_space: Option<GitSpaceMetadata>,
    /// The directory the workspace was opened on.
    pub identity_cwd: String,
    /// The repo commands last loaded for the workspace, if loaded.
    pub cached_commands: Option<Vec<BoraCommand>>,
}

/// `w` is filed under visual group `g`.
pub open spec fn in_group(w: Workspace, g: Seq<char>) -> bool {
    match w.visual_group {
        Some(v) => v@ == g,
        None => false,
    }
}

/// The visual group names that some workspace carries.
pub open spec fn group_set(ws: Seq<Workspace>) -> Set<Seq<char>> {
    Set::new(|g: Seq<char>| exists|i: int| 0 <= i < ws.len() && in_group(ws[i], g))
}

/// `w`'s cached branch is `branch`.
pub open spec fn on_branch(w: Workspace, branch: Seq<char>) -> bool {
    match w.cached_git_branch {
        Some(b) => b@ == branch,
        None => false,
    }
}

/// Ids of the first `n` workspaces whose cached branch is `branch`, in order.
pub open spec fn ids_on_branch(ws: Seq<Workspace>, branch: Seq<char>, n: int) -> Seq<Seq<char>>
    decreases n,
{
    if n <= 0 {
        Seq::empty()
    } else if on_branch(ws[n - 1], branch) {
        ids_on_branch(ws, branch, n - 1).push(ws[n - 1].id@)
    } else {
        ids_on_branch(ws, branch, n - 1)
    }
}

/// The ids of the workspaces whose cached branch is `branch`, in sidebar
/// order: the workspaces whose checks refresh when a pull request is opened
/// for that branch.
pub fn workspace_ids_on_branch(workspaces: &[Workspace], branch: &str) -> (r: Vec<String>)
    ensures
        views(r@) == ids_on_branch(workspaces@, branch@, workspaces@.len() as int),
{
    let mut out: Vec<String> = Vec::new();
    let mut i: usize = 0;
    while i < workspaces.len()
        invariant
            0 <= i <= workspaces@.len(),
            views(out@) == ids_on_branch(workspaces@, branch@, i as int),
        decreases workspaces@.len() - i,
    {
        let hit = match &workspaces[i].cached_git_branch {
            Some(b) => str_eq(b.as_str(), branch),
            None => false,
        };
        if hit {
            out.push(workspaces[i].id.clone());
            proof {
                assert(views(out@) =~= ids_on_branch(workspaces@, branch@, i + 1));
            }
        }
        i = i + 1;
    }
    out
}

/// A request to move a block of workspaces in the sidebar order.
#[derive(Debug, Clone, PartialEq, Eq)]
pub struct WorkspaceMoveBlockParams {
    /// The workspaces that move together, the dragged one first.
    pub workspace_ids: Vec<String>,
    /// The workspace the block lands before; `None` moves it to the end.
    pub before_workspace_id: Option<String>,
}

/// `w` belongs to the worktree space `key`.
pub open spec fn in_space(w: Workspace, key: Seq<char>) -> bool {
    match w.worktree_space {
        Some(s) => s.key@ == key,
        None => false,
    }
}

/// The first position of `x` among the first `n` entries of `s`.
pub open spec fn index_upto(s: Seq<usize>, x: usize, n: int) -> Option<int>
    decreases n,
{
    if n <= 0 {
        None
    } else {
        match index_upto(s, x, n - 1) {
            Some(i) => Some(i),
            None => if s[n - 1] == x { Some(n - 1) } else { None },
        }
    }
}

/// The first `n` entries of `s` other than `x`, in order.
pub open spec fn without_upto(s: Seq<usize>, x: usize, n: int) -> Seq<usize>
    decreases n,
{
    if n <= 0 {
        Seq::empty()
    } else if s[n - 1] == x {
        without_upto(s, x, n - 1)
    } else {
        without_upto(s, x, n - 1).push(s[n - 1])
    }
}

/// Ids of the first `n` workspaces of space `key`, other than `source_id`.
pub open spec fn block_members(ws: Seq<Workspace>, source_id: Seq<char>, key: Seq<char>, n: int) -> Seq<Seq<char>>
    decreases n,
{
    if n <= 0 {
        Seq::empty()
    } else if ws[n - 1].id@ != source_id && in_space(ws[n - 1], key) {
        block_members(ws, source_id, key, n - 1).push(ws[n - 1].id@)
    } else {
        block_members(ws, source_id, key, n - 1)
    }
}

/// The first of the first `n` workspaces in space `key`.
pub open spec fn first_in_space(ws: Seq<Workspace>, key: Seq<char>, n: int) -> Option<int>
    decreases n,
{
    if n <= 0 {
        None
    } else {
        match first_in_space(ws, key, n - 1) {
            Some(i) => Some(i),
            None => if in_space(ws[n - 1], key) { Some(n - 1) } else { None },
        }
    }
}

/// The worktree-space key the dragged workspace carries along; Folders
/// view moves single rows.
pub open spec fn drag_group_key(view_mode: ViewMode, source: Workspace) -> Option<Seq<char>> {
    if view_mode == ViewMode::Folders {
        None
    } else {
        match source.worktree_space {
            Some(s) => Some(s.key@),
            None => None,
        }
    }
}

/// Dropping at workspace `insert` lands at the end: past the last
/// workspace, or onto a member of the dragged block itself.
pub open spec fn drops_at_end(ws: Seq<Workspace>, view_mode: ViewMode, source: usize, insert: usize) -> bool {
    ||| insert >= ws.len()
    ||| match (ws[insert as int].worktree_space, drag_group_key(view_mode, ws[source as int])) {
        (Some(t), Some(k)) => t.key@ == k,
        _ => false,
    }
}

/// The ids that move when workspace `source` is dragged: the workspace
/// alone in Folders view or outside any worktree space, else it and then
/// every other workspace of its space in sidebar order.
pub open spec fn moving_ids(ws: Seq<Workspace>, view_mode: ViewMode, source: usize) -> Seq<Seq<char>> {
    let src = ws[source as int];
    if view_mode == ViewMode::Folders {
        seq![src.id@]
    } else {
        match src.worktree_space {
            Some(sp) => seq![src.id@] + block_members(ws, src.id@, sp.key@, ws.len() as int),
            None => seq![src.id@],
        }
    }
}

/// The id a drop before workspace `insert` anchors to: the first workspace
/// of the target's space when the target sits in a parent group, else the
/// target itself.
pub open spec fn anchor_id(ws: Seq<Workspace>, insert: usize, target_in_parent_group: bool) -> Seq<char> {
    let t = ws[insert as int];
    match t.worktree_space {
        Some(ts) => if target_in_parent_group {
            match first_in_space(ws, ts.key@, ws.len() as int) {
                Some(a) => ws[a].id@,
                None => t.id@,
            }
        } else {
            t.id@
        },
        None => t.id@,
    }
}

/// The move a drag of workspace `source` dropped at workspace index
/// `insert` asks for, as (moving ids, id to land before): none when the
/// source does not exist, is a linked worktree that is not a drag root in
/// this view, is not among the drag `roots`, when the drop target is not a
/// root either, or when the block would land where it already is.
pub open spec fn move_block(
    ws: Seq<Workspace>,
    view_mode: ViewMode,
    roots: Seq<usize>,
    target_in_parent_group: bool,
    source: usize,
    insert: usize,
) -> Option<(Seq<Seq<char>>, Option<Seq<char>>)> {
    if source >= ws.len() {
        None
    } else if !(view_mode == ViewMode::Project || view_mode == ViewMode::Folders) && match ws[source as int].worktree_space {
        Some(s) => s.is_linked_worktree,
        None => false,
    } {
        None
    } else {
        match index_upto(roots, source, roots.len() as int) {
            None => None,
            Some(source_pos) => {
                let remaining = without_upto(roots, source, roots.len() as int);
                let end = drops_at_end(ws, view_mode, source, insert);
                let insert_pos = if end {
                    Some(remaining.len() as int)
                } else {
                    index_upto(remaining, insert, remaining.len() as int)
                };
                match insert_pos {
                    None => None,
                    Some(p) => if p == source_pos {
                        None
                    } else {
                        Some((
                            moving_ids(ws, view_mode, source),
                            if end { None } else { Some(anchor_id(ws, insert, target_in_parent_group)) },
                        ))
                    },
                }
            },
        }
    }
}

/// No two workspaces share an id.
pub open spec fn workspace_ids_distinct(ws: Seq<Workspace>) -> bool {
    forall|i: int, j: int| 0 <= i < j < ws.len() ==> ws[i].id@ != ws[j].id@
}

proof fn lemma_block_member(ws: Seq<Workspace>, source_id: Seq<char>, key: Seq<char>, n: int, id: Seq<char>)
    requires
        0 <= n <= ws.len(),
        block_members(ws, source_id, key, n).contains(id),
    ensures
        exists|j: int| 0 <= j < n && ws[j].id@ == id && id != source_id && in_space(#[trigger] ws[j], key),
    decreases n,
{
    if n > 0 {
        let prev = block_members(ws, source_id, key, n - 1);
        if ws[n - 1].id@ != source_id && in_space(ws[n - 1], key) {
            if prev.contains(id) {
                lemma_block_member(ws, source_id, key, n - 1, id);
            } else {
                assert(id == ws[n - 1].id@);
                assert(in_space(ws[n - 1], key));
            }
        } else {
            lemma_block_member(ws, source_id, key, n - 1, id);
        }
    }
}

proof fn lemma_removed_not_found(s: Seq<usize>, x: usize, n: int)
    requires
        0 <= n <= s.len(),
    ensures
        index_upto(without_upto(s, x, n), x, without_upto(s, x, n).len() as int) is None,
        forall|k: int| 0 <= k < without_upto(s, x, n).len() ==> #[trigger] without_upto(s, x, n)[k] != x,
    decreases n,
{
    if n > 0 {
        lemma_removed_not_found(s, x, n - 1);
    }
    let w = without_upto(s, x, n);
    lemma_not_found(w, x, w.len() as int);
}

proof fn lemma_not_found(s: Seq<usize>, x: usize, n: int)
    requires
        0 <= n <= s.len(),
        forall|k: int| 0 <= k < s.len() ==> #[trigger] s[k] != x,
    ensures
        index_upto(s, x, n) is None,
    decreases n,
{
    if n > 0 {
        lemma_not_found(s, x, n - 1);
    }
}

proof fn lemma_first_in_space_is_member(ws: Seq<Workspace>, key: Seq<char>, n: int)
    requires
        0 <= n <= ws.len(),
    ensures
        match first_in_space(ws, key, n) {
            Some(a) => 0 <= a < n && in_space(ws[a], key),
            None => true,
        },
    decreases n,
{
    if n > 0 {
        lemma_first_in_space_is_member(ws, key, n - 1);
    }
}

/// A drag outside Folders view never asks to land a block before one of
/// the workspaces it moves: the anchor lies outside the moving block.
pub proof fn law_move_never_lands_inside_itself(
    ws: Seq<Workspace>,
    view_mode: ViewMode,
    roots: Seq<usize>,
    target_in_parent_group: bool,
    source: usize,
    insert: usize,
)
    requires
        workspace_ids_distinct(ws),
        view_mode != ViewMode::Folders,
    ensures
        match move_block(ws, view_mode, roots, target_in_parent_group, source, insert) {
            Some((ids, Some(before))) => !ids.contains(before),
            _ => true,
        },
{
    match move_block(ws, view_mode, roots, target_in_parent_group, source, insert) {
        Some((ids, Some(before))) => {
            let src = ws[source as int];
            let t = ws[insert as int];
            lemma_removed_not_found(roots, source, roots.len() as int);
            assert(insert != source);
            lemma_first_in_space_is_member(ws, match t.worktree_space {
                Some(ts) => ts.key@,
                None => Seq::empty(),
            }, ws.len() as int);
            if ids.contains(before) {
                let k = choose|k: int| 0 <= k < ids.len() && ids[k] == before;
                // The workspace the anchor names.
                let a: int = match t.worktree_space {
                    Some(ts) => if target_in_parent_group {
                        match first_in_space(ws, ts.key@, ws.len() as int) {
                            Some(a) => a,
                            None => insert as int,
                        }
                    } else {
                        insert as int
                    },
                    None => insert as int,
                };
                assert(ws[a].id@ == before);
                if k == 0 {
                    assert(before == src.id@);
                    assert(a != source as int);
                } else {
                    match src.worktree_space {
                        Some(sp) => {
                            assert(ids == seq![src.id@] + block_members(ws, src.id@, sp.key@, ws.len() as int));
                            assert(block_members(ws, src.id@, sp.key@, ws.len() as int)[k - 1] == before);
                            lemma_block_member(ws, src.id@, sp.key@, ws.len() as int, before);
                            let j = choose|j: int| 0 <= j < ws.len() && ws[j].id@ == before
                                && before != src.id@ && in_space(#[trigger] ws[j], sp.key@);
                            assert(j == a);
                        },
                        None => {},
                    }
                }
            }
        },
        _ => {},
    }
}

fn index_of(s: &Vec<usize>, x: usize) -> (r: Option<usize>)
    ensures
        match r {
            Some(i) => index_upto(s@, x, s@.len() as int) == Some(i as int),
            None => index_upto(s@, x, s@.len() as int) is None,
        },
{
    let mut i: usize = 0;
    while i < s.len()
        invariant
            0 <= i <= s@.len(),
            index_upto(s@, x, i as int) is None,
        decreases s@.len() - i,
    {
        if s[i] == x {
            proof {
                lemma_index_found(s@, x, i as int, s@.len() as int);
            }
            return Some(i);
        }
        i = i + 1;
    }
    None
}

proof fn lemma_index_found(s: Seq<usize>, x: usize, i: int, n: int)
    requires
        0 <= i < n <= s.len(),
        index_upto(s, x, i) is None,
        s[i] == x,
    ensures
        index_upto(s, x, n) == Some(i),
    decreases n - i,
{
    if n > i + 1 {
        lemma_index_found(s, x, i, n - 1);
    }
}

fn without(s: &Vec<usize>, x: usize) -> (r: Vec<usize>)
    ensures
        r@ == without_upto(s@, x, s@.len() as int),
{
    let mut out: Vec<usize> = Vec::new();
    let mut i: usize = 0;
    while i < s.len()
        invariant
            0 <= i <= s@.len(),
            out@ == without_upto(s@, x, i as int),
        decreases s@.len() - i,
    {
        if s[i] != x {
            out.push(s[i]);
        }
        i = i + 1;
    }
    out
}

fn space_is(w: &Workspace, key: &str) -> (r: bool)
    ensures
        r == in_space(*w, key@),
{
    match &w.worktree_space {
        Some(s) => str_eq(s.key.as_str(), key),
        None => false,
    }
}

fn first_of_space(ws: &[Workspace], key: &str) -> (r: Option<usize>)
    ensures
        match r {
            Some(i) => i < ws@.len() && first_in_space(ws@, key@, ws@.len() as int) == Some(i as int),
            None => first_in_space(ws@, key@, ws@.len() as int) is None,
        },
{
    let mut i: usize = 0;
    while i < ws.len()
        invariant
            0 <= i <= ws@.len(),
            first_in_space(ws@, key@, i as int) is None,
        decreases ws@.len() - i,
    {
        if space_is(&ws[i], key) {
            proof {
                lemma_first_in_space_found(ws@, key@, i as int, ws@.len() as int);
            }
            return Some(i);
        }
        i = i + 1;
    }
    None
}

proof fn lemma_first_in_space_found(ws: Seq<Workspace>, key: Seq<char>, i: int, n: int)
    requires
        0 <= i < n <= ws.len(),
        first_in_space(ws, key, i) is None,
        in_space(ws[i], key),
    ensures
        first_in_space(ws, key, n) == Some(i),
    decreases n - i,
{
    if n > i + 1 {
        lemma_first_in_space_found(ws, key, i, n - 1);
    }
}

fn block_ids(ws: &[Workspace], source: usize, key: &str) -> (r: Vec<String>)
    requires
        source < ws@.len(),
    ensures
        views(r@) == seq![ws@[source as int].id@] + block_members(ws@, ws@[source as int].id@, key@, ws@.len() as int),
{
    let source_id = &ws[source].id;
    let mut out: Vec<String> = Vec::new();
    out.push(source_id.clone());
    let mut i: usize = 0;
    while i < ws.len()
        invariant
            0 <= i <= ws@.len(),
            source < ws@.len(),
            *source_id == ws@[source as int].id,
            views(out@) == seq![ws@[source as int].id@] + block_members(ws@, source_id@, key@, i as int),
        decreases ws@.len() - i,
    {
        if !str_eq(ws[i].id.as_str(), source_id.as_str()) && space_is(&ws[i], key) {
            let ghost before = out@;
            out.push(ws[i].id.clone());
            proof {
                assert(views(out@) =~= views(before).push(ws@[i as int].id@));
                assert(views(out@) =~= seq![ws@[source as int].id@] + block_members(ws@, source_id@, key@, i + 1));
            }
        }
        i = i + 1;
    }
    out
}

/// The block move a drag in the sidebar asks for. `source_ws_idx` is the
/// dragged workspace and `insert_idx` the workspace index the drop lands
/// before; `roots` are the workspace indices that head a draggable block in
/// the current layout, top to bottom, and `target_in_parent_group` tells
/// whether the drop target sits inside a repository parent group there.
///
/// `None` means nothing moves: the source does not exist, is a linked
/// worktree in a view that nests it under its main checkout, or heads no
/// block; the target heads no block; or the block would land where it is.
pub fn workspace_move_block_params(
    workspaces: &[Workspace],
    view_mode: ViewMode,
    roots: &Vec<usize>,
    target_in_parent_group: bool,
    source_ws_idx: usize,
    insert_idx: usize,
) -> (r: Option<WorkspaceMoveBlockParams>)
    ensures
        match r {
            Some(p) => move_block(workspaces@, view_mode, roots@, target_in_parent_group, source_ws_idx, insert_idx)
                == Some((views(p.workspace_ids@), opt_view(p.before_workspace_id))),
            None => move_block(workspaces@, view_mode, roots@, target_in_parent_group, source_ws_idx, insert_idx) is None,
        },
{
    if source_ws_idx >= workspaces.len() {
        return None;
    }
    let source = &workspaces[source_ws_idx];
    let nests_linked = !(view_mode == ViewMode::Project || view_mode == ViewMode::Folders);
    let source_linked = match &source.worktree_space {
        Some(s) => s.is_linked_worktree,
        None => false,
    };
    if nests_linked && source_linked {
        return None;
    }
    let source_pos = match index_of(roots, source_ws_idx) {
        Some(p) => p,
        None => return None,
    };
    let remaining = without(roots, source_ws_idx);
    let target_in_source_block = if insert_idx < workspaces.len() && view_mode != ViewMode::Folders {
        match (&workspaces[insert_idx].worktree_space, &source.worktree_space) {
            (Some(t), Some(k)) => str_eq(t.key.as_str(), k.key.as_str()),
            _ => false,
        }
    } else {
        false
    };
    let effective_end = insert_idx >= workspaces.len() || target_in_source_block;
    proof {
        assert(effective_end == drops_at_end(workspaces@, view_mode, source_ws_idx, insert_idx));
    }
    let insert_pos = if effective_end {
        remaining.len()
    } else {
        match index_of(&remaining, insert_idx) {
            Some(p) => p,
            None => return None,
        }
    };
    if insert_pos == source_pos {
        return None;
    }
    let workspace_ids = if view_mode == ViewMode::Folders {
        let mut ids: Vec<String> = Vec::new();
        ids.push(source.id.clone());
        proof {
            assert(views(ids@) =~= seq![source.id@]);
        }
        ids
    } else {
        match &source.worktree_space {
            Some(space) => block_ids(workspaces, source_ws_idx, space.key.as_str()),
            None => {
                let mut ids: Vec<String> = Vec::new();
                ids.push(source.id.clone());
                proof {
                    assert(views(ids@) =~= seq![source.id@]);
                }
                ids
            },
        }
    };
    let before_workspace_id = if effective_end {
        None
    } else {
        let target = &workspaces[insert_idx];
        let anchor = match &target.worktree_space {
            Some(ts) => if target_in_parent_group {
                match first_of_space(workspaces, ts.key.as_str()) {
                    Some(a) => workspaces[a].id.clone(),
                    None => target.id.clone(),
                }
            } else {
                target.id.clone()
            },
            None => target.id.clone(),
        };
        Some(anchor)
    };
    Some(WorkspaceMoveBlockParams { workspace_ids, before_workspace_id })
}

/// The checkout a workspace's commands run in: its worktree checkout,
/// else the directory it was opened on.
pub open spec fn checkout_of(w: Workspace) -> String {
    match w.worktree_space {
        Some(s) => s.checkout_path,
        None => w.identity_cwd,
    }
}

/// The key a workspace's port is allocated under: its branch, else the
/// last component of its checkout path, else nothing.
pub open spec fn port_key(w: Workspace) -> Seq<char> {
    match w.cached_git_branch {
        Some(b) => b@,
        None => match path_file_name(checkout_of(w)@) {
            Some(n) => n,
            None => Seq::empty(),
        },
    }
}

/// The first of the first `n` commands labelled `label`.
pub open spec fn first_labelled(cs: Seq<BoraCommand>, label: Seq<char>, n: int) -> Option<int>
    decreases n,
{
    if n <= 0 {
        None
    } else {
        match first_labelled(cs, label, n - 1) {
            Some(k) => Some(k),
            None => if cs[n - 1].label@ == label { Some(n - 1) } else { None },
        }
    }
}

/// The command a click on the COMMANDS band row `label` of workspace
/// `ws_idx` launches: the first cached command of that label, run in the
/// workspace with the port `port_for` allocates to its checkout under its
/// key (`port_for` takes the checkout path and the key). `None` when the
/// workspace does not exist, has no commands cached, or none of that label.
pub fn section_command_launch<P: Fn(&String, &String) -> Option<u16>>(
    workspaces: &[Workspace],
    ws_idx: usize,
    label: &str,
    port_for: &P,
) -> (r: Option<PendingBoraCommand>)
    requires
        forall|c: &String, k: &String| #[trigger] port_for.requires((c, k)),
    ensures
        match r {
            None => ws_idx >= workspaces@.len() || match workspaces@[ws_idx as int].cached_commands {
                Some(cs) => first_labelled(cs@, label@, cs@.len() as int) is None,
                None => true,
            },
            Some(p) => ws_idx < workspaces@.len() && match workspaces@[ws_idx as int].cached_commands {
                Some(cs) => match first_labelled(cs@, label@, cs@.len() as int) {
                    Some(k) => {
                        &&& p.ws_idx == ws_idx
                        &&& p.command == cs@[k].command
                        &&& p.mode == cs@[k].mode
                        &&& p.label == Some(cs@[k].label)
                        &&& exists|key: String| key@ == port_key(workspaces@[ws_idx as int])
                            && port_for.ensures((&checkout_of(workspaces@[ws_idx as int]), &key), p.port)
                    },
                    None => false,
                },
                None => false,
            },
        },
{
    if ws_idx >= workspaces.len() {
        return None;
    }
    let ws = &workspaces[ws_idx];
    let cs = match &ws.cached_commands {
        Some(cs) => cs,
        None => return None,
    };
    let mut k: usize = 0;
    while k < cs.len()
        invariant
            0 <= k <= cs@.len(),
            ws_idx < workspaces@.len(),
            *ws == workspaces@[ws_idx as int],
            ws.cached_commands == Some(*cs),
            forall|c: &String, k: &String| #[trigger] port_for.requires((c, k)),
            first_labelled(cs@, label@, k as int) is None,
        decreases cs@.len() - k,
    {
        if str_eq(cs[k].label.as_str(), label) {
            proof {
                lemma_first_labelled_found(cs@, label@, k as int, cs@.len() as int);
            }
            let checkout = match &ws.worktree_space {
                Some(s) => &s.checkout_path,
                None => &ws.identity_cwd,
            };
            let key = match &ws.cached_git_branch {
                Some(b) => b.clone(),
                None => match file_name(checkout.as_str()) {
                    Some(n) => n,
                    None => String::new(),
                },
            };
            let port = port_for(checkout, &key);
            return Some(PendingBoraCommand {
                ws_idx,
                command: cs[k].command.clone(),
                mode: cs[k].mode,
                port,
                label: Some(cs[k].label.clone()),
            });
        }
        k = k + 1;
    }
    None
}

proof fn lemma_first_labelled_found(cs: Seq<BoraCommand>, label: Seq<char>, i: int, n: int)
    requires
        0 <= i < n <= cs.len(),
        first_labelled(cs, label, i) is None,
        cs[i].label@ == label,
    ensures
        first_labelled(cs, label, n) == Some(i),
    decreases n - i,
{
    if n > i + 1 {
        lemma_first_labelled_found(cs, label, i, n - 1);
    }
}

/// Why a workspace cannot start a new or open-worktree action.
#[derive(Debug, Clone, Copy, PartialEq, Eq, Structural)]
pub enum WorktreeSourceError {
    WorkspaceNotFound,
    /// Worktree actions start from the repository's parent workspace.
    LinkedWorktree,
    /// The workspace is in no git work tree.
    NotInGitWorkTree,
}

impl WorktreeSourceError {
    /// The message shown for the error.
    pub fn message(self) -> (r: &'static str)
        ensures
            r@ == match self {
                WorktreeSourceError::WorkspaceNotFound => "Workspace not found."@,
                WorktreeSourceError::LinkedWorktree => "New and open worktree actions start from the repo parent workspace."@,
                WorktreeSourceError::NotInGitWorkTree => "Herdr worktree actions require a workspace inside a Git work tree."@,
            },
    {
        match self {
            WorktreeSourceError::WorkspaceNotFound => "Workspace not found.",
            WorktreeSourceError::LinkedWorktree => "New and open worktree actions start from the repo parent workspace.",
            WorktreeSourceError::NotInGitWorkTree => "Herdr worktree actions require a workspace inside a Git work tree.",
        }
    }
}

/// Where a new or opened worktree takes its repository from.
#[derive(Debug, Clone, PartialEq, Eq)]
pub struct WorktreeSource {
    pub existing_membership: Option<WorktreeSpaceMembership>,
    pub space: GitSpaceMetadata,
    pub source_checkout_path: String,
    pub source_workspace_id: String,
}

/// The git space a worktree-space membership stands for.
pub open spec fn space_of_membership(m: WorktreeSpaceMembership) -> GitSpaceMetadata {
    GitSpaceMetadata {
        key: m.key,
        repo_identity: m.key,
        checkout_key: m.checkout_path,
        label: m.label,
        repo_root: m.repo_root,
        is_linked_worktree: m.is_linked_worktree,
    }
}

/// The source of a worktree action started from a workspace with
/// membership `membership` and detected git space `detected`.
pub open spec fn worktree_source_of(
    ws: Workspace,
    detected: Option<GitSpaceMetadata>,
) -> Result<WorktreeSource, WorktreeSourceError> {
    if ws.worktree_space matches Some(m) && m.is_linked_worktree {
        Err(WorktreeSourceError::LinkedWorktree)
    } else if detected matches Some(g) && g.is_linked_worktree {
        Err(WorktreeSourceError::LinkedWorktree)
    } else {
        match ws.worktree_space {
            Some(m) => Ok(WorktreeSource {
                existing_membership: Some(m),
                space: space_of_membership(m),
                source_checkout_path: m.checkout_path,
                source_workspace_id: ws.id,
            }),
            None => match detected {
                Some(g) => Ok(WorktreeSource {
                    existing_membership: None,
                    space: g,
                    source_checkout_path: g.repo_root,
                    source_workspace_id: ws.id,
                }),
                None => Err(WorktreeSourceError::NotInGitWorkTree),
            },
        }
    }
}

pub(crate) fn clone_membership(m: &WorktreeSpaceMembership) -> (r: WorktreeSpaceMembership)
    ensures
        r == *m,
{
    WorktreeSpaceMembership {
        key: m.key.clone(),
        label: m.label.clone(),
        repo_root: m.repo_root.clone(),
        checkout_path: m.checkout_path.clone(),
        is_linked_worktree: m.is_linked_worktree,
    }
}

fn clone_git_space(g: &GitSpaceMetadata) -> (r: GitSpaceMetadata)
    ensures
        r == *g,
{
    GitSpaceMetadata {
        key: g.key.clone(),
        repo_identity: g.repo_identity.clone(),
        checkout_key: g.checkout_key.clone(),
        label: g.label.clone(),
        repo_root: g.repo_root.clone(),
        is_linked_worktree: g.is_linked_worktree,
    }
}

/// Where the new- and open-worktree dialogs of workspace `ws_idx` take
/// their repository from: its worktree-space membership when it has one,
/// else its git checkout (the cached one, or else the one `detect_git_space`
/// finds for its working directory). A linked worktree cannot be the
/// source; neither can a workspace outside any git work tree.
pub fn worktree_source_metadata<F: Fn() -> Option<GitSpaceMetadata>>(
    workspaces: &[Workspace],
    ws_idx: usize,
    detect_git_space: &F,
) -> (r: Result<WorktreeSource, WorktreeSourceError>)
    requires
        detect_git_space.requires(()),
    ensures
        ws_idx >= workspaces@.len() ==> r == Err::<WorktreeSource, WorktreeSourceError>(WorktreeSourceError::WorkspaceNotFound),
        ws_idx < workspaces@.len() ==> if workspaces@[ws_idx as int].worktree_space matches Some(m) && m.is_linked_worktree {
            r == Err::<WorktreeSource, WorktreeSourceError>(WorktreeSourceError::LinkedWorktree)
        } else {
            match workspaces@[ws_idx as int].cached_git_space {
                Some(g) => r == worktree_source_of(workspaces@[ws_idx as int], Some(g)),
                None => exists|detected: Option<GitSpaceMetadata>| #[trigger] detect_git_space.ensures((), detected)
                    && r == worktree_source_of(workspaces@[ws_idx as int], detected),
            }
        },
{
    if ws_idx >= workspaces.len() {
        return Err(WorktreeSourceError::WorkspaceNotFound);
    }
    let ws = &workspaces[ws_idx];
    let existing = match &ws.worktree_space {
        Some(m) => Some(clone_membership(m)),
        None => None,
    };
    if let Some(m) = &existing {
        if m.is_linked_worktree {
            return Err(WorktreeSourceError::LinkedWorktree);
        }
    }
    let detected = match &ws.cached_git_space {
        Some(g) => Some(clone_git_space(g)),
        None => detect_git_space(),
    };
    proof {
        if ws.cached_git_space is None {
            assert(detect_git_space.ensures((), detected));
        }
    }
    if let Some(g) = &detected {
        if g.is_linked_worktree {
            return Err(WorktreeSourceError::LinkedWorktree);
        }
    }
    match existing {
        Some(m) => {
            let space = GitSpaceMetadata {
                key: m.key.clone(),
                repo_identity: m.key.clone(),
                checkout_key: m.checkout_path.clone(),
                label: m.label.clone(),
                repo_root: m.repo_root.clone(),
                is_linked_worktree: m.is_linked_worktree,
            };
            let source_checkout_path = m.checkout_path.clone();
            Ok(WorktreeSource {
                existing_membership: Some(m),
                space,
                source_checkout_path,
                source_workspace_id: ws.id.clone(),
            })
        },
        None => match detected {
            Some(g) => {
                let source_checkout_path = g.repo_root.clone();
                Ok(WorktreeSource {
                    existing_membership: None,
                    space: g,
                    source_checkout_path,
                    source_workspace_id: ws.id.clone(),
                })
            },
            None => Err(WorktreeSourceError::NotInGitWorkTree),
        },
    }
}

} // verus!
