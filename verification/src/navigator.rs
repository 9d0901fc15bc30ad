//! The session navigator's body: which lines it draws for its rows, and how
//! a row and a line find each other.

use vstd::prelude::*;
use crate::menus::PaneId;

verus! {

/// What an agent in a pane is doing.
#[derive(Debug, Clone, Copy, PartialEq, Eq, Structural)]
pub enum AgentState {
    Idle,
    Working,
    Blocked,
    Done,
}

/// What a navigator row jumps to.
#[derive(Debug, Clone, PartialEq, Eq, Structural)]
pub enum NavigatorTarget {
    Workspace { ws_idx: usize },
    Tab { ws_idx: usize, tab_idx: usize },
    Pane { ws_idx: usize, tab_idx: usize, pane_id: PaneId },
}

/// One row of the navigator tree: a workspace, a tab or a pane.
#[derive(Debug, Clone, PartialEq, Eq)]
pub struct NavigatorRow {
    pub target: NavigatorTarget,
    pub depth: u8,
    pub label: String,
    pub meta: String,
    pub status: AgentState,
    pub seen: bool,
    pub is_current: bool,
    pub is_workspace: bool,
    pub is_tab: bool,
    pub expanded: bool,
    pub search_text: String,
    /// The row itself matched the active filter, rather than being shown as
    /// context for a match; always true when no filter is active.
    pub matched: bool,
}

/// One drawn line of the navigator body. Spacers separate workspace groups
/// and cannot be selected.
#[derive(Debug, Clone, Copy, PartialEq, Eq, Structural)]
pub enum NavigatorDisplayLine {
    Spacer,
    Row(usize),
}

/// Which rows open a workspace group.
pub open spec fn workspace_flags(rows: Seq<NavigatorRow>) -> Seq<bool> {
    rows.map_values(|r: NavigatorRow| r.is_workspace)
}

/// The lines drawn for the first `n` rows: each row on a line of its own,
/// with a spacer before every workspace row but the very first line.
#[verifier::opaque]
pub open spec fn nav_lines(flags: Seq<bool>, n: int) -> Seq<NavigatorDisplayLine>
    decreases n,
{
    if n <= 0 {
        Seq::empty()
    } else {
        let prev = nav_lines(flags, n - 1);
        let with_gap = if flags[n - 1] && prev.len() > 0 {
            prev.push(NavigatorDisplayLine::Spacer)
        } else {
            prev
        };
        with_gap.push(NavigatorDisplayLine::Row((n - 1) as usize))
    }
}

/// How many spacers come before row `i`: one for each workspace row after
/// the first row, up to and including `i`.
pub open spec fn spacers_through(flags: Seq<bool>, i: int) -> nat
    decreases i,
{
    if i <= 0 {
        0
    } else {
        spacers_through(flags, i - 1) + if flags[i] { 1nat } else { 0nat }
    }
}

/// The line on which row `i` is drawn.
pub open spec fn line_of_row(flags: Seq<bool>, i: int) -> int {
    i + spacers_through(flags, i)
}

/// The row on the first selectable line at or after line `start`.
pub open spec fn first_row_from(lines: Seq<NavigatorDisplayLine>, start: int) -> Option<usize>
    decreases lines.len() - start,
{
    if start < 0 || start >= lines.len() {
        None
    } else {
        match lines[start] {
            NavigatorDisplayLine::Row(i) => Some(i),
            NavigatorDisplayLine::Spacer => first_row_from(lines, start + 1),
        }
    }
}

/// A spacer at line `k` is followed by a selectable line.
pub open spec fn spacer_then_row(lines: Seq<NavigatorDisplayLine>, k: int) -> bool {
    0 <= k < lines.len() && lines[k] is Spacer ==> k + 1 < lines.len() && lines[k + 1] !is Spacer
}

/// One more row adds its line, after a spacer when it opens a workspace
/// group below earlier lines; earlier lines stay as they were.
proof fn lemma_nav_step(flags: Seq<bool>, n: int)
    requires
        0 < n <= flags.len(),
        flags.len() <= usize::MAX,
    ensures
        ({
            let prev = nav_lines(flags, n - 1);
            let cur = nav_lines(flags, n);
            let gap = flags[n - 1] && n > 1;
            &&& cur.len() == prev.len() + (if gap { 2int } else { 1int })
            &&& forall|k: int| 0 <= k < prev.len() ==> #[trigger] cur[k] == prev[k]
            &&& gap ==> cur[prev.len() as int] == NavigatorDisplayLine::Spacer
            &&& cur[cur.len() - 1] == NavigatorDisplayLine::Row((n - 1) as usize)
        }),
{
    reveal(nav_lines);
    if n > 1 {
        reveal_with_fuel(nav_lines, 2);
        assert(nav_lines(flags, n - 1).len() > 0);
    }
}

/// The shape of the navigator lines for the first `n` rows.
proof fn lemma_nav_lines(flags: Seq<bool>, n: int)
    requires
        0 <= n <= flags.len(),
        flags.len() <= usize::MAX,
    ensures
        ({
            let lines = nav_lines(flags, n);
            &&& lines.len() == if n == 0 { 0 } else { n + spacers_through(flags, n - 1) }
            &&& forall|i: int| 0 <= i < n ==> 0 <= #[trigger] line_of_row(flags, i) < lines.len()
                && lines[line_of_row(flags, i)] == NavigatorDisplayLine::Row(i as usize)
            &&& forall|k: int| 0 <= k < lines.len() && (#[trigger] lines[k]) is Row
                ==> lines[k]->0 < n && k == line_of_row(flags, lines[k]->0 as int)
            &&& forall|k: int| #[trigger] spacer_then_row(lines, k)
            &&& n > 0 ==> lines[lines.len() - 1] !is Spacer
            &&& n > 0 ==> lines[0] == NavigatorDisplayLine::Row(0)
        }),
    decreases n,
{
    if n == 0 {
        reveal(nav_lines);
    } else {
        lemma_nav_lines(flags, n - 1);
        lemma_nav_step(flags, n);
        let prev = nav_lines(flags, n - 1);
        let cur = nav_lines(flags, n);
        let gap = flags[n - 1] && n > 1;
        if n > 1 {
            assert(spacers_through(flags, n - 1)
                == spacers_through(flags, n - 2) + if flags[n - 1] { 1nat } else { 0nat });
        }
        assert(line_of_row(flags, n - 1) == cur.len() - 1);
        assert forall|i: int| 0 <= i < n implies 0 <= #[trigger] line_of_row(flags, i) < cur.len()
            && cur[line_of_row(flags, i)] == NavigatorDisplayLine::Row(i as usize) by {
            if i < n - 1 {
                assert(cur[line_of_row(flags, i)] == prev[line_of_row(flags, i)]);
            }
        }
        assert forall|k: int| 0 <= k < cur.len() && (#[trigger] cur[k]) is Row
            implies cur[k]->0 < n && k == line_of_row(flags, cur[k]->0 as int) by {
            if k < prev.len() {
                assert(cur[k] == prev[k]);
            }
        }
        assert forall|k: int| #[trigger] spacer_then_row(cur, k) by {
            if 0 <= k < prev.len() {
                assert(spacer_then_row(prev, k));
                assert(cur[k] == prev[k]);
                if k + 1 < prev.len() {
                    assert(cur[k + 1] == prev[k + 1]);
                }
            }
        }
        if n > 1 {
            assert(cur[0] == prev[0]);
        }
    }
}

/// Row `i` of `n` is drawn on line `line_of_row(i)`, and no other line
/// draws it; a row index past the rows is drawn nowhere.
pub proof fn law_each_row_has_one_line(rows: Seq<NavigatorRow>, i: usize)
    requires
        rows.len() <= usize::MAX,
    ensures
        i < rows.len() ==> {
            let lines = nav_lines(workspace_flags(rows), rows.len() as int);
            let k = line_of_row(workspace_flags(rows), i as int);
            &&& 0 <= k < lines.len()
            &&& lines[k] == NavigatorDisplayLine::Row(i)
            &&& forall|j: int| 0 <= j < lines.len() && j != k
                ==> lines[j] != NavigatorDisplayLine::Row(i)
        },
        i >= rows.len() ==> forall|j: int|
            0 <= j < nav_lines(workspace_flags(rows), rows.len() as int).len()
            ==> #[trigger] nav_lines(workspace_flags(rows), rows.len() as int)[j]
                != NavigatorDisplayLine::Row(i),
{
    let flags = workspace_flags(rows);
    lemma_nav_lines(flags, rows.len() as int);
}

/// Spacers only separate rows: the body never starts or ends with one, and
/// a spacer only stands before a workspace row, so from any line of the
/// body a selectable row can be reached by moving down.
pub proof fn law_spacers_separate_workspaces(rows: Seq<NavigatorRow>, start: int)
    requires
        rows.len() <= usize::MAX,
        0 <= start < nav_lines(workspace_flags(rows), rows.len() as int).len(),
    ensures
        nav_lines(workspace_flags(rows), rows.len() as int)[0] == NavigatorDisplayLine::Row(0),
        first_row_from(nav_lines(workspace_flags(rows), rows.len() as int), start) is Some,
        forall|i: int| 0 < i < rows.len() && rows[i].is_workspace ==>
            nav_lines(workspace_flags(rows), rows.len() as int)[
                #[trigger] line_of_row(workspace_flags(rows), i) - 1]
                == NavigatorDisplayLine::Spacer,
{
    let flags = workspace_flags(rows);
    let n = rows.len() as int;
    let lines = nav_lines(flags, n);
    lemma_nav_lines(flags, n);
    reveal_with_fuel(first_row_from, 2);
    match lines[start] {
        NavigatorDisplayLine::Row(_) => {},
        NavigatorDisplayLine::Spacer => {
            assert(spacer_then_row(lines, start));
        },
    }
    assert forall|i: int| 0 < i < rows.len() && rows[i].is_workspace implies lines[
        #[trigger] line_of_row(flags, i) - 1] == NavigatorDisplayLine::Spacer by {
        lemma_spacer_before(flags, i + 1);
        lemma_nav_lines(flags, i + 1);
        lemma_nav_prefix(flags, i + 1, n);
    }
}

/// In the lines of the first `m` rows, a workspace row `m - 1` (not the
/// first) is preceded by a spacer.
proof fn lemma_spacer_before(flags: Seq<bool>, m: int)
    requires
        1 < m <= flags.len(),
        flags.len() <= usize::MAX,
        flags[m - 1],
    ensures
        nav_lines(flags, m)[line_of_row(flags, m - 1) - 1] == NavigatorDisplayLine::Spacer,
{
    lemma_nav_lines(flags, m - 1);
    lemma_nav_lines(flags, m);
}

/// The lines of a shorter prefix of rows are a prefix of the lines.
proof fn lemma_nav_prefix(flags: Seq<bool>, m: int, n: int)
    requires
        0 <= m <= n <= flags.len(),
        flags.len() <= usize::MAX,
    ensures
        nav_lines(flags, m).len() <= nav_lines(flags, n).len(),
        forall|k: int| 0 <= k < nav_lines(flags, m).len()
            ==> #[trigger] nav_lines(flags, n)[k] == nav_lines(flags, m)[k],
    decreases n - m,
{
    if m < n {
        lemma_nav_prefix(flags, m, n - 1);
        lemma_nav_step(flags, n);
        let prev = nav_lines(flags, n - 1);
        let cur = nav_lines(flags, n);
        assert forall|k: int| 0 <= k < nav_lines(flags, m).len()
            implies #[trigger] cur[k] == nav_lines(flags, m)[k] by {
            assert(cur[k] == prev[k]);
        }
    }
}

/// The lines the navigator body draws for `rows`, in order.
pub fn navigator_display_lines(rows: &[NavigatorRow]) -> (r: Vec<NavigatorDisplayLine>)
    ensures
        r@ == nav_lines(workspace_flags(rows@), rows@.len() as int),
{
    let ghost flags = workspace_flags(rows@);
    let mut lines: Vec<NavigatorDisplayLine> = Vec::new();
    let mut idx: usize = 0;
    proof {
        reveal(nav_lines);
    }
    while idx < rows.len()
        invariant
            0 <= idx <= rows.len(),
            flags == workspace_flags(rows@),
            lines@ == nav_lines(flags, idx as int),
        decreases rows.len() - idx,
    {
        proof {
            lemma_nav_lines(flags, idx as int);
        }
        if rows[idx].is_workspace && lines.len() > 0 {
            lines.push(NavigatorDisplayLine::Spacer);
        }
        lines.push(NavigatorDisplayLine::Row(idx));
        proof {
            lemma_nav_step(flags, idx + 1);
            assert(lines@ =~= nav_lines(flags, idx + 1));
        }
        idx = idx + 1;
    }
    lines
}

/// The first line that draws row `row_idx`, if any does.
pub fn navigator_display_index_of_row(lines: &[NavigatorDisplayLine], row_idx: usize) -> (r: Option<usize>)
    ensures
        match r {
            Some(k) => k < lines@.len() && lines@[k as int] == NavigatorDisplayLine::Row(row_idx)
                && forall|j: int| 0 <= j < k ==> lines@[j] != NavigatorDisplayLine::Row(row_idx),
            None => forall|j: int| 0 <= j < lines@.len() ==> lines@[j] != NavigatorDisplayLine::Row(row_idx),
        },
{
    let mut k: usize = 0;
    while k < lines.len()
        invariant
            0 <= k <= lines.len(),
            forall|j: int| 0 <= j < k ==> lines@[j] != NavigatorDisplayLine::Row(row_idx),
        decreases lines.len() - k,
    {
        if lines[k] == NavigatorDisplayLine::Row(row_idx) {
            return Some(k);
        }
        k = k + 1;
    }
    None
}

/// The row on the first selectable line at or after `line_idx`; `None` when
/// only spacers follow, or `line_idx` lies past the end.
pub fn navigator_first_row_at_or_after(lines: &[NavigatorDisplayLine], line_idx: usize) -> (r: Option<usize>)
    ensures
        r == first_row_from(lines@, line_idx as int),
{
    if line_idx > lines.len() {
        return None;
    }
    let mut k: usize = line_idx;
    while k < lines.len()
        invariant
            line_idx <= k <= lines.len(),
            first_row_from(lines@, line_idx as int) == first_row_from(lines@, k as int),
        decreases lines.len() - k,
    {
        match lines[k] {
            NavigatorDisplayLine::Row(idx) => {
                return Some(idx);
            },
            NavigatorDisplayLine::Spacer => {},
        }
        k = k + 1;
    }
    None
}

} // verus!
