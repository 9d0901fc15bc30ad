//! `git worktree list --porcelain` output, and the port each worktree of a
//! repo is given.

use vstd::prelude::*;
use crate::text::{owned, str_eq, str_lt, seq_lt, chars_of, lemma_seq_lt_strict_total, char_string};
use crate::bora_config::BoraPortsConfig;

verus! {

broadcast use vstd::string::group_string_axioms;

/// One worktree git lists for a repo.
#[derive(Debug, Clone, PartialEq, Eq)]
pub struct ExistingWorktree {
    pub path: String,
    /// Checked-out branch without `refs/heads/`; `None` when detached.
    pub branch: Option<String>,
    pub is_bare: bool,
    pub is_prunable: bool,
}

/// A worktree as plain values: path, branch, bare, prunable.
pub open spec fn wt_view(w: ExistingWorktree) -> (Seq<char>, Option<Seq<char>>, bool, bool) {
    (w.path@, match w.branch {
        Some(b) => Some(b@),
        None => None,
    }, w.is_bare, w.is_prunable)
}

pub open spec fn wt_views(ws: Seq<ExistingWorktree>) -> Seq<(Seq<char>, Option<Seq<char>>, bool, bool)> {
    ws.map_values(|w: ExistingWorktree| wt_view(w))
}

/// `text` split at every `'\n'` (a trailing newline ends in an empty line).
pub open spec fn split_lines(text: Seq<char>) -> Seq<Seq<char>>
    decreases text.len(),
{
    if text.len() == 0 {
        seq![Seq::<char>::empty()]
    } else if text.last() == '\n' {
        split_lines(text.drop_last()).push(Seq::empty())
    } else {
        let ls = split_lines(text.drop_last());
        ls.update(ls.len() - 1, ls.last().push(text.last()))
    }
}

proof fn lemma_split_lines_nonempty(text: Seq<char>)
    ensures
        split_lines(text).len() >= 1,
    decreases text.len(),
{
    if text.len() > 0 {
        lemma_split_lines_nonempty(text.drop_last());
    }
}

/// `line` starts with `prefix`.
pub open spec fn starts_with(line: Seq<char>, prefix: Seq<char>) -> bool {
    prefix.len() <= line.len() && line.subrange(0, prefix.len() as int) == prefix
}

/// `line` after `prefix`.
pub open spec fn after(line: Seq<char>, prefix: Seq<char>) -> Seq<char> {
    line.subrange(prefix.len() as int, line.len() as int)
}

/// The branch named by a `branch <ref>` value: the ref without
/// `refs/heads/`.
pub open spec fn branch_name(r: Seq<char>) -> Seq<char> {
    if starts_with(r, "refs/heads/"@) {
        after(r, "refs/heads/"@)
    } else {
        r
    }
}

/// Parser state: the worktrees finished so far and the one being read.
pub open spec fn step(
    state: (Seq<(Seq<char>, Option<Seq<char>>, bool, bool)>, Option<(Seq<char>, Option<Seq<char>>, bool, bool)>),
    line: Seq<char>,
) -> (Seq<(Seq<char>, Option<Seq<char>>, bool, bool)>, Option<(Seq<char>, Option<Seq<char>>, bool, bool)>) {
    let (done, cur) = state;
    if starts_with(line, "worktree "@) {
        (finish(done, cur), Some((after(line, "worktree "@), None, false, false)))
    } else if line.len() == 0 {
        (finish(done, cur), None)
    } else {
        match cur {
            None => (done, None),
            Some(w) => if line == "bare"@ {
                (done, Some((w.0, w.1, true, w.3)))
            } else if starts_with(line, "branch "@) {
                (done, Some((w.0, Some(branch_name(after(line, "branch "@))), w.2, w.3)))
            } else if starts_with(line, "prunable"@) {
                (done, Some((w.0, w.1, w.2, true)))
            } else {
                (done, Some(w))
            },
        }
    }
}

pub open spec fn finish(
    done: Seq<(Seq<char>, Option<Seq<char>>, bool, bool)>,
    cur: Option<(Seq<char>, Option<Seq<char>>, bool, bool)>,
) -> Seq<(Seq<char>, Option<Seq<char>>, bool, bool)> {
    match cur {
        Some(w) => done.push(w),
        None => done,
    }
}

/// Parser state after the first `n` lines.
pub open spec fn parse_lines(
    lines: Seq<Seq<char>>,
    n: int,
) -> (Seq<(Seq<char>, Option<Seq<char>>, bool, bool)>, Option<(Seq<char>, Option<Seq<char>>, bool, bool)>)
    decreases n,
{
    if n <= 0 {
        (Seq::empty(), None)
    } else {
        step(parse_lines(lines, n - 1), lines[n - 1])
    }
}

/// The worktrees a porcelain listing describes: a record per `worktree`
/// line, closed by an empty line, the next record or the end; `bare`,
/// `branch <ref>` and `prunable` lines set its fields.
pub open spec fn porcelain_worktrees(text: Seq<char>) -> Seq<(Seq<char>, Option<Seq<char>>, bool, bool)> {
    let lines = split_lines(text);
    let st = parse_lines(lines, lines.len() as int);
    finish(st.0, st.1)
}

fn chars_starts_with(line: &Vec<char>, prefix: &str) -> (r: bool)
    ensures
        r == starts_with(line@, prefix@),
{
    let p = chars_of(prefix);
    if p.len() > line.len() {
        return false;
    }
    let mut i: usize = 0;
    while i < p.len()
        invariant
            p@ == prefix@,
            p.len() <= line.len(),
            i <= p.len(),
            forall|k: int| 0 <= k < i ==> line@[k] == p@[k],
        decreases p.len() - i,
    {
        if line[i] != p[i] {
            proof {
                assert(line@.subrange(0, p.len() as int)[i as int] != p@[i as int]);
            }
            return false;
        }
        i = i + 1;
    }
    assert(line@.subrange(0, p.len() as int) =~= p@);
    true
}

fn chars_after(line: &Vec<char>, n: usize) -> (r: String)
    requires
        n <= line.len(),
    ensures
        r@ == line@.subrange(n as int, line.len() as int),
{
    let mut r = String::new();
    let mut i = n;
    while i < line.len()
        invariant
            n <= i <= line.len(),
            r@ == line@.subrange(n as int, i as int),
        decreases line.len() - i,
    {
        let c = line[i];
        let s = char_string(c);
        r.append(s.as_str());
        assert(r@ =~= line@.subrange(n as int, i + 1));
        i = i + 1;
    }
    r
}

fn finish_exec(done: &mut Vec<ExistingWorktree>, cur: Option<ExistingWorktree>)
    ensures
        wt_views(final(done)@) == finish(wt_views(old(done)@), match cur {
            Some(w) => Some(wt_view(w)),
            None => None,
        }),
{
    match cur {
        Some(w) => {
            let ghost prev = done@;
            done.push(w);
            assert(wt_views(done@) =~= wt_views(prev).push(wt_view(w)));
        },
        None => {},
    }
}

/// Parses `git worktree list --porcelain` output.
pub fn parse_worktree_list_porcelain(text: &str) -> (r: Vec<ExistingWorktree>)
    ensures
        wt_views(r@) == porcelain_worktrees(text@),
{
    let chars = chars_of(text);
    let mut lines: Vec<Vec<char>> = Vec::new();
    lines.push(Vec::new());
    let mut i: usize = 0;
    while i < chars.len()
        invariant
            chars@ == text@,
            i <= chars.len(),
            lines@.len() >= 1,
            lines@.map_values(|l: Vec<char>| l@) == split_lines(text@.take(i as int)),
        decreases chars.len() - i,
    {
        let ghost before = lines@.map_values(|l: Vec<char>| l@);
        proof {
            assert(text@.take(i + 1).drop_last() =~= text@.take(i as int));
            assert(text@.take(i + 1).last() == chars@[i as int]);
        }
        if chars[i] == '\n' {
            lines.push(Vec::new());
            assert(lines@.map_values(|l: Vec<char>| l@) =~= before.push(Seq::empty()));
        } else {
            let last = lines.len() - 1;
            let mut l = lines.remove(last);
            l.push(chars[i]);
            lines.push(l);
            assert(lines@.map_values(|l: Vec<char>| l@) =~= before.update(before.len() - 1, before.last().push(chars@[i as int])));
        }
        i = i + 1;
    }
    proof {
        assert(text@.take(i as int) =~= text@);
    }
    let ghost ls = split_lines(text@);
    let mut done: Vec<ExistingWorktree> = Vec::new();
    let mut cur: Option<ExistingWorktree> = None;
    let mut j: usize = 0;
    while j < lines.len()
        invariant
            j <= lines.len(),
            lines@.map_values(|l: Vec<char>| l@) == ls,
            (wt_views(done@), match cur {
                Some(w) => Some(wt_view(w)),
                None => None,
            }) == parse_lines(ls, j as int),
        decreases lines.len() - j,
    {
        let line = &lines[j];
        assert(line@ == ls[j as int]);
        let ghost st = parse_lines(ls, j as int);
        assert(parse_lines(ls, j + 1) == step(st, line@));
        proof {
            reveal_strlit("worktree ");
            reveal_strlit("bare");
            reveal_strlit("branch ");
            reveal_strlit("prunable");
            reveal_strlit("refs/heads/");
        }
        if chars_starts_with(line, "worktree ") {
            let path = chars_after(line, 9);
            let prev = cur;
            cur = Some(ExistingWorktree { path, branch: None, is_bare: false, is_prunable: false });
            finish_exec(&mut done, prev);
        } else if line.len() == 0 {
            let prev = cur;
            cur = None;
            finish_exec(&mut done, prev);
        } else {
            match cur {
                None => {},
                Some(w) => {
                    let mut w = w;
                    let bare_line = line.len() == 4 && chars_starts_with(line, "bare");
                    proof {
                        if line@ == "bare"@ {
                            assert(line@.subrange(0, 4) =~= line@);
                        }
                        if bare_line {
                            assert(line@ =~= "bare"@);
                        }
                    }
                    if bare_line {
                        w.is_bare = true;
                    } else if chars_starts_with(line, "branch ") {
                        let r = chars_after(line, 7);
                        let rc = chars_of(r.as_str());
                        if chars_starts_with(&rc, "refs/heads/") {
                            w.branch = Some(chars_after(&rc, 11));
                        } else {
                            w.branch = Some(r);
                        }
                    } else if chars_starts_with(line, "prunable") {
                        w.is_prunable = true;
                    } else {
                        proof {
                            if line@ == "bare"@ {
                                assert(line@.len() == 4);
                            }
                        }
                    }
                    cur = Some(w);
                },
            }
        }
        assert((wt_views(done@), match cur {
            Some(w) => Some(wt_view(w)),
            None => None,
        }) == step(st, line@));
        j = j + 1;
    }
    finish_exec(&mut done, cur);
    done
}

/// Branch order of worktrees: detached (no branch) first, then by name.
pub open spec fn branch_lt(a: Option<Seq<char>>, b: Option<Seq<char>>) -> bool {
    match (a, b) {
        (None, Some(_)) => true,
        (Some(x), Some(y)) => seq_lt(x, y),
        _ => false,
    }
}

/// A linked worktree of the repo at `repo`: not bare, not the primary one.
pub open spec fn is_linked(w: (Seq<char>, Option<Seq<char>>, bool, bool), repo: Seq<char>) -> bool {
    !w.2 && w.0 != repo
}

/// Linked worktree `k` comes before worktree `j` when the linked worktrees
/// are sorted (stably) by branch.
pub open spec fn sorts_before(ws: Seq<(Seq<char>, Option<Seq<char>>, bool, bool)>, repo: Seq<char>, k: int, j: int) -> bool {
    is_linked(ws[k], repo) && (branch_lt(ws[k].1, ws[j].1) || (k < j && ws[k].1 == ws[j].1))
}

/// How many of the first `n` worktrees sort before worktree `j`.
pub open spec fn rank_upto(ws: Seq<(Seq<char>, Option<Seq<char>>, bool, bool)>, repo: Seq<char>, j: int, n: int) -> nat
    decreases n,
{
    if n <= 0 {
        0
    } else {
        rank_upto(ws, repo, j, n - 1) + if sorts_before(ws, repo, n - 1, j) { 1nat } else { 0nat }
    }
}

/// Position of worktree `j` among the linked worktrees sorted by branch.
pub open spec fn link_rank(ws: Seq<(Seq<char>, Option<Seq<char>>, bool, bool)>, repo: Seq<char>, j: int) -> nat {
    rank_upto(ws, repo, j, ws.len() as int)
}

/// Worktree `j` is a linked worktree checked out at `checkout`.
pub open spec fn linked_at(ws: Seq<(Seq<char>, Option<Seq<char>>, bool, bool)>, repo: Seq<char>, checkout: Seq<char>, j: int) -> bool {
    0 <= j < ws.len() && is_linked(ws[j], repo) && ws[j].0 == checkout
}

/// The checkout is the repo's primary worktree.
pub open spec fn primary_checkout(ws: Seq<(Seq<char>, Option<Seq<char>>, bool, bool)>, repo: Seq<char>, checkout: Seq<char>) -> bool {
    exists|j: int| 0 <= j < ws.len() && !(#[trigger] ws[j]).2 && ws[j].0 == repo && repo == checkout
}

/// The port of a linked worktree at branch-order position `i`:
/// `base + (i + 1) * per_worktree`, unless that passes `max` or `u16`.
pub open spec fn linked_port(cfg: BoraPortsConfig, i: nat) -> Option<u16> {
    let port = cfg.base + (i + 1) * cfg.per_worktree;
    if port > u16::MAX {
        None
    } else if cfg.max matches Some(m) && port > m {
        None
    } else {
        Some(port as u16)
    }
}

/// The port of the checkout at `checkout` in the repo at `repo`: `base` for
/// the primary worktree; for a linked worktree, `base + (i + 1) *
/// per_worktree` where `i` is its position among the linked worktrees
/// sorted by branch; `None` when that port passes `max`, and for a path
/// that is no worktree of the repo. Paths are compared as given (canonicalized by the
/// caller).
pub open spec fn allocated_port(
    cfg: BoraPortsConfig,
    repo: Seq<char>,
    checkout: Seq<char>,
    ws: Seq<(Seq<char>, Option<Seq<char>>, bool, bool)>,
) -> Option<u16> {
    if primary_checkout(ws, repo, checkout) {
        if cfg.max matches Some(m) && cfg.base > m {
            None
        } else {
            Some(cfg.base)
        }
    } else if exists|j: int| linked_at(ws, repo, checkout, j) {
        let j = choose|j: int| linked_at(ws, repo, checkout, j)
            && forall|k: int| linked_at(ws, repo, checkout, k) ==> link_rank(ws, repo, j) <= link_rank(ws, repo, k);
        linked_port(cfg, link_rank(ws, repo, j))
    } else {
        None
    }
}

/// Sorting the linked worktrees by branch (ties by listing order) is a
/// strict total order on them.
proof fn lemma_sorts_before_order(ws: Seq<(Seq<char>, Option<Seq<char>>, bool, bool)>, repo: Seq<char>, a: int, b: int, c: int)
    requires
        is_linked(ws[a], repo),
        is_linked(ws[b], repo),
    ensures
        !sorts_before(ws, repo, a, a),
        sorts_before(ws, repo, a, b) ==> !sorts_before(ws, repo, b, a),
        sorts_before(ws, repo, a, b) && sorts_before(ws, repo, b, c) ==> sorts_before(ws, repo, a, c),
        a != b ==> sorts_before(ws, repo, a, b) || sorts_before(ws, repo, b, a),
{
    let (x, y, z) = (ws[a].1, ws[b].1, ws[c].1);
    match (x, y, z) {
        (Some(p), Some(q), Some(r)) => {
            lemma_seq_lt_strict_total(p, q, r);
            lemma_seq_lt_strict_total(q, p, r);
        },
        (Some(p), Some(q), None) => {
            lemma_seq_lt_strict_total(p, q, q);
            lemma_seq_lt_strict_total(q, p, p);
        },
        (Some(p), None, Some(r)) => {
            lemma_seq_lt_strict_total(p, r, r);
            lemma_seq_lt_strict_total(p, p, p);
        },
        (None, Some(q), Some(r)) => {
            lemma_seq_lt_strict_total(q, r, r);
            lemma_seq_lt_strict_total(q, q, q);
        },
        (Some(p), None, None) => {
            lemma_seq_lt_strict_total(p, p, p);
        },
        (None, Some(q), None) => {
            lemma_seq_lt_strict_total(q, q, q);
        },
        (None, None, Some(r)) => {
            lemma_seq_lt_strict_total(r, r, r);
        },
        (None, None, None) => {},
    }
}

/// Whatever sorts before `a` sorts before `b` when `a` does, and `a`
/// itself counts for `b` only.
proof fn lemma_rank_gap(ws: Seq<(Seq<char>, Option<Seq<char>>, bool, bool)>, repo: Seq<char>, a: int, b: int, n: int)
    requires
        0 <= a < ws.len(),
        0 <= b < ws.len(),
        0 <= n <= ws.len(),
        is_linked(ws[a], repo),
        is_linked(ws[b], repo),
        sorts_before(ws, repo, a, b),
    ensures
        rank_upto(ws, repo, b, n) >= rank_upto(ws, repo, a, n) + if a < n { 1int } else { 0int },
    decreases n,
{
    if n > 0 {
        lemma_rank_gap(ws, repo, a, b, n - 1);
        let k = n - 1;
        if sorts_before(ws, repo, k, a) {
            lemma_sorts_before_order(ws, repo, k, a, b);
        }
        lemma_sorts_before_order(ws, repo, a, b, a);
    }
}

/// No allocated port passes the configured maximum, the primary
/// checkout's included.
pub proof fn law_allocated_ports_respect_max(
    cfg: BoraPortsConfig,
    repo: Seq<char>,
    checkout: Seq<char>,
    ws: Seq<(Seq<char>, Option<Seq<char>>, bool, bool)>,
)
    ensures
        match (allocated_port(cfg, repo, checkout, ws), cfg.max) {
            (Some(p), Some(m)) => p <= m,
            _ => true,
        },
{
}

/// Two distinct linked worktrees hold distinct positions in branch order,
/// so with a nonzero step they get distinct ports, none of them the
/// primary checkout's base port.
pub proof fn law_linked_worktrees_get_distinct_ports(
    cfg: BoraPortsConfig,
    ws: Seq<(Seq<char>, Option<Seq<char>>, bool, bool)>,
    repo: Seq<char>,
    j1: int,
    j2: int,
)
    requires
        0 <= j1 < ws.len(),
        0 <= j2 < ws.len(),
        j1 != j2,
        is_linked(ws[j1], repo),
        is_linked(ws[j2], repo),
    ensures
        link_rank(ws, repo, j1) != link_rank(ws, repo, j2),
        cfg.per_worktree > 0 ==> match (linked_port(cfg, link_rank(ws, repo, j1)), linked_port(cfg, link_rank(ws, repo, j2))) {
            (Some(p1), Some(p2)) => p1 != p2 && p1 != cfg.base && p2 != cfg.base,
            _ => true,
        },
{
    lemma_sorts_before_order(ws, repo, j1, j2, j1);
    if sorts_before(ws, repo, j1, j2) {
        lemma_rank_gap(ws, repo, j1, j2, ws.len() as int);
    } else {
        lemma_rank_gap(ws, repo, j2, j1, ws.len() as int);
    }
    let r1 = link_rank(ws, repo, j1) as int;
    let r2 = link_rank(ws, repo, j2) as int;
    let per = cfg.per_worktree as int;
    if per > 0 {
        assert((r1 + 1) * per != (r2 + 1) * per) by (nonlinear_arith)
            requires r1 != r2, per > 0;
        assert((r1 + 1) * per > 0) by (nonlinear_arith)
            requires r1 >= 0, per > 0;
        assert((r2 + 1) * per > 0) by (nonlinear_arith)
            requires r2 >= 0, per > 0;
    }
}

fn opt_str_eq(a: &Option<String>, b: &Option<String>) -> (r: bool)
    ensures
        r == (wt_branch(*a) == wt_branch(*b)),
{
    match (a, b) {
        (Some(x), Some(y)) => str_eq(x.as_str(), y.as_str()),
        (None, None) => true,
        _ => false,
    }
}

pub open spec fn wt_branch(b: Option<String>) -> Option<Seq<char>> {
    match b {
        Some(s) => Some(s@),
        None => None,
    }
}

fn branch_lt_exec(a: &Option<String>, b: &Option<String>) -> (r: bool)
    ensures
        r == branch_lt(wt_branch(*a), wt_branch(*b)),
{
    match (a, b) {
        (None, Some(_)) => true,
        (Some(x), Some(y)) => str_lt(x.as_str(), y.as_str()),
        _ => false,
    }
}

fn link_rank_exec(ws: &Vec<ExistingWorktree>, repo: &str, j: usize) -> (r: usize)
    requires
        j < ws.len(),
    ensures
        r == link_rank(wt_views(ws@), repo@, j as int),
{
    let ghost v = wt_views(ws@);
    let mut count: usize = 0;
    let mut k: usize = 0;
    while k < ws.len()
        invariant
            j < ws.len(),
            k <= ws.len(),
            v == wt_views(ws@),
            count == rank_upto(v, repo@, j as int, k as int),
            count <= k,
        decreases ws.len() - k,
    {
        let linked = !ws[k].is_bare && !str_eq(ws[k].path.as_str(), repo);
        if linked && (branch_lt_exec(&ws[k].branch, &ws[j].branch) || (k < j && opt_str_eq(&ws[k].branch, &ws[j].branch))) {
            count = count + 1;
        }
        k = k + 1;
    }
    count
}

/// The port allocated to the checkout at `checkout_path` among the repo's
/// worktrees `worktrees` (paths canonicalized by the caller).
pub fn port_for_worktrees(
    config: &BoraPortsConfig,
    repo_root: &str,
    checkout_path: &str,
    worktrees: &Vec<ExistingWorktree>,
) -> (r: Option<u16>)
    ensures
        r == allocated_port(*config, repo_root@, checkout_path@, wt_views(worktrees@)),
{
    let ghost v = wt_views(worktrees@);
    let mut i: usize = 0;
    while i < worktrees.len()
        invariant
            i <= worktrees.len(),
            v == wt_views(worktrees@),
            forall|k: int| 0 <= k < i ==> !(!(#[trigger] v[k]).2 && v[k].0 == repo_root@ && repo_root@ == checkout_path@),
        decreases worktrees.len() - i,
    {
        if !worktrees[i].is_bare && str_eq(worktrees[i].path.as_str(), repo_root) && str_eq(repo_root, checkout_path) {
            proof {
                assert(!v[i as int].2 && v[i as int].0 == repo_root@);
                assert(primary_checkout(v, repo_root@, checkout_path@));
            }
            match config.max {
                Some(m) => {
                    if config.base > m {
                        return None;
                    }
                },
                None => {},
            }
            return Some(config.base);
        }
        i = i + 1;
    }
    let mut best: Option<(usize, usize)> = None;
    let mut j: usize = 0;
    while j < worktrees.len()
        invariant
            j <= worktrees.len(),
            v == wt_views(worktrees@),
            match best {
                None => forall|k: int| 0 <= k < j ==> !linked_at(v, repo_root@, checkout_path@, k),
                Some((bj, br)) => bj < j && linked_at(v, repo_root@, checkout_path@, bj as int)
                    && br == link_rank(v, repo_root@, bj as int)
                    && forall|k: int| 0 <= k < j && linked_at(v, repo_root@, checkout_path@, k) ==> br <= link_rank(v, repo_root@, k),
            },
        decreases worktrees.len() - j,
    {
        if !worktrees[j].is_bare && !str_eq(worktrees[j].path.as_str(), repo_root) && str_eq(worktrees[j].path.as_str(), checkout_path) {
            let rank = link_rank_exec(worktrees, repo_root, j);
            match best {
                None => {
                    best = Some((j, rank));
                },
                Some((_, br)) => {
                    if rank < br {
                        best = Some((j, rank));
                    }
                },
            }
        }
        j = j + 1;
    }
    proof {
        assert(!primary_checkout(v, repo_root@, checkout_path@));
    }
    match best {
        None => None,
        Some((bj, br)) => {
            proof {
                let c = choose|c: int| linked_at(v, repo_root@, checkout_path@, c)
                    && forall|k: int| linked_at(v, repo_root@, checkout_path@, k) ==> link_rank(v, repo_root@, c) <= link_rank(v, repo_root@, k);
                assert(link_rank(v, repo_root@, c) <= link_rank(v, repo_root@, bj as int));
                assert(br <= link_rank(v, repo_root@, c));
            }
            let per = config.per_worktree as u128;
            let steps = br as u128 + 1;
            assert(steps * per <= 0x1_0000_0000_0000_0000u128 * 0x1_0000u128) by (nonlinear_arith)
                requires
                    steps <= 0x1_0000_0000_0000_0000u128,
                    per <= 0x1_0000u128,
            ;
            let port: u128 = config.base as u128 + steps * per;
            if port > 65535 {
                return None;
            }
            match config.max {
                Some(m) => {
                    if port > m as u128 {
                        return None;
                    }
                },
                None => {},
            }
            Some(port as u16)
        },
    }
}

} // verus!
