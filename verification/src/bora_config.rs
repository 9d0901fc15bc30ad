//! Per-repository command configuration: wt's `[scripts.run.*]` layers
//! merged with the deprecated `.bora.toml` `[[commands]]`, the per-repo load
//! cache, and per-worktree port allocation.

use vstd::prelude::*;
use crate::text::{owned, concat, str_eq, str_lt, str_is_blank, is_blank, seq_lt, views,
    lemma_seq_lt_strict_total};

verus! {

broadcast use vstd::string::group_string_axioms;

/// How a repo command runs.
#[derive(Debug, Clone, Copy, PartialEq, Eq, Structural)]
pub enum BoraCommandMode {
    /// In the background (the default).
    Shell,
    /// In a split pane.
    Pane,
}

impl Default for BoraCommandMode {
    fn default() -> (r: Self)
        ensures
            r == BoraCommandMode::Shell,
    {
        BoraCommandMode::Shell
    }
}

/// One repo command.
#[derive(Debug, Clone, PartialEq, Eq)]
pub struct BoraCommand {
    pub label: String,
    pub command: String,
    pub mode: BoraCommandMode,
    /// When set, the command only appears on a workspace on this branch.
    pub branch: Option<String>,
}

/// A command as plain values: label, command line, mode, branch filter.
pub open spec fn cmd_view(c: BoraCommand) -> (Seq<char>, Seq<char>, BoraCommandMode, Option<Seq<char>>) {
    (c.label@, c.command@, c.mode, match c.branch {
        Some(b) => Some(b@),
        None => None,
    })
}

pub open spec fn cmd_views(cs: Seq<BoraCommand>) -> Seq<(Seq<char>, Seq<char>, BoraCommandMode, Option<Seq<char>>)> {
    cs.map_values(|c: BoraCommand| cmd_view(c))
}

/// `[ports]`: port allocation for the repo's worktrees.
#[derive(Debug, Clone, Copy, PartialEq, Eq, Structural)]
pub struct BoraPortsConfig {
    pub base: u16,
    pub per_worktree: u16,
    /// Inclusive upper bound; a port past it is not allocated.
    pub max: Option<u16>,
}

/// `per_worktree` when `[ports]` leaves it out.
pub fn default_per_worktree() -> (r: u16)
    ensures
        r == 10,
{
    10
}

/// `[flow]`: per-repo override of the flow command template.
#[derive(Debug, Clone, Default)]
pub struct BoraFlowConfig {
    pub command: Option<String>,
}

/// A repo's command/config surface.
#[derive(Debug, Clone, Default)]
pub struct BoraConfig {
    pub ports: Option<BoraPortsConfig>,
    pub commands: Vec<BoraCommand>,
    pub flow: Option<BoraFlowConfig>,
}

pub open spec fn opt_view(o: Option<String>) -> Option<Seq<char>> {
    match o {
        Some(s) => Some(s@),
        None => None,
    }
}

/// A configuration as plain values.
pub open spec fn config_view(c: BoraConfig) -> (Option<BoraPortsConfig>, Seq<(Seq<char>, Seq<char>, BoraCommandMode, Option<Seq<char>>)>, Option<Option<Seq<char>>>) {
    (c.ports, cmd_views(c.commands@), match c.flow {
        Some(f) => Some(opt_view(f.command)),
        None => None,
    })
}

pub open spec fn opt_config_view(c: Option<BoraConfig>) -> Option<(Option<BoraPortsConfig>, Seq<(Seq<char>, Seq<char>, BoraCommandMode, Option<Seq<char>>)>, Option<Option<Seq<char>>>)> {
    match c {
        Some(c) => Some(config_view(c)),
        None => None,
    }
}

pub fn clone_opt_string(o: &Option<String>) -> (r: Option<String>)
    ensures
        opt_view(r) == opt_view(*o),
{
    match o {
        Some(s) => Some(owned(s.as_str())),
        None => None,
    }
}

pub fn clone_command(c: &BoraCommand) -> (r: BoraCommand)
    ensures
        cmd_view(r) == cmd_view(*c),
{
    BoraCommand {
        label: owned(c.label.as_str()),
        command: owned(c.command.as_str()),
        mode: c.mode,
        branch: clone_opt_string(&c.branch),
    }
}

pub fn clone_commands(cs: &Vec<BoraCommand>) -> (r: Vec<BoraCommand>)
    ensures
        cmd_views(r@) == cmd_views(cs@),
{
    let mut r: Vec<BoraCommand> = Vec::new();
    let mut i: usize = 0;
    while i < cs.len()
        invariant
            i <= cs.len(),
            cmd_views(r@) == cmd_views(cs@.take(i as int)),
        decreases cs.len() - i,
    {
        let ghost prev = r@;
        r.push(clone_command(&cs[i]));
        proof {
            assert(cmd_views(r@) =~= cmd_views(prev).push(cmd_view(cs@[i as int])));
            assert(cmd_views(cs@.take(i + 1)) =~= cmd_views(cs@.take(i as int)).push(cmd_view(cs@[i as int])));
        }
        i = i + 1;
    }
    proof {
        assert(cs@.take(i as int) =~= cs@);
    }
    r
}

pub fn clone_config(c: &BoraConfig) -> (r: BoraConfig)
    ensures
        config_view(r) == config_view(*c),
{
    BoraConfig {
        ports: c.ports,
        commands: clone_commands(&c.commands),
        flow: match &c.flow {
            Some(f) => Some(BoraFlowConfig { command: clone_opt_string(&f.command) }),
            None => None,
        },
    }
}

pub fn clone_opt_config(c: &Option<BoraConfig>) -> (r: Option<BoraConfig>)
    ensures
        opt_config_view(r) == opt_config_view(*c),
{
    match c {
        Some(c) => Some(clone_config(c)),
        None => None,
    }
}

/// `c` is shown on a workspace whose branch is `branch`: a command with no
/// branch filter everywhere, a filtered one only on that branch.
pub open spec fn shown_on_branch(c: BoraCommand, branch: Option<Seq<char>>) -> bool {
    match c.branch {
        None => true,
        Some(b) => branch == Some(b@),
    }
}

/// The commands of `cs` shown on `branch`, in order.
pub open spec fn commands_on_branch(cs: Seq<BoraCommand>, branch: Option<Seq<char>>) -> Seq<BoraCommand>
    decreases cs.len(),
{
    if cs.len() == 0 {
        Seq::empty()
    } else if shown_on_branch(cs.last(), branch) {
        commands_on_branch(cs.drop_last(), branch).push(cs.last())
    } else {
        commands_on_branch(cs.drop_last(), branch)
    }
}

/// Repo commands scoped to a workspace's branch: the config's commands
/// whose branch filter is absent or names `branch`; none without a config.
pub fn commands_for_branch(config: Option<BoraConfig>, branch: Option<&str>) -> (r: Vec<BoraCommand>)
    ensures
        match config {
            Some(c) => cmd_views(r@) == cmd_views(commands_on_branch(c.commands@, match branch {
                Some(b) => Some(b@),
                None => None,
            })),
            None => r@.len() == 0,
        },
{
    let config = match config {
        Some(c) => c,
        None => {
            return Vec::new();
        },
    };
    let ghost bview: Option<Seq<char>> = match branch {
        Some(b) => Some(b@),
        None => None,
    };
    let cs = config.commands;
    let mut r: Vec<BoraCommand> = Vec::new();
    let mut i: usize = 0;
    while i < cs.len()
        invariant
            i <= cs.len(),
            bview == match branch {
                Some(b) => Some(b@),
                None => None,
            },
            cmd_views(r@) == cmd_views(commands_on_branch(cs@.take(i as int), bview)),
        decreases cs.len() - i,
    {
        let c = &cs[i];
        let shown = match &c.branch {
            None => true,
            Some(b) => match branch {
                Some(w) => str_eq(w, b.as_str()),
                None => false,
            },
        };
        let ghost prev = r@;
        if shown {
            r.push(clone_command(c));
            proof {
                assert(cmd_views(r@) =~= cmd_views(prev).push(cmd_view(cs@[i as int])));
            }
        }
        proof {
            assert(cs@.take(i + 1).drop_last() =~= cs@.take(i as int));
            assert(shown == shown_on_branch(cs@[i as int], bview));
            assert(cmd_views(commands_on_branch(cs@.take(i + 1), bview)) =~= if shown {
                cmd_views(commands_on_branch(cs@.take(i as int), bview)).push(cmd_view(cs@[i as int]))
            } else {
                cmd_views(commands_on_branch(cs@.take(i as int), bview))
            });
        }
        i = i + 1;
    }
    proof {
        assert(cs@.take(i as int) =~= cs@);
    }
    r
}

/// One `[scripts.run.<id>]` entry. Every field is optional so a higher
/// precedence settings file can overlay single fields of an id.
#[derive(Debug, Clone, Default)]
pub struct WtRunScript {
    pub command: Option<String>,
    pub args: Option<Vec<String>>,
    pub hide: Option<bool>,
}

/// A script as plain values.
pub open spec fn script_view(s: WtRunScript) -> (Option<Seq<char>>, Option<Seq<Seq<char>>>, Option<bool>) {
    (opt_view(s.command), match s.args {
        Some(a) => Some(views(a@)),
        None => None,
    }, s.hide)
}

/// The script with no field set.
pub open spec fn empty_script_view() -> (Option<Seq<char>>, Option<Seq<Seq<char>>>, Option<bool>) {
    (None, None, None)
}

/// `base` with every field `layer` sets replaced by the layer's value.
pub open spec fn overlay(
    base: (Option<Seq<char>>, Option<Seq<Seq<char>>>, Option<bool>),
    layer: (Option<Seq<char>>, Option<Seq<Seq<char>>>, Option<bool>),
) -> (Option<Seq<char>>, Option<Seq<Seq<char>>>, Option<bool>) {
    (
        if layer.0 is Some { layer.0 } else { base.0 },
        if layer.1 is Some { layer.1 } else { base.1 },
        if layer.2 is Some { layer.2 } else { base.2 },
    )
}

/// A script under its id.
#[derive(Debug, Clone)]
pub struct ScriptEntry {
    pub id: String,
    pub script: WtRunScript,
}

/// `[scripts.run]` as a table ordered by id, each id once (the order a
/// `BTreeMap<String, _>` iterates in).
#[derive(Debug, Clone)]
pub struct ScriptTable {
    pub entries: Vec<ScriptEntry>,
}

/// Ids strictly increasing.
pub open spec fn table_sorted(es: Seq<ScriptEntry>) -> bool {
    forall|i: int, j: int| 0 <= i < j < es.len() ==> seq_lt(#[trigger] es[i].id@, #[trigger] es[j].id@)
}

/// The script under `id`, if the table has one.
pub open spec fn lookup(es: Seq<ScriptEntry>, id: Seq<char>) -> Option<(Option<Seq<char>>, Option<Seq<Seq<char>>>, Option<bool>)> {
    if exists|i: int| 0 <= i < es.len() && (#[trigger] es[i]).id@ == id {
        Some(script_view(es[choose|i: int| 0 <= i < es.len() && (#[trigger] es[i]).id@ == id].script))
    } else {
        None
    }
}

proof fn lemma_lookup_at(es: Seq<ScriptEntry>, i: int)
    requires
        table_sorted(es),
        0 <= i < es.len(),
    ensures
        lookup(es, es[i].id@) == Some(script_view(es[i].script)),
{
    let j = choose|j: int| 0 <= j < es.len() && (#[trigger] es[j]).id@ == es[i].id@;
    if j != i {
        lemma_seq_lt_strict_total(es[i].id@, es[j].id@, es[i].id@);
        if j < i {
            assert(seq_lt(es[j].id@, es[i].id@));
        } else {
            assert(seq_lt(es[i].id@, es[j].id@));
        }
    }
}

/// The table after one layer is merged in: per id, the layer's fields over
/// the accumulated ones (an id new to the table starts from no fields).
pub open spec fn merged(
    acc: Option<(Option<Seq<char>>, Option<Seq<Seq<char>>>, Option<bool>)>,
    layer: Option<(Option<Seq<char>>, Option<Seq<Seq<char>>>, Option<bool>)>,
) -> Option<(Option<Seq<char>>, Option<Seq<Seq<char>>>, Option<bool>)> {
    match layer {
        None => acc,
        Some(l) => Some(overlay(match acc {
            Some(a) => a,
            None => empty_script_view(),
        }, l)),
    }
}

pub fn clone_args(a: &Option<Vec<String>>) -> (r: Option<Vec<String>>)
    ensures
        match (r, *a) {
            (Some(x), Some(y)) => views(x@) == views(y@),
            (None, None) => true,
            _ => false,
        },
{
    match a {
        Some(v) => Some(crate::text::clone_strs(v.as_slice())),
        None => None,
    }
}

fn overlay_script(base: WtRunScript, layer: &WtRunScript) -> (r: WtRunScript)
    ensures
        script_view(r) == overlay(script_view(base), script_view(*layer)),
{
    let mut out = base;
    if layer.command.is_some() {
        out.command = clone_opt_string(&layer.command);
    }
    if layer.args.is_some() {
        out.args = clone_args(&layer.args);
    }
    if layer.hide.is_some() {
        out.hide = layer.hide;
    }
    out
}

impl ScriptTable {
    /// The empty table.
    pub fn new() -> (r: Self)
        ensures
            r.entries@.len() == 0,
            table_sorted(r.entries@),
    {
        ScriptTable { entries: Vec::new() }
    }

    /// Sets `script`'s fields under `id`, over whatever the table already
    /// holds there (on an id new to the table, exactly `script`).
    pub fn merge(&mut self, id: &str, script: &WtRunScript)
        requires
            table_sorted(old(self).entries@),
        ensures
            table_sorted(final(self).entries@),
            forall|k: Seq<char>| #[trigger] lookup(final(self).entries@, k) == if k == id@ {
                merged(lookup(old(self).entries@, k), Some(script_view(*script)))
            } else {
                lookup(old(self).entries@, k)
            },
    {
        merge_entry(self, id, script);
    }
}

/// Merges one `(id, script)` pair into the table.
fn merge_entry(acc: &mut ScriptTable, id: &str, script: &WtRunScript)
    requires
        table_sorted(old(acc).entries@),
    ensures
        table_sorted(final(acc).entries@),
        forall|k: Seq<char>| #[trigger] lookup(final(acc).entries@, k) == if k == id@ {
            merged(lookup(old(acc).entries@, k), Some(script_view(*script)))
        } else {
            lookup(old(acc).entries@, k)
        },
{
    let ghost es = acc.entries@;
    let mut p: usize = 0;
    while p < acc.entries.len() && str_lt(acc.entries[p].id.as_str(), id)
        invariant
            p <= acc.entries.len(),
            es == acc.entries@,
            table_sorted(es),
            forall|k: int| 0 <= k < p ==> seq_lt(#[trigger] es[k].id@, id@),
        decreases acc.entries.len() - p,
    {
        p = p + 1;
    }
    if p < acc.entries.len() && str_eq(acc.entries[p].id.as_str(), id) {
        let entry = acc.entries.remove(p);
        let ghost old_script = entry.script;
        let updated = ScriptEntry { id: entry.id, script: overlay_script(entry.script, script) };
        acc.entries.insert(p, updated);
        proof {
            let t = acc.entries@;
            assert(t =~= es.update(p as int, t[p as int]));
            assert forall|i: int, j: int| 0 <= i < j < t.len() implies seq_lt(#[trigger] t[i].id@, #[trigger] t[j].id@) by {
                assert(t[i].id@ == es[i].id@);
                assert(t[j].id@ == es[j].id@);
            }
            lemma_lookup_at(es, p as int);
            lemma_lookup_at(t, p as int);
            assert forall|k: Seq<char>| #[trigger] lookup(t, k) == if k == id@ {
                merged(lookup(es, k), Some(script_view(*script)))
            } else {
                lookup(es, k)
            } by {
                if k != id@ {
                    if exists|i: int| 0 <= i < es.len() && (#[trigger] es[i]).id@ == k {
                        let i = choose|i: int| 0 <= i < es.len() && (#[trigger] es[i]).id@ == k;
                        lemma_lookup_at(es, i);
                        lemma_lookup_at(t, i);
                    }
                    if exists|i: int| 0 <= i < t.len() && (#[trigger] t[i]).id@ == k {
                        let i = choose|i: int| 0 <= i < t.len() && (#[trigger] t[i]).id@ == k;
                        assert(es[i].id@ == k);
                    }
                }
            }
        }
        return;
    }
    let fresh = ScriptEntry { id: owned(id), script: overlay_script(WtRunScript { command: None, args: None, hide: None }, script) };
    acc.entries.insert(p, fresh);
    proof {
        let t = acc.entries@;
        assert(t =~= es.subrange(0, p as int).push(t[p as int]) + es.subrange(p as int, es.len() as int));
        if p < es.len() {
            lemma_seq_lt_strict_total(es[p as int].id@, id@, id@);
            assert(seq_lt(id@, es[p as int].id@));
        }
        assert forall|i: int, j: int| 0 <= i < j < t.len() implies seq_lt(#[trigger] t[i].id@, #[trigger] t[j].id@) by {
            if i < p && j > p {
                assert(t[j] == es[j - 1]);
                lemma_seq_lt_strict_total(es[i].id@, id@, es[j - 1].id@);
                if j - 1 > p {
                    lemma_seq_lt_strict_total(id@, es[p as int].id@, es[j - 1].id@);
                }
            } else if i == p && j > p {
                assert(t[j] == es[j - 1]);
                if j - 1 > p {
                    lemma_seq_lt_strict_total(id@, es[p as int].id@, es[j - 1].id@);
                }
            } else if i > p {
                assert(t[i] == es[i - 1]);
                assert(t[j] == es[j - 1]);
            }
        }
        assert(!(exists|i: int| 0 <= i < es.len() && (#[trigger] es[i]).id@ == id@)) by {
            if exists|i: int| 0 <= i < es.len() && (#[trigger] es[i]).id@ == id@ {
                let i = choose|i: int| 0 <= i < es.len() && (#[trigger] es[i]).id@ == id@;
                if i < p {
                    lemma_seq_lt_strict_total(es[i].id@, id@, id@);
                } else if i > p {
                    assert(seq_lt(es[p as int].id@, es[i].id@));
                    lemma_seq_lt_strict_total(id@, es[p as int].id@, id@);
                }
            }
        }
        lemma_lookup_at(t, p as int);
        assert forall|k: Seq<char>| #[trigger] lookup(t, k) == if k == id@ {
            merged(lookup(es, k), Some(script_view(*script)))
        } else {
            lookup(es, k)
        } by {
            if k != id@ {
                if exists|i: int| 0 <= i < es.len() && (#[trigger] es[i]).id@ == k {
                    let i = choose|i: int| 0 <= i < es.len() && (#[trigger] es[i]).id@ == k;
                    lemma_lookup_at(es, i);
                    if i < p {
                        lemma_lookup_at(t, i);
                    } else {
                        assert(t[i + 1] == es[i]);
                        lemma_lookup_at(t, i + 1);
                    }
                }
                if exists|i: int| 0 <= i < t.len() && (#[trigger] t[i]).id@ == k {
                    let i = choose|i: int| 0 <= i < t.len() && (#[trigger] t[i]).id@ == k;
                    if i < p {
                        assert(es[i].id@ == k);
                    } else if i > p {
                        assert(es[i - 1].id@ == k);
                    }
                }
            }
        }
    }
}

/// `scripts.run`: the named form `[scripts.run.<id>]`, or the legacy string
/// form `run = "cmd"`, which stands for a script with id `default`.
#[derive(Debug, Clone)]
pub enum WtRunScripts {
    Legacy(String),
    Named(ScriptTable),
}

/// The script a layer sets under `id`.
pub open spec fn layer_lookup(layer: WtRunScripts, id: Seq<char>) -> Option<(Option<Seq<char>>, Option<Seq<Seq<char>>>, Option<bool>)> {
    match layer {
        WtRunScripts::Legacy(cmd) => if id == "default"@ {
            Some((Some(cmd@), None, None))
        } else {
            None
        },
        WtRunScripts::Named(t) => lookup(t.entries@, id),
    }
}

/// A layer whose table is ordered (legacy layers always are).
pub open spec fn layer_ok(layer: WtRunScripts) -> bool {
    match layer {
        WtRunScripts::Legacy(_) => true,
        WtRunScripts::Named(t) => table_sorted(t.entries@),
    }
}

proof fn lemma_lookup_take(es: Seq<ScriptEntry>, i: int, k: Seq<char>)
    requires
        table_sorted(es),
        0 <= i < es.len(),
    ensures
        table_sorted(es.take(i)),
        table_sorted(es.take(i + 1)),
        lookup(es.take(i + 1), k) == if k == es[i].id@ {
            Some(script_view(es[i].script))
        } else {
            lookup(es.take(i), k)
        },
        k == es[i].id@ ==> lookup(es.take(i), k) is None,
{
    let a = es.take(i);
    let b = es.take(i + 1);
    assert(table_sorted(a));
    assert(table_sorted(b));
    lemma_lookup_at(b, i);
    if exists|j: int| 0 <= j < a.len() && (#[trigger] a[j]).id@ == k {
        let j = choose|j: int| 0 <= j < a.len() && (#[trigger] a[j]).id@ == k;
        lemma_lookup_at(a, j);
        lemma_lookup_at(b, j);
        if k == es[i].id@ {
            assert(seq_lt(es[j].id@, es[i].id@));
            lemma_seq_lt_strict_total(k, k, k);
        }
    }
    if k != es[i].id@ {
        if exists|j: int| 0 <= j < b.len() && (#[trigger] b[j]).id@ == k {
            let j = choose|j: int| 0 <= j < b.len() && (#[trigger] b[j]).id@ == k;
            assert(j < i);
            assert(a[j].id@ == k);
        }
    }
}

/// Overlays one settings layer onto the accumulated scripts, per id and
/// per field: a field the layer sets replaces the accumulated one, every
/// other field and id survives.
pub fn merge_wt_run_layer(acc: &mut ScriptTable, layer: WtRunScripts)
    requires
        table_sorted(old(acc).entries@),
        layer_ok(layer),
    ensures
        table_sorted(final(acc).entries@),
        forall|k: Seq<char>| #[trigger] lookup(final(acc).entries@, k) == merged(lookup(old(acc).entries@, k), layer_lookup(layer, k)),
{
    match layer {
        WtRunScripts::Legacy(command) => {
            proof {
                reveal_strlit("default");
            }
            let script = WtRunScript { command: Some(command), args: None, hide: None };
            merge_entry(acc, "default", &script);
        },
        WtRunScripts::Named(table) => {
            let es = &table.entries;
            let ghost start = acc.entries@;
            let mut i: usize = 0;
            proof {
                assert forall|k: Seq<char>| #[trigger] lookup(es@.take(0), k) is None by {
                }
                assert forall|k: Seq<char>| #[trigger] lookup(acc.entries@, k) == merged(lookup(start, k), lookup(es@.take(0), k)) by {
                    assert(lookup(es@.take(0), k) is None);
                }
            }
            while i < es.len()
                invariant
                    i <= es.len(),
                    table_sorted(es@),
                    table_sorted(acc.entries@),
                    forall|k: Seq<char>| #[trigger] lookup(acc.entries@, k) == merged(lookup(start, k), lookup(es@.take(i as int), k)),
                decreases es.len() - i,
            {
                let ghost before = acc.entries@;
                merge_entry(acc, es[i].id.as_str(), &es[i].script);
                proof {
                    assert forall|k: Seq<char>| #[trigger] lookup(acc.entries@, k) == merged(lookup(start, k), lookup(es@.take(i + 1), k)) by {
                        lemma_lookup_take(es@, i as int, k);
                        assert(lookup(before, k) == merged(lookup(start, k), lookup(es@.take(i as int), k)));
                    }
                }
                i = i + 1;
            }
            proof {
                assert(es@.take(i as int) =~= es@);
            }
        },
    }
}

/// `" " + arg` for each argument, in order.
pub open spec fn args_suffix(args: Seq<Seq<char>>) -> Seq<char>
    decreases args.len(),
{
    if args.len() == 0 {
        Seq::empty()
    } else {
        args_suffix(args.drop_last()) + " "@ + args.last()
    }
}

/// Whether a merged script becomes a command: not hidden, and with a
/// command that is not blank.
pub open spec fn script_runs(s: (Option<Seq<char>>, Option<Seq<Seq<char>>>, Option<bool>)) -> bool {
    s.2 != Some(true) && (s.0 matches Some(c) && !is_blank(c))
}

/// A script that is not hidden but declares no (non-blank) command.
pub open spec fn script_lacks_command(s: (Option<Seq<char>>, Option<Seq<Seq<char>>>, Option<bool>)) -> bool {
    s.2 != Some(true) && !(s.0 matches Some(c) && !is_blank(c))
}

/// The command line of a runnable script: its command, then its arguments.
pub open spec fn script_command_line(s: (Option<Seq<char>>, Option<Seq<Seq<char>>>, Option<bool>)) -> Seq<char> {
    s.0.unwrap() + match s.1 {
        Some(a) => args_suffix(a),
        None => Seq::empty(),
    }
}

/// A table entry as plain values: id and script.
pub open spec fn entry_view(e: ScriptEntry) -> (Seq<char>, (Option<Seq<char>>, Option<Seq<Seq<char>>>, Option<bool>)) {
    (e.id@, script_view(e.script))
}

pub open spec fn entry_views(es: Seq<ScriptEntry>) -> Seq<(Seq<char>, (Option<Seq<char>>, Option<Seq<Seq<char>>>, Option<bool>))> {
    es.map_values(|e: ScriptEntry| entry_view(e))
}

/// The pane-mode commands the scripts of `es` map to, in id order.
pub open spec fn wt_cmds(es: Seq<(Seq<char>, (Option<Seq<char>>, Option<Seq<Seq<char>>>, Option<bool>))>) -> Seq<(Seq<char>, Seq<char>, BoraCommandMode, Option<Seq<char>>)>
    decreases es.len(),
{
    if es.len() == 0 {
        Seq::empty()
    } else if script_runs(es.last().1) {
        wt_cmds(es.drop_last()).push((es.last().0, script_command_line(es.last().1), BoraCommandMode::Pane, None))
    } else {
        wt_cmds(es.drop_last())
    }
}

/// The warning for a script with no command.
pub open spec fn no_command_warning(id: Seq<char>) -> Seq<char> {
    "wt [scripts.run."@ + id + "] declares no command; skipping"@
}

/// One warning per script of `es` that is not hidden but has no command.
pub open spec fn wt_warnings(es: Seq<(Seq<char>, (Option<Seq<char>>, Option<Seq<Seq<char>>>, Option<bool>))>) -> Seq<Seq<char>>
    decreases es.len(),
{
    if es.len() == 0 {
        Seq::empty()
    } else if script_lacks_command(es.last().1) {
        wt_warnings(es.drop_last()).push(no_command_warning(es.last().0))
    } else {
        wt_warnings(es.drop_last())
    }
}

fn command_line(command: &str, args: &Option<Vec<String>>) -> (r: String)
    ensures
        r@ == command@ + match *args {
            Some(a) => args_suffix(views(a@)),
            None => Seq::empty(),
        },
{
    let mut line = owned(command);
    match args {
        Some(a) => {
            let mut i: usize = 0;
            while i < a.len()
                invariant
                    i <= a.len(),
                    line@ == command@ + args_suffix(views(a@).take(i as int)),
                decreases a.len() - i,
            {
                line.append(" ");
                line.append(a[i].as_str());
                proof {
                    assert(views(a@).take(i + 1).drop_last() =~= views(a@).take(i as int));
                    assert(line@ =~= command@ + args_suffix(views(a@).take(i + 1)));
                }
                i = i + 1;
            }
            proof {
                assert(views(a@).take(i as int) =~= views(a@));
            }
        },
        None => {
            assert(line@ =~= command@ + Seq::<char>::empty());
        },
    }
    line
}

/// Maps merged wt scripts to pane-mode commands labeled by id, in id order.
/// Hidden scripts stay hidden; a script without a command is dropped with a
/// warning appended to `warnings`.
pub fn wt_commands(scripts: &ScriptTable, warnings: &mut Vec<String>) -> (r: Vec<BoraCommand>)
    ensures
        cmd_views(r@) == wt_cmds(entry_views(scripts.entries@)),
        views(final(warnings)@) == views(old(warnings)@) + wt_warnings(entry_views(scripts.entries@)),
{
    let es = &scripts.entries;
    let ghost w0 = views(warnings@);
    let mut commands: Vec<BoraCommand> = Vec::new();
    let mut i: usize = 0;
    while i < es.len()
        invariant
            i <= es.len(),
            cmd_views(commands@) == wt_cmds(entry_views(es@.take(i as int))),
            views(warnings@) == w0 + wt_warnings(entry_views(es@.take(i as int))),
        decreases es.len() - i,
    {
        let e = &es[i];
        let ghost sv = script_view(e.script);
        proof {
            assert(es@.take(i + 1).drop_last() =~= es@.take(i as int));
            assert(entry_views(es@.take(i + 1)).drop_last() =~= entry_views(es@.take(i as int)));
            assert(entry_views(es@.take(i + 1)).last() == entry_view(es@[i as int]));
        }
        let hidden = match e.script.hide {
            Some(h) => h,
            None => false,
        };
        if !hidden {
            let runnable = match &e.script.command {
                Some(c) => !str_is_blank(c.as_str()),
                None => false,
            };
            if runnable {
                let c = e.script.command.as_ref().unwrap();
                let line = command_line(c.as_str(), &e.script.args);
                let ghost prev = commands@;
                commands.push(BoraCommand { label: owned(e.id.as_str()), command: line, mode: BoraCommandMode::Pane, branch: None });
                proof {
                    assert(cmd_views(commands@) =~= cmd_views(prev).push(cmd_view(commands@.last())));
                    assert(script_runs(sv));
                }
            } else {
                let msg = concat("wt [scripts.run.", e.id.as_str());
                let msg = concat(msg.as_str(), "] declares no command; skipping");
                let ghost prev = warnings@;
                warnings.push(msg);
                proof {
                    assert(views(warnings@) =~= views(prev).push(msg@));
                    assert(script_lacks_command(sv));
                }
            }
        }
        i = i + 1;
    }
    proof {
        assert(es@.take(i as int) =~= es@);
    }
    commands
}

/// Entry views with strictly increasing ids.
pub open spec fn views_sorted(vs: Seq<(Seq<char>, (Option<Seq<char>>, Option<Seq<Seq<char>>>, Option<bool>))>) -> bool {
    forall|i: int, j: int| 0 <= i < j < vs.len() ==> seq_lt(#[trigger] vs[i].0, #[trigger] vs[j].0)
}

/// The script under `id` in a sequence of entry views.
pub open spec fn view_lookup(vs: Seq<(Seq<char>, (Option<Seq<char>>, Option<Seq<Seq<char>>>, Option<bool>))>, id: Seq<char>) -> Option<(Option<Seq<char>>, Option<Seq<Seq<char>>>, Option<bool>)> {
    if exists|i: int| 0 <= i < vs.len() && (#[trigger] vs[i]).0 == id {
        Some(vs[choose|i: int| 0 <= i < vs.len() && (#[trigger] vs[i]).0 == id].1)
    } else {
        None
    }
}

proof fn lemma_view_lookup_at(vs: Seq<(Seq<char>, (Option<Seq<char>>, Option<Seq<Seq<char>>>, Option<bool>))>, i: int)
    requires
        views_sorted(vs),
        0 <= i < vs.len(),
    ensures
        view_lookup(vs, vs[i].0) == Some(vs[i].1),
{
    let j = choose|j: int| 0 <= j < vs.len() && (#[trigger] vs[j]).0 == vs[i].0;
    if j != i {
        lemma_seq_lt_strict_total(vs[i].0, vs[j].0, vs[i].0);
        if j < i {
            assert(seq_lt(vs[j].0, vs[i].0));
        } else {
            assert(seq_lt(vs[i].0, vs[j].0));
        }
    }
}

/// An ordered table read through its views.
proof fn lemma_table_views(es: Seq<ScriptEntry>)
    requires
        table_sorted(es),
    ensures
        views_sorted(entry_views(es)),
        forall|k: Seq<char>| #[trigger] lookup(es, k) == view_lookup(entry_views(es), k),
{
    let vs = entry_views(es);
    assert forall|i: int, j: int| 0 <= i < j < vs.len() implies seq_lt(#[trigger] vs[i].0, #[trigger] vs[j].0) by {
        assert(vs[i].0 == es[i].id@);
        assert(vs[j].0 == es[j].id@);
    }
    assert forall|k: Seq<char>| #[trigger] lookup(es, k) == view_lookup(vs, k) by {
        if exists|i: int| 0 <= i < es.len() && (#[trigger] es[i]).id@ == k {
            let i = choose|i: int| 0 <= i < es.len() && (#[trigger] es[i]).id@ == k;
            lemma_lookup_at(es, i);
            assert(vs[i].0 == k);
            lemma_view_lookup_at(vs, i);
        }
        if exists|i: int| 0 <= i < vs.len() && (#[trigger] vs[i]).0 == k {
            let i = choose|i: int| 0 <= i < vs.len() && (#[trigger] vs[i]).0 == k;
            assert(es[i].id@ == k);
        }
    }
}

/// An ordered table is determined by what it maps each id to.
proof fn lemma_sorted_views_unique(
    a: Seq<(Seq<char>, (Option<Seq<char>>, Option<Seq<Seq<char>>>, Option<bool>))>,
    b: Seq<(Seq<char>, (Option<Seq<char>>, Option<Seq<Seq<char>>>, Option<bool>))>,
)
    requires
        views_sorted(a),
        views_sorted(b),
        forall|k: Seq<char>| #[trigger] view_lookup(a, k) == view_lookup(b, k),
    ensures
        a == b,
    decreases a.len(),
{
    if a.len() == 0 {
        if b.len() > 0 {
            lemma_view_lookup_at(b, 0);
            assert(view_lookup(a, b[0].0) is None);
        }
        assert(a =~= b);
        return;
    }
    if b.len() == 0 {
        lemma_view_lookup_at(a, 0);
        assert(view_lookup(b, a[0].0) is None);
        assert(false);
    }
    lemma_view_lookup_at(a, 0);
    lemma_view_lookup_at(b, 0);
    assert(view_lookup(b, a[0].0) is Some);
    let ka = choose|k: int| 0 <= k < b.len() && (#[trigger] b[k]).0 == a[0].0;
    assert(view_lookup(a, b[0].0) is Some);
    let kb = choose|k: int| 0 <= k < a.len() && (#[trigger] a[k]).0 == b[0].0;
    lemma_seq_lt_strict_total(a[0].0, b[0].0, a[0].0);
    if ka > 0 {
        assert(seq_lt(b[0].0, b[ka].0));
        if kb > 0 {
            assert(seq_lt(a[0].0, a[kb].0));
        }
    }
    if kb > 0 && ka == 0 {
        assert(seq_lt(a[0].0, a[kb].0));
    }
    assert(a[0].0 == b[0].0);
    assert(a[0].1 == b[0].1);
    let a1 = a.drop_first();
    let b1 = b.drop_first();
    assert(views_sorted(a1));
    assert(views_sorted(b1));
    assert forall|k: Seq<char>| #[trigger] view_lookup(a1, k) == view_lookup(b1, k) by {
        if exists|i: int| 0 <= i < a1.len() && (#[trigger] a1[i]).0 == k {
            let i = choose|i: int| 0 <= i < a1.len() && (#[trigger] a1[i]).0 == k;
            lemma_view_lookup_at(a1, i);
            assert(a[i + 1] == a1[i]);
            lemma_view_lookup_at(a, i + 1);
            assert(view_lookup(b, k) is Some);
            let j = choose|j: int| 0 <= j < b.len() && (#[trigger] b[j]).0 == k;
            lemma_view_lookup_at(b, j);
            if j == 0 {
                assert(seq_lt(a[0].0, a[i + 1].0));
                lemma_seq_lt_strict_total(k, k, k);
            }
            assert(b1[j - 1] == b[j]);
            lemma_view_lookup_at(b1, j - 1);
        } else if exists|i: int| 0 <= i < b1.len() && (#[trigger] b1[i]).0 == k {
            let i = choose|i: int| 0 <= i < b1.len() && (#[trigger] b1[i]).0 == k;
            assert(b[i + 1] == b1[i]);
            lemma_view_lookup_at(b, i + 1);
            assert(view_lookup(a, k) is Some);
            let j = choose|j: int| 0 <= j < a.len() && (#[trigger] a[j]).0 == k;
            if j == 0 {
                assert(seq_lt(b[0].0, b[i + 1].0));
                lemma_seq_lt_strict_total(k, k, k);
            }
            assert(a1[j - 1] == a[j]);
        }
    }
    lemma_sorted_views_unique(a1, b1);
    assert(a =~= seq![a[0]] + a1);
    assert(b =~= seq![b[0]] + b1);
}

/// What reading and parsing one settings file gave: nothing (missing or
/// unreadable), a parse error's text, or the parsed value.
#[derive(Debug, Clone)]
pub enum SettingsRead<T> {
    Missing,
    Invalid(String),
    Parsed(T),
}

/// The `scripts.run` layer a settings read contributes, if any.
pub open spec fn layer_of(r: SettingsRead<Option<WtRunScripts>>) -> Option<WtRunScripts> {
    match r {
        SettingsRead::Parsed(Some(run)) => Some(run),
        _ => None,
    }
}

pub open spec fn read_layer_ok(r: SettingsRead<Option<WtRunScripts>>) -> bool {
    match layer_of(r) {
        Some(run) => layer_ok(run),
        None => true,
    }
}

pub open spec fn read_lookup(r: SettingsRead<Option<WtRunScripts>>, id: Seq<char>) -> Option<(Option<Seq<char>>, Option<Seq<Seq<char>>>, Option<bool>)> {
    match layer_of(r) {
        Some(run) => layer_lookup(run, id),
        None => None,
    }
}

/// The merged script under `id`: conductor settings, overlaid by the shared
/// wt settings, overlaid by the local wt settings.
pub open spec fn merged_lookup(
    conductor: SettingsRead<Option<WtRunScripts>>,
    wt_shared: SettingsRead<Option<WtRunScripts>>,
    wt_local: SettingsRead<Option<WtRunScripts>>,
    id: Seq<char>,
) -> Option<(Option<Seq<char>>, Option<Seq<Seq<char>>>, Option<bool>)> {
    merged(merged(merged(None, read_lookup(conductor, id)), read_lookup(wt_shared, id)), read_lookup(wt_local, id))
}

/// The layer `r` sets a command for the script `id`.
pub open spec fn sets_command(r: Option<(Option<Seq<char>>, Option<Seq<Seq<char>>>, Option<bool>)>) -> bool {
    r is Some && r.unwrap().0 is Some
}

/// The layer `r` sets arguments for the script `id`.
pub open spec fn sets_args(r: Option<(Option<Seq<char>>, Option<Seq<Seq<char>>>, Option<bool>)>) -> bool {
    r is Some && r.unwrap().1 is Some
}

/// Each field of a merged script comes from the most specific settings file
/// that sets it: `.wt/settings.local.toml` over `.wt/settings.toml` over the
/// conductor settings. A script that no layer declares is absent.
pub proof fn law_local_settings_take_precedence(
    conductor: SettingsRead<Option<WtRunScripts>>,
    wt_shared: SettingsRead<Option<WtRunScripts>>,
    wt_local: SettingsRead<Option<WtRunScripts>>,
    id: Seq<char>,
)
    ensures
        ({
            let (c, s, l) = (read_lookup(conductor, id), read_lookup(wt_shared, id), read_lookup(wt_local, id));
            let m = merged_lookup(conductor, wt_shared, wt_local, id);
            &&& sets_command(l) ==> m is Some && m.unwrap().0 == l.unwrap().0
            &&& !sets_command(l) && sets_command(s) ==> m is Some && m.unwrap().0 == s.unwrap().0
            &&& !sets_command(l) && !sets_command(s) && sets_command(c) ==> m is Some && m.unwrap().0 == c.unwrap().0
            &&& !sets_command(l) && !sets_command(s) && !sets_command(c) ==> m is None || m.unwrap().0 is None
            &&& sets_args(l) ==> m is Some && m.unwrap().1 == l.unwrap().1
            &&& !sets_args(l) && sets_args(s) ==> m is Some && m.unwrap().1 == s.unwrap().1
            &&& l is Some && l.unwrap().2 is Some ==> m is Some && m.unwrap().2 == l.unwrap().2
            &&& c is None && s is None && l is None ==> m is None
        }),
{
}

/// `invalid <path>: <error>` for a file that failed to parse.
pub open spec fn read_warning<T>(path: Seq<char>, r: SettingsRead<T>) -> Seq<Seq<char>> {
    match r {
        SettingsRead::Invalid(e) => seq!["invalid "@ + path + ": "@ + e@],
        _ => Seq::empty(),
    }
}

/// The deprecation notice for a `.bora.toml` that still has `[[commands]]`.
pub open spec fn deprecation_warning(path: Seq<char>) -> Seq<char> {
    path + ": [[commands]] is deprecated \u{2014} migrate each entry to .wt/settings.toml as [scripts.run.<label>] with command = \"...\" (config reference: \"Repository commands\")"@
}

pub open spec fn bora_warnings(path: Seq<char>, r: SettingsRead<BoraConfig>) -> Seq<Seq<char>> {
    match r {
        SettingsRead::Invalid(e) => seq!["invalid "@ + path + ": "@ + e@],
        SettingsRead::Parsed(c) => if c.commands@.len() > 0 {
            seq![deprecation_warning(path)]
        } else {
            Seq::empty()
        },
        SettingsRead::Missing => Seq::empty(),
    }
}

/// The commands of `cs` whose label no command of `wt` carries.
pub open spec fn without_labels_of(
    cs: Seq<(Seq<char>, Seq<char>, BoraCommandMode, Option<Seq<char>>)>,
    wt: Seq<(Seq<char>, Seq<char>, BoraCommandMode, Option<Seq<char>>)>,
) -> Seq<(Seq<char>, Seq<char>, BoraCommandMode, Option<Seq<char>>)>
    decreases cs.len(),
{
    if cs.len() == 0 {
        Seq::empty()
    } else if exists|j: int| 0 <= j < wt.len() && (#[trigger] wt[j]).0 == cs.last().0 {
        without_labels_of(cs.drop_last(), wt)
    } else {
        without_labels_of(cs.drop_last(), wt).push(cs.last())
    }
}

/// The repo configuration: `None` when `.bora.toml` gives nothing and wt
/// gives no command; otherwise `.bora.toml`'s ports and flow (or none) with
/// its commands, where on a label collision the wt command replaces the
/// legacy one and the wt commands follow the legacy ones.
pub open spec fn repo_config(
    bora: SettingsRead<BoraConfig>,
    wt: Seq<(Seq<char>, Seq<char>, BoraCommandMode, Option<Seq<char>>)>,
) -> Option<(Option<BoraPortsConfig>, Seq<(Seq<char>, Seq<char>, BoraCommandMode, Option<Seq<char>>)>, Option<Option<Seq<char>>>)> {
    match bora {
        SettingsRead::Parsed(c) => {
            let v = config_view(c);
            Some((v.0, if wt.len() == 0 { v.1 } else { without_labels_of(v.1, wt) + wt }, v.2))
        },
        _ => if wt.len() == 0 {
            None
        } else {
            Some((None, wt, None))
        },
    }
}

proof fn lemma_without_labels_of(
    cs: Seq<(Seq<char>, Seq<char>, BoraCommandMode, Option<Seq<char>>)>,
    wt: Seq<(Seq<char>, Seq<char>, BoraCommandMode, Option<Seq<char>>)>,
)
    ensures
        forall|k: int, j: int| 0 <= k < without_labels_of(cs, wt).len() && 0 <= j < wt.len()
            ==> (#[trigger] without_labels_of(cs, wt)[k]).0 != (#[trigger] wt[j]).0,
        forall|k: int| 0 <= k < without_labels_of(cs, wt).len() ==> cs.contains(#[trigger] without_labels_of(cs, wt)[k]),
    decreases cs.len(),
{
    if cs.len() > 0 {
        lemma_without_labels_of(cs.drop_last(), wt);
        let prev = without_labels_of(cs.drop_last(), wt);
        assert forall|k: int| 0 <= k < prev.len() implies cs.contains(#[trigger] prev[k]) by {
            let i = choose|i: int| 0 <= i < cs.drop_last().len() && cs.drop_last()[i] == prev[k];
            assert(cs[i] == prev[k]);
        }
        assert(cs[cs.len() - 1] == cs.last());
    }
}

/// When wt and `.bora.toml` both declare a label, only the wt command
/// survives: every command of the repo configuration whose label a wt
/// command carries is that wt command, the legacy commands keep only
/// labels wt does not use, and every wt command is offered.
pub proof fn law_wt_commands_win_on_label_collision(
    bora: BoraConfig,
    wt: Seq<(Seq<char>, Seq<char>, BoraCommandMode, Option<Seq<char>>)>,
)
    ensures
        ({
            let cmds = repo_config(SettingsRead::Parsed(bora), wt).unwrap().1;
            &&& forall|i: int, j: int| 0 <= i < cmds.len() && 0 <= j < wt.len() && (#[trigger] cmds[i]).0 == (#[trigger] wt[j]).0
                ==> wt.contains(cmds[i])
            &&& forall|j: int| 0 <= j < wt.len() ==> cmds.contains(#[trigger] wt[j])
            &&& forall|i: int| 0 <= i < cmds.len() ==> cmd_views(bora.commands@).contains(#[trigger] cmds[i]) || wt.contains(cmds[i])
        }),
{
    let legacy = config_view(bora).1;
    let cmds = repo_config(SettingsRead::Parsed(bora), wt).unwrap().1;
    if wt.len() > 0 {
        let kept = without_labels_of(legacy, wt);
        lemma_without_labels_of(legacy, wt);
        assert(cmds == kept + wt);
        assert forall|i: int, j: int| 0 <= i < cmds.len() && 0 <= j < wt.len() && (#[trigger] cmds[i]).0 == (#[trigger] wt[j]).0
            implies wt.contains(cmds[i]) by {
            if i < kept.len() {
                assert(cmds[i] == kept[i]);
                assert(kept[i].0 != wt[j].0);
            } else {
                assert(cmds[i] == wt[i - kept.len()]);
            }
        }
        assert forall|j: int| 0 <= j < wt.len() implies cmds.contains(#[trigger] wt[j]) by {
            assert(cmds[kept.len() + j] == wt[j]);
        }
        assert forall|i: int| 0 <= i < cmds.len() implies cmd_views(bora.commands@).contains(#[trigger] cmds[i]) || wt.contains(cmds[i]) by {
            if i < kept.len() {
                assert(cmds[i] == kept[i]);
                assert(legacy.contains(kept[i]));
            } else {
                assert(cmds[i] == wt[i - kept.len()]);
            }
        }
    } else {
        assert forall|i: int| 0 <= i < cmds.len() implies cmd_views(bora.commands@).contains(#[trigger] cmds[i]) || wt.contains(cmds[i]) by {
            assert(cmds[i] == legacy[i]);
        }
    }
}

/// The four files a repo's configuration is read from.
#[derive(Debug, Clone)]
pub struct RepoConfigPaths {
    pub wt_local: String,
    pub wt_shared: String,
    pub conductor: String,
    pub bora_toml: String,
}

/// `rel` joined under `root`, as `Path::join` does for a relative `rel`.
pub open spec fn join_path(root: Seq<char>, rel: Seq<char>) -> Seq<char> {
    if root.len() == 0 {
        rel
    } else if root.last() == '/' {
        root + rel
    } else {
        root + "/"@ + rel
    }
}

pub fn path_join(root: &str, rel: &str) -> (r: String)
    ensures
        r@ == join_path(root@, rel@),
{
    let n = root.unicode_len();
    if n == 0 {
        owned(rel)
    } else if root.get_char(n - 1) == '/' {
        concat(root, rel)
    } else {
        let with_slash = concat(root, "/");
        proof {
            reveal_strlit("/");
        }
        concat(with_slash.as_str(), rel)
    }
}

/// The settings files under `repo_root`, highest wt precedence first.
pub fn repo_config_paths(repo_root: &str) -> (r: RepoConfigPaths)
    ensures
        r.wt_local@ == join_path(repo_root@, ".wt/settings.local.toml"@),
        r.wt_shared@ == join_path(repo_root@, ".wt/settings.toml"@),
        r.conductor@ == join_path(repo_root@, ".conductor/settings.toml"@),
        r.bora_toml@ == join_path(repo_root@, ".bora.toml"@),
{
    RepoConfigPaths {
        wt_local: path_join(repo_root, ".wt/settings.local.toml"),
        wt_shared: path_join(repo_root, ".wt/settings.toml"),
        conductor: path_join(repo_root, ".conductor/settings.toml"),
        bora_toml: path_join(repo_root, ".bora.toml"),
    }
}

fn invalid_warning(path: &str, err: &str) -> (r: String)
    ensures
        r@ == "invalid "@ + path@ + ": "@ + err@,
{
    let a = concat("invalid ", path);
    let b = concat(a.as_str(), ": ");
    concat(b.as_str(), err)
}

/// Merges one settings read into the accumulated scripts.
fn merge_read(acc: &mut ScriptTable, path: &str, read: SettingsRead<Option<WtRunScripts>>, warnings: &mut Vec<String>)
    requires
        table_sorted(old(acc).entries@),
        read_layer_ok(read),
    ensures
        table_sorted(final(acc).entries@),
        forall|k: Seq<char>| #[trigger] lookup(final(acc).entries@, k) == merged(lookup(old(acc).entries@, k), read_lookup(read, k)),
        views(final(warnings)@) == views(old(warnings)@) + read_warning(path@, read),
{
    let ghost w0 = warnings@;
    match read {
        SettingsRead::Missing => {
            assert(views(warnings@) =~= views(w0) + read_warning(path@, read));
        },
        SettingsRead::Invalid(err) => {
            warnings.push(invalid_warning(path, err.as_str()));
            assert(views(warnings@) =~= views(w0) + read_warning(path@, read));
        },
        SettingsRead::Parsed(run) => {
            match run {
                Some(run) => {
                    merge_wt_run_layer(acc, run);
                },
                None => {},
            }
            assert(views(warnings@) =~= views(w0) + read_warning(path@, read));
        },
    }
}

/// Commands of `cs` whose label no command of `wt` carries.
fn drop_colliding(cs: &Vec<BoraCommand>, wt: &Vec<BoraCommand>) -> (r: Vec<BoraCommand>)
    ensures
        cmd_views(r@) == without_labels_of(cmd_views(cs@), cmd_views(wt@)),
{
    let ghost w = cmd_views(wt@);
    let mut r: Vec<BoraCommand> = Vec::new();
    let mut i: usize = 0;
    while i < cs.len()
        invariant
            i <= cs.len(),
            w == cmd_views(wt@),
            cmd_views(r@) == without_labels_of(cmd_views(cs@.take(i as int)), w),
        decreases cs.len() - i,
    {
        let mut j: usize = 0;
        let mut collides = false;
        while j < wt.len()
            invariant
                i < cs.len(),
                j <= wt.len(),
                w == cmd_views(wt@),
                collides == exists|m: int| 0 <= m < j && (#[trigger] w[m]).0 == cs@[i as int].label@,
            decreases wt.len() - j,
        {
            if str_eq(wt[j].label.as_str(), cs[i].label.as_str()) {
                collides = true;
            }
            proof {
                if !collides {
                    assert forall|m: int| 0 <= m < j + 1 implies (#[trigger] w[m]).0 != cs@[i as int].label@ by {
                        if m == j {
                            assert(w[m].0 == wt@[m].label@);
                        }
                    }
                } else {
                    if wt@[j as int].label@ == cs@[i as int].label@ {
                        assert(w[j as int].0 == wt@[j as int].label@);
                    }
                }
            }
            j = j + 1;
        }
        let ghost prev = r@;
        if !collides {
            r.push(clone_command(&cs[i]));
            proof {
                assert(cmd_views(r@) =~= cmd_views(prev).push(cmd_view(cs@[i as int])));
            }
        }
        proof {
            let c = cmd_views(cs@.take(i + 1));
            assert(c.drop_last() =~= cmd_views(cs@.take(i as int)));
            assert(c.last() == cmd_view(cs@[i as int]));
        }
        i = i + 1;
    }
    proof {
        assert(cs@.take(i as int) =~= cs@);
    }
    r
}

/// `r` is the repo configuration and the warnings that the four settings
/// reads give, with the files at the paths named: some script table `vs`,
/// sorted by id, holds each id's merged fields, the config is the one
/// `repo_config` gives for `.bora.toml` and `vs`'s commands, and the
/// warnings come per file in reading order.
pub open spec fn repo_config_read(
    conductor_path: Seq<char>,
    wt_shared_path: Seq<char>,
    wt_local_path: Seq<char>,
    bora_toml_path: Seq<char>,
    conductor: SettingsRead<Option<WtRunScripts>>,
    wt_shared: SettingsRead<Option<WtRunScripts>>,
    wt_local: SettingsRead<Option<WtRunScripts>>,
    bora_toml: SettingsRead<BoraConfig>,
    r: (Option<BoraConfig>, Vec<String>),
) -> bool {
    exists|vs: Seq<(Seq<char>, (Option<Seq<char>>, Option<Seq<Seq<char>>>, Option<bool>))>| {
        &&& views_sorted(vs)
        &&& forall|k: Seq<char>| #[trigger] view_lookup(vs, k) == merged_lookup(conductor, wt_shared, wt_local, k)
        &&& opt_config_view(r.0) == repo_config(bora_toml, wt_cmds(vs))
        &&& views(r.1@) == read_warning(conductor_path, conductor) + read_warning(wt_shared_path, wt_shared)
            + read_warning(wt_local_path, wt_local) + wt_warnings(vs) + bora_warnings(bora_toml_path, bora_toml)
    }
}

/// The repo configuration from the four settings reads: the wt layers
/// merged per id and per field (conductor < shared < local), their scripts
/// mapped to commands, and the legacy `.bora.toml` merged under them.
/// Warnings name every file that failed to parse, every script without a
/// command, and a `.bora.toml` that still declares `[[commands]]`.
pub fn read_repo_config(
    paths: &RepoConfigPaths,
    conductor: SettingsRead<Option<WtRunScripts>>,
    wt_shared: SettingsRead<Option<WtRunScripts>>,
    wt_local: SettingsRead<Option<WtRunScripts>>,
    bora_toml: SettingsRead<BoraConfig>,
) -> (r: (Option<BoraConfig>, Vec<String>))
    requires
        read_layer_ok(conductor),
        read_layer_ok(wt_shared),
        read_layer_ok(wt_local),
    ensures
        repo_config_read(paths.conductor@, paths.wt_shared@, paths.wt_local@, paths.bora_toml@,
            conductor, wt_shared, wt_local, bora_toml, r),
{
    let mut warnings: Vec<String> = Vec::new();
    let mut scripts = ScriptTable { entries: Vec::new() };
    let ghost c0 = conductor;
    let ghost s0 = wt_shared;
    let ghost l0 = wt_local;
    proof {
        assert forall|k: Seq<char>| #[trigger] lookup(scripts.entries@, k) is None by {}
    }
    merge_read(&mut scripts, paths.conductor.as_str(), conductor, &mut warnings);
    merge_read(&mut scripts, paths.wt_shared.as_str(), wt_shared, &mut warnings);
    merge_read(&mut scripts, paths.wt_local.as_str(), wt_local, &mut warnings);
    let ghost w_layers = views(warnings@);
    let wt = wt_commands(&scripts, &mut warnings);
    proof {
        lemma_table_views(scripts.entries@);
    }
    let ghost vs = entry_views(scripts.entries@);
    let ghost w_wt = views(warnings@);
    let ghost b0 = bora_toml;
    let config: Option<BoraConfig> = match bora_toml {
        SettingsRead::Parsed(config) => {
            if config.commands.len() > 0 {
                let text = concat(paths.bora_toml.as_str(), ": [[commands]] is deprecated \u{2014} migrate each entry to .wt/settings.toml as [scripts.run.<label>] with command = \"...\" (config reference: \"Repository commands\")");
                warnings.push(text);
            }
            Some(config)
        },
        SettingsRead::Invalid(err) => {
            warnings.push(invalid_warning(paths.bora_toml.as_str(), err.as_str()));
            None
        },
        SettingsRead::Missing => None,
    };
    proof {
        assert(views(warnings@) =~= w_wt + bora_warnings(paths.bora_toml@, b0));
    }
    proof {
        assert(views_sorted(vs));
        assert forall|k: Seq<char>| #[trigger] view_lookup(vs, k) == merged_lookup(c0, s0, l0, k) by {
            assert(lookup(scripts.entries@, k) == view_lookup(vs, k));
        }
        assert(views(warnings@) =~= read_warning(paths.conductor@, c0) + read_warning(paths.wt_shared@, s0)
            + read_warning(paths.wt_local@, l0) + wt_warnings(vs) + bora_warnings(paths.bora_toml@, b0));
    }
    if config.is_none() && wt.len() == 0 {
        return (None, warnings);
    }
    let result = match config {
        Some(c) => {
            if wt.len() > 0 {
                let mut kept = drop_colliding(&c.commands, &wt);
                let ghost k0 = kept@;
                let mut i: usize = 0;
                while i < wt.len()
                    invariant
                        i <= wt.len(),
                        cmd_views(kept@) == cmd_views(k0) + cmd_views(wt@.take(i as int)),
                    decreases wt.len() - i,
                {
                    let ghost prev = kept@;
                    kept.push(clone_command(&wt[i]));
                    proof {
                        assert(cmd_views(kept@) =~= cmd_views(prev).push(cmd_view(wt@[i as int])));
                        assert(cmd_views(wt@.take(i + 1)) =~= cmd_views(wt@.take(i as int)).push(cmd_view(wt@[i as int])));
                    }
                    i = i + 1;
                }
                proof {
                    assert(wt@.take(i as int) =~= wt@);
                }
                BoraConfig { ports: c.ports, commands: kept, flow: c.flow }
            } else {
                c
            }
        },
        None => BoraConfig { ports: None, commands: wt, flow: None },
    };
    (Some(result), warnings)
}

} // verus!
