//! Session-wide decisions: double clicks on a pane, whether updates run,
//! the agent panel order, and the plugin registry a session starts with.

use vstd::prelude::*;
use crate::menus::PaneId;
use crate::state::AgentPanelSort;
use crate::plugins::{InstalledPluginInfo, InstalledPluginRegistry, ids_distinct, registry_wf};

verus! {

/// Two clicks at most this many nanoseconds apart can form a double click.
pub const PANE_DOUBLE_CLICK_WINDOW_NANOS: u64 = 350_000_000;

/// Where and when a click on a pane landed. `at_nanos` reads a monotonic
/// clock in nanoseconds.
#[derive(Debug, Clone, Copy, PartialEq, Eq)]
pub struct PaneClickState {
    pub pane_id: PaneId,
    pub viewport_row: u16,
    pub col: u16,
    pub at_nanos: u64,
}

/// `|a - b|`.
pub open spec fn distance(a: int, b: int) -> int {
    if a < b { b - a } else { a - b }
}

impl PaneClickState {
    /// `next` completes a double click begun by `self`: same pane, within
    /// the double-click window (a clock that went backwards counts as no time
    /// passed), and at most one row and one column away.
    pub fn is_double_click_for(self, next: Self) -> (r: bool)
        ensures
            r == (self.pane_id == next.pane_id
                && (if next.at_nanos >= self.at_nanos { next.at_nanos - self.at_nanos } else { 0 })
                    <= PANE_DOUBLE_CLICK_WINDOW_NANOS
                && distance(self.viewport_row as int, next.viewport_row as int) <= 1
                && distance(self.col as int, next.col as int) <= 1),
    {
        let elapsed = next.at_nanos.saturating_sub(self.at_nanos);
        let row_gap = if self.viewport_row < next.viewport_row {
            next.viewport_row - self.viewport_row
        } else {
            self.viewport_row - next.viewport_row
        };
        let col_gap = if self.col < next.col { next.col - self.col } else { self.col - next.col };
        self.pane_id == next.pane_id && elapsed <= PANE_DOUBLE_CLICK_WINDOW_NANOS && row_gap <= 1
            && col_gap <= 1
    }
}

/// Automatic updates run only in a session-backed release build.
pub fn auto_updates_enabled(no_session: bool, debug_build: bool) -> (r: bool)
    ensures
        r == (!no_session && !debug_build),
{
    !no_session && !debug_build
}

/// The background update check runs where automatic updates do, and only
/// when it is switched on.
pub fn background_update_check_enabled(no_session: bool, debug_build: bool, check_enabled: bool) -> (r: bool)
    ensures
        r == (!no_session && !debug_build && check_enabled),
{
    auto_updates_enabled(no_session, debug_build) && check_enabled
}

/// The `ui.agent_panel_sort` setting.
#[derive(Debug, Clone, Copy, PartialEq, Eq, Default)]
pub enum AgentPanelSortConfig {
    #[default]
    Spaces,
    Priority,
}

/// The agent panel order for the configured setting.
pub fn agent_panel_sort_from_config(sort: AgentPanelSortConfig) -> (r: AgentPanelSort)
    ensures
        sort == AgentPanelSortConfig::Spaces ==> r == AgentPanelSort::Spaces,
        sort == AgentPanelSortConfig::Priority ==> r == AgentPanelSort::Priority,
{
    match sort {
        AgentPanelSortConfig::Spaces => AgentPanelSort::Spaces,
        AgentPanelSortConfig::Priority => AgentPanelSort::Priority,
    }
}

/// Where in `ps` a plugin registered as `id` stands, if anywhere.
pub open spec fn has_id_at(ps: Seq<InstalledPluginInfo>, id: Seq<char>, k: int) -> bool {
    0 <= k < ps.len() && ps[k].plugin_id@ == id
}

/// `ps` after registering `p`: it replaces the plugin of the same id in
/// place, or joins at the end.
pub open spec fn registered(ps: Seq<InstalledPluginInfo>, p: InstalledPluginInfo) -> Seq<InstalledPluginInfo> {
    if exists|k: int| has_id_at(ps, p.plugin_id@, k) {
        let k = choose|k: int| has_id_at(ps, p.plugin_id@, k);
        ps.update(k, p)
    } else {
        ps.push(p)
    }
}

/// The registry built by registering the first `n` entries in order.
pub open spec fn registry_of(entries: Seq<InstalledPluginInfo>, n: int) -> Seq<InstalledPluginInfo>
    decreases n,
{
    if n <= 0 {
        Seq::empty()
    } else {
        registered(registry_of(entries, n - 1), entries[n - 1])
    }
}

/// The plugin registry a session starts with: empty without a session,
/// else the installed plugins in `entries` (as read from the plugin
/// registry, manifests reloaded), each under its id, a later entry of an id
/// replacing an earlier one.
pub fn load_plugin_registry(no_session: bool, entries: Vec<InstalledPluginInfo>) -> (r: InstalledPluginRegistry)
    ensures
        registry_wf(r),
        forall|k: int| 0 <= k < r.keys@.len() ==> (#[trigger] r.keys@[k])@ == r.plugins@[k].plugin_id@,
        ids_distinct(r.plugins@),
        no_session ==> r.plugins@.len() == 0,
        !no_session ==> r.plugins@ == registry_of(entries@, entries@.len() as int),
{
    let mut registry = InstalledPluginRegistry::new();
    if no_session {
        return registry;
    }
    let ghost all = entries@;
    let n = entries.len();
    let mut rest = entries;
    let mut done: usize = 0;
    while rest.len() > 0
        invariant
            0 <= done <= all.len(),
            all.len() == n,
            rest@ == all.subrange(done as int, all.len() as int),
            registry_wf(registry),
            forall|k: int| 0 <= k < registry.keys@.len() ==> (#[trigger] registry.keys@[k])@ == registry.plugins@[k].plugin_id@,
            ids_distinct(registry.plugins@),
            registry.plugins@ == registry_of(all, done as int),
        decreases rest@.len(),
    {
        let plugin = rest.remove(0);
        let id = plugin.plugin_id.clone();
        let ghost before = registry.plugins@;
        let ghost keys_before = registry.keys@;
        proof {
            assert(plugin == all[done as int]);
        }
        registry.insert(id, plugin);
        proof {
            let p = all[done as int];
            if exists|k: int| has_id_at(before, p.plugin_id@, k) {
                let k = choose|k: int| has_id_at(before, p.plugin_id@, k);
                assert(keys_before[k]@ == p.plugin_id@);
                assert(0 <= k < before.len() && before[k].plugin_id@ == p.plugin_id@);
                assert forall|j: int| 0 <= j < before.len() && j != k implies before[j].plugin_id@ != p.plugin_id@ by {
                    if j < k {
                        assert(before[j].plugin_id@ != before[k].plugin_id@);
                    } else {
                        assert(before[k].plugin_id@ != before[j].plugin_id@);
                    }
                }
                assert(registry.plugins@ =~= before.update(k, p));
                assert(registered(before, p) == before.update(k, p));
            } else {
                assert forall|j: int| 0 <= j < before.len() implies before[j].plugin_id@ != p.plugin_id@ by {
                    assert(!has_id_at(before, p.plugin_id@, j));
                }
                assert forall|j: int| 0 <= j < keys_before.len() implies keys_before[j]@ != p.plugin_id@ by {
                    assert(keys_before[j]@ == before[j].plugin_id@);
                }
                assert(registered(before, p) == before.push(p));
            }
            assert(registry_of(all, done + 1) == registered(registry_of(all, done as int), all[done as int]));
        }
        done = done + 1;
        proof {
            assert(rest@ =~= all.subrange(done as int, all.len() as int));
        }
    }
    registry
}

} // verus!
