//! Installed plugins and the menu actions they contribute.

use vstd::prelude::*;
use crate::text::{owned, concat, str_eq, views};

verus! {

/// Where a plugin action may be offered.
#[derive(Debug, Clone, Copy, PartialEq, Eq, Structural)]
pub enum PluginActionContext {
    Global,
    Workspace,
    Tab,
    Pane,
    Selection,
}

/// One `[[actions]]` entry of a plugin manifest.
#[derive(Debug, Clone)]
pub struct PluginManifestAction {
    pub id: String,
    pub title: String,
    pub contexts: Vec<PluginActionContext>,
}

/// A plugin known to the running instance.
#[derive(Debug, Clone)]
pub struct InstalledPluginInfo {
    pub plugin_id: String,
    pub name: String,
    pub version: String,
    pub enabled: bool,
    pub actions: Vec<PluginManifestAction>,
}

/// The installed plugins, in registration order: `plugins[i]` is
/// registered under `keys[i]`, each key at most once.
#[derive(Debug, Clone)]
pub struct InstalledPluginRegistry {
    pub keys: Vec<String>,
    pub plugins: Vec<InstalledPluginInfo>,
}

/// No two plugins share an id.
pub open spec fn ids_distinct(ps: Seq<InstalledPluginInfo>) -> bool {
    forall|i: int, j: int| 0 <= i < j < ps.len() ==> ps[i].plugin_id@ != ps[j].plugin_id@
}

/// No two of `keys` are equal.
pub open spec fn keys_distinct(keys: Seq<String>) -> bool {
    forall|i: int, j: int| 0 <= i < j < keys.len() ==> keys[i]@ != keys[j]@
}

/// One key per plugin, no key twice.
pub open spec fn registry_wf(r: InstalledPluginRegistry) -> bool {
    &&& r.keys@.len() == r.plugins@.len()
    &&& keys_distinct(r.keys@)
}

/// Whether `a` of plugin `p` is offered in a menu whose own context is
/// `ctx`: only enabled plugins contribute, an action shows where it declares
/// the menu's context, and a `Global` action shows everywhere.
pub open spec fn action_visible(p: InstalledPluginInfo, a: PluginManifestAction, ctx: PluginActionContext) -> bool {
    p.enabled && (a.contexts@.contains(ctx) || a.contexts@.contains(PluginActionContext::Global))
}

/// `plugin_id.action_id`.
pub open spec fn qualified_id(p: InstalledPluginInfo, a: PluginManifestAction) -> Seq<char> {
    p.plugin_id@ + "."@ + a.id@
}

/// The visible actions among the first `n` actions of `p`, as
/// (title, qualified id) pairs in manifest order.
pub open spec fn visible_in_plugin(p: InstalledPluginInfo, n: int, ctx: PluginActionContext) -> Seq<(Seq<char>, Seq<char>)>
    decreases n,
{
    if n <= 0 {
        Seq::empty()
    } else {
        let rest = visible_in_plugin(p, n - 1, ctx);
        let a = p.actions@[n - 1];
        if action_visible(p, a, ctx) {
            rest.push((a.title@, qualified_id(p, a)))
        } else {
            rest
        }
    }
}

/// The visible actions of the first `n` plugins, in registry order.
pub open spec fn visible_actions(ps: Seq<InstalledPluginInfo>, n: int, ctx: PluginActionContext) -> Seq<(Seq<char>, Seq<char>)>
    decreases n,
{
    if n <= 0 {
        Seq::empty()
    } else {
        visible_actions(ps, n - 1, ctx) + visible_in_plugin(ps[n - 1], ps[n - 1].actions@.len() as int, ctx)
    }
}

/// Every visible action of the registry for `ctx`.
pub open spec fn registry_actions(r: InstalledPluginRegistry, ctx: PluginActionContext) -> Seq<(Seq<char>, Seq<char>)> {
    visible_actions(r.plugins@, r.plugins@.len() as int, ctx)
}

/// Titles of the visible actions, in order.
pub open spec fn registry_titles(r: InstalledPluginRegistry, ctx: PluginActionContext) -> Seq<Seq<char>> {
    registry_actions(r, ctx).map_values(|e: (Seq<char>, Seq<char>)| e.0)
}

/// The qualified id of the first visible action titled `label`.
pub open spec fn first_action_titled(acts: Seq<(Seq<char>, Seq<char>)>, label: Seq<char>) -> Option<Seq<char>>
    decreases acts.len(),
{
    if acts.len() == 0 {
        None
    } else if acts[0].0 == label {
        Some(acts[0].1)
    } else {
        first_action_titled(acts.drop_first(), label)
    }
}

fn contexts_contain(cs: &Vec<PluginActionContext>, ctx: PluginActionContext) -> (r: bool)
    ensures
        r == cs@.contains(ctx),
{
    let mut i: usize = 0;
    while i < cs.len()
        invariant
            i <= cs.len(),
            forall|k: int| 0 <= k < i ==> cs@[k] != ctx,
        decreases cs.len() - i,
    {
        if cs[i] == ctx {
            return true;
        }
        i = i + 1;
    }
    false
}

/// A visible action, as the menu shows it and the invoke path names it.
#[derive(Debug, Clone)]
pub struct PluginMenuAction {
    pub title: String,
    pub qualified_id: String,
}

/// Every enabled plugin action offered in a menu of context `ctx`, in
/// registry order then manifest order.
pub fn plugin_actions_for_context(registry: &InstalledPluginRegistry, ctx: PluginActionContext) -> (r: Vec<PluginMenuAction>)
    ensures
        r@.len() == registry_actions(*registry, ctx).len(),
        forall|k: int| 0 <= k < r@.len() ==> (#[trigger] r@[k]).title@ == registry_actions(*registry, ctx)[k].0
            && r@[k].qualified_id@ == registry_actions(*registry, ctx)[k].1,
{
    let ps = &registry.plugins;
    let mut out: Vec<PluginMenuAction> = Vec::new();
    let mut i: usize = 0;
    while i < ps.len()
        invariant
            i <= ps.len(),
            ps@ == registry.plugins@,
            out@.len() == visible_actions(ps@, i as int, ctx).len(),
            forall|k: int| 0 <= k < out@.len() ==> (#[trigger] out@[k]).title@ == visible_actions(ps@, i as int, ctx)[k].0
                && out@[k].qualified_id@ == visible_actions(ps@, i as int, ctx)[k].1,
        decreases ps.len() - i,
    {
        let p = &ps[i];
        let ghost base = visible_actions(ps@, i as int, ctx);
        let mut j: usize = 0;
        while j < p.actions.len()
            invariant
                i < ps.len(),
                *p == ps@[i as int],
                j <= p.actions.len(),
                out@.len() == base.len() + visible_in_plugin(*p, j as int, ctx).len(),
                forall|k: int| 0 <= k < out@.len() ==> (#[trigger] out@[k]).title@ == (base + visible_in_plugin(*p, j as int, ctx))[k].0
                    && out@[k].qualified_id@ == (base + visible_in_plugin(*p, j as int, ctx))[k].1,
            decreases p.actions.len() - j,
        {
            let a = &p.actions[j];
            if p.enabled && (contexts_contain(&a.contexts, ctx) || contexts_contain(&a.contexts, PluginActionContext::Global)) {
                let with_dot = concat(p.plugin_id.as_str(), ".");
                let qid = concat(with_dot.as_str(), a.id.as_str());
                out.push(PluginMenuAction { title: owned(a.title.as_str()), qualified_id: qid });
            }
            proof {
                assert(base + visible_in_plugin(*p, j + 1, ctx) =~= if action_visible(*p, p.actions@[j as int], ctx) {
                    (base + visible_in_plugin(*p, j as int, ctx)).push((p.actions@[j as int].title@, qualified_id(*p, p.actions@[j as int])))
                } else {
                    base + visible_in_plugin(*p, j as int, ctx)
                });
            }
            j = j + 1;
        }
        i = i + 1;
    }
    out
}

impl InstalledPluginRegistry {
    pub fn new() -> (r: Self)
        ensures
            registry_wf(r),
            r.plugins@.len() == 0,
    {
        InstalledPluginRegistry { keys: Vec::new(), plugins: Vec::new() }
    }

    /// Registers `plugin` under `plugin_id`: replaces the plugin already
    /// registered under that key in place, or appends it.
    pub fn insert(&mut self, plugin_id: String, plugin: InstalledPluginInfo)
        requires
            registry_wf(*old(self)),
        ensures
            registry_wf(*final(self)),
            (exists|k: int| 0 <= k < old(self).keys@.len() && old(self).keys@[k]@ == plugin_id@)
                ==> final(self).keys@ == old(self).keys@
                && final(self).plugins@.len() == old(self).plugins@.len()
                && forall|k: int| 0 <= k < old(self).plugins@.len() ==> #[trigger] final(self).plugins@[k] == if old(self).keys@[k]@ == plugin_id@ {
                    plugin
                } else {
                    old(self).plugins@[k]
                },
            (forall|k: int| 0 <= k < old(self).keys@.len() ==> old(self).keys@[k]@ != plugin_id@)
                ==> final(self).keys@ == old(self).keys@.push(plugin_id)
                && final(self).plugins@ == old(self).plugins@.push(plugin),
    {
        let mut i: usize = 0;
        while i < self.keys.len()
            invariant
                i <= self.keys.len(),
                self.keys@ == old(self).keys@,
                self.plugins@ == old(self).plugins@,
                registry_wf(*old(self)),
                forall|k: int| 0 <= k < i ==> self.keys@[k]@ != plugin_id@,
            decreases self.keys.len() - i,
        {
            if str_eq(self.keys[i].as_str(), plugin_id.as_str()) {
                self.plugins.set(i, plugin);
                proof {
                    assert forall|k: int| 0 <= k < old(self).keys@.len() && k != i implies old(self).keys@[k]@ != plugin_id@ by {
                        if k < i {
                        } else {
                            assert(old(self).keys@[i as int]@ == plugin_id@);
                        }
                    }
                }
                return;
            }
            i = i + 1;
        }
        self.keys.push(plugin_id);
        self.plugins.push(plugin);
    }
}

} // verus!
