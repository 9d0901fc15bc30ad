//! The per-repo configuration cache: a load within one second of the last
//! file probe trusts the cache outright; past that window the files' mtimes
//! are probed, and only a changed fingerprint re-reads the files.

use vstd::prelude::*;
use crate::text::{owned, str_eq};
use crate::bora_config::join_path;
use crate::bora_config::{BoraConfig, opt_config_view, clone_opt_config, RepoConfigPaths,
    repo_config_paths, read_repo_config, repo_config_read, SettingsRead, WtRunScripts, read_layer_ok};

verus! {

/// How long a probe stays trusted, in nanoseconds.
pub const PROBE_THROTTLE_NANOS: u64 = 1_000_000_000u64;

/// A file that takes part in a load and its modification time (nanoseconds
/// from the Unix epoch) when it was probed; `None` when the file was absent.
#[derive(Debug, Clone)]
pub struct Fingerprint {
    pub path: String,
    pub mtime: Option<i128>,
}

pub open spec fn fingerprint_view(f: Fingerprint) -> (Seq<char>, Option<i128>) {
    (f.path@, f.mtime)
}

pub open spec fn fingerprint_views(fs: Seq<Fingerprint>) -> Seq<(Seq<char>, Option<i128>)> {
    fs.map_values(|f: Fingerprint| fingerprint_view(f))
}

/// The cached load of one repo.
#[derive(Debug, Clone)]
pub struct CachedRepoConfig {
    pub root: String,
    pub fingerprints: Vec<Fingerprint>,
    /// Clock reading (nanoseconds) of the last fingerprint probe.
    pub last_probe: u64,
    pub config: Option<BoraConfig>,
}

/// Cached loads, one per repo root.
#[derive(Debug, Clone)]
pub struct BoraConfigCache {
    pub entries: Vec<CachedRepoConfig>,
}

/// No root is cached twice.
pub open spec fn roots_distinct(es: Seq<CachedRepoConfig>) -> bool {
    forall|i: int, j: int| 0 <= i < j < es.len() ==> es[i].root@ != es[j].root@
}

/// `k` holds the cached load of `root`.
pub open spec fn entry_at(es: Seq<CachedRepoConfig>, root: Seq<char>, k: int) -> bool {
    0 <= k < es.len() && es[k].root@ == root
}

pub open spec fn cached(es: Seq<CachedRepoConfig>, root: Seq<char>) -> bool {
    exists|k: int| entry_at(es, root, k)
}

/// The probe at `last` is still trusted at clock reading `now`: `now` is
/// not before it and less than the throttle window after it.
pub open spec fn probe_fresh(last: u64, now: u64) -> bool {
    last <= now && now - last < PROBE_THROTTLE_NANOS
}

impl BoraConfigCache {
    pub fn new() -> (r: Self)
        ensures
            r.entries@.len() == 0,
    {
        BoraConfigCache { entries: Vec::new() }
    }

    fn find(&self, root: &str) -> (r: Option<usize>)
        requires
            roots_distinct(self.entries@),
        ensures
            match r {
                Some(k) => entry_at(self.entries@, root@, k as int),
                None => !cached(self.entries@, root@),
            },
    {
        let mut i: usize = 0;
        while i < self.entries.len()
            invariant
                i <= self.entries.len(),
                forall|j: int| 0 <= j < i ==> self.entries@[j].root@ != root@,
            decreases self.entries.len() - i,
        {
            if str_eq(self.entries[i].root.as_str(), root) {
                return Some(i);
            }
            i = i + 1;
        }
        None
    }

    /// Within the throttle window of the last probe of `root`: the cached
    /// config, trusted without probing. `None` when `root` is not cached or
    /// the window has passed.
    pub fn lookup_fresh(&self, root: &str, now: u64) -> (r: Option<Option<BoraConfig>>)
        requires
            roots_distinct(self.entries@),
        ensures
            match r {
                Some(c) => exists|k: int| entry_at(self.entries@, root@, k) && probe_fresh(self.entries@[k].last_probe, now)
                    && opt_config_view(c) == opt_config_view(self.entries@[k].config),
                None => forall|k: int| entry_at(self.entries@, root@, k) ==> !probe_fresh(self.entries@[k].last_probe, now),
            },
    {
        match self.find(root) {
            Some(k) => {
                let last = self.entries[k].last_probe;
                if last <= now && now - last < PROBE_THROTTLE_NANOS {
                    Some(clone_opt_config(&self.entries[k].config))
                } else {
                    None
                }
            },
            None => None,
        }
    }

    /// Records a probe of `root` at `now`. When `root` is cached and its
    /// fingerprints are exactly `fingerprints`, returns the cached config.
    pub fn probe(&mut self, root: &str, now: u64, fingerprints: &Vec<Fingerprint>) -> (r: Option<Option<BoraConfig>>)
        requires
            roots_distinct(old(self).entries@),
        ensures
            roots_distinct(final(self).entries@),
            final(self).entries@.len() == old(self).entries@.len(),
            forall|k: int| 0 <= k < old(self).entries@.len() ==> {
                let e = old(self).entries@[k];
                let f = #[trigger] final(self).entries@[k];
                &&& f.root@ == e.root@
                &&& fingerprint_views(f.fingerprints@) == fingerprint_views(e.fingerprints@)
                &&& opt_config_view(f.config) == opt_config_view(e.config)
                &&& f.last_probe == if e.root@ == root@ { now } else { e.last_probe }
            },
            match r {
                Some(c) => exists|k: int| entry_at(old(self).entries@, root@, k)
                    && fingerprint_views(old(self).entries@[k].fingerprints@) == fingerprint_views(fingerprints@)
                    && opt_config_view(c) == opt_config_view(old(self).entries@[k].config),
                None => forall|k: int| entry_at(old(self).entries@, root@, k)
                    ==> fingerprint_views(old(self).entries@[k].fingerprints@) != fingerprint_views(fingerprints@),
            },
    {
        match self.find(root) {
            Some(k) => {
                let mut e = self.entries.remove(k);
                e.last_probe = now;
                let hit = fingerprints_equal(&e.fingerprints, fingerprints);
                let result = if hit { Some(clone_opt_config(&e.config)) } else { None };
                self.entries.insert(k, e);
                proof {
                    assert(self.entries@ =~= old(self).entries@.update(k as int, e));
                    assert forall|i: int, j: int| 0 <= i < j < self.entries@.len() implies self.entries@[i].root@ != self.entries@[j].root@ by {
                        assert(self.entries@[i].root@ == old(self).entries@[i].root@);
                        assert(self.entries@[j].root@ == old(self).entries@[j].root@);
                    }
                    assert forall|i: int| 0 <= i < old(self).entries@.len() implies (#[trigger] self.entries@[i]).last_probe
                        == if old(self).entries@[i].root@ == root@ { now } else { old(self).entries@[i].last_probe } by {
                        if i != k {
                            assert(self.entries@[i] == old(self).entries@[i]);
                            if i < k {
                                assert(old(self).entries@[i].root@ != old(self).entries@[k as int].root@);
                            } else {
                                assert(old(self).entries@[k as int].root@ != old(self).entries@[i].root@);
                            }
                        }
                    }
                }
                result
            },
            None => {
                proof {
                    assert forall|i: int| 0 <= i < old(self).entries@.len() implies old(self).entries@[i].root@ != root@ by {
                        if old(self).entries@[i].root@ == root@ {
                            assert(entry_at(old(self).entries@, root@, i));
                        }
                    }
                }
                None
            },
        }
    }

    /// Stores the load of `root`, replacing any cached one.
    pub fn store(&mut self, root: &str, fingerprints: Vec<Fingerprint>, now: u64, config: Option<BoraConfig>)
        requires
            roots_distinct(old(self).entries@),
        ensures
            roots_distinct(final(self).entries@),
            exists|k: int| entry_at(final(self).entries@, root@, k) && {
                let e = final(self).entries@[k];
                &&& fingerprint_views(e.fingerprints@) == fingerprint_views(fingerprints@)
                &&& e.last_probe == now
                &&& opt_config_view(e.config) == opt_config_view(config)
            },
            forall|r: Seq<char>| r != root@ ==> (cached(final(self).entries@, r) <==> cached(old(self).entries@, r)),
            forall|i: int, j: int| entry_at(old(self).entries@, old(self).entries@[i].root@, i)
                && old(self).entries@[i].root@ != root@ && entry_at(final(self).entries@, old(self).entries@[i].root@, j)
                ==> #[trigger] final(self).entries@[j] == #[trigger] old(self).entries@[i],
    {
        let fresh = CachedRepoConfig { root: owned(root), fingerprints, last_probe: now, config };
        match self.find(root) {
            Some(k) => {
                self.entries.set(k, fresh);
                proof {
                    assert(entry_at(self.entries@, root@, k as int));
                    assert forall|i: int, j: int| 0 <= i < j < self.entries@.len() implies self.entries@[i].root@ != self.entries@[j].root@ by {
                        if i != k && j != k {
                            assert(self.entries@[i] == old(self).entries@[i]);
                            assert(self.entries@[j] == old(self).entries@[j]);
                        } else if i == k {
                            assert(self.entries@[j] == old(self).entries@[j]);
                        } else {
                            assert(self.entries@[i] == old(self).entries@[i]);
                        }
                    }
                    assert forall|r: Seq<char>| r != root@ implies (cached(self.entries@, r) <==> cached(old(self).entries@, r)) by {
                        if cached(self.entries@, r) {
                            let j = choose|j: int| entry_at(self.entries@, r, j);
                            assert(j != k);
                            assert(entry_at(old(self).entries@, r, j));
                        }
                        if cached(old(self).entries@, r) {
                            let j = choose|j: int| entry_at(old(self).entries@, r, j);
                            assert(j != k);
                            assert(entry_at(self.entries@, r, j));
                        }
                    }
                }
            },
            None => {
                self.entries.push(fresh);
                proof {
                    let n = old(self).entries@.len() as int;
                    assert(entry_at(self.entries@, root@, n));
                    assert forall|i: int, j: int| 0 <= i < j < self.entries@.len() implies self.entries@[i].root@ != self.entries@[j].root@ by {
                        if j == n {
                            assert(!entry_at(old(self).entries@, root@, i));
                        }
                    }
                    assert forall|r: Seq<char>| r != root@ implies (cached(self.entries@, r) <==> cached(old(self).entries@, r)) by {
                        if cached(self.entries@, r) {
                            let j = choose|j: int| entry_at(self.entries@, r, j);
                            assert(j != n);
                            assert(entry_at(old(self).entries@, r, j));
                        }
                        if cached(old(self).entries@, r) {
                            let j = choose|j: int| entry_at(old(self).entries@, r, j);
                            assert(entry_at(self.entries@, r, j));
                        }
                    }
                }
            },
        }
    }
}

/// Field-by-field equality of two fingerprint lists.
pub fn fingerprints_equal(a: &Vec<Fingerprint>, b: &Vec<Fingerprint>) -> (r: bool)
    ensures
        r == (fingerprint_views(a@) == fingerprint_views(b@)),
{
    if a.len() != b.len() {
        proof {
            assert(fingerprint_views(a@).len() != fingerprint_views(b@).len());
        }
        return false;
    }
    let mut i: usize = 0;
    while i < a.len()
        invariant
            a.len() == b.len(),
            i <= a.len(),
            forall|j: int| 0 <= j < i ==> fingerprint_view(#[trigger] a@[j]) == fingerprint_view(b@[j]),
        decreases a.len() - i,
    {
        let same_time = match (a[i].mtime, b[i].mtime) {
            (Some(x), Some(y)) => x == y,
            (None, None) => true,
            _ => false,
        };
        if !same_time || !str_eq(a[i].path.as_str(), b[i].path.as_str()) {
            proof {
                assert(fingerprint_views(a@)[i as int] != fingerprint_views(b@)[i as int]);
            }
            return false;
        }
        i = i + 1;
    }
    proof {
        assert(fingerprint_views(a@) =~= fingerprint_views(b@));
    }
    true
}

/// What a store followed by a probe with the same fingerprints gives back:
/// the stored config. A probe with other fingerprints misses.
pub proof fn law_probe_returns_what_was_stored(
    stored: BoraConfigCache,
    root: Seq<char>,
    fingerprints: Seq<(Seq<char>, Option<i128>)>,
    config: Option<(Option<crate::bora_config::BoraPortsConfig>, Seq<(Seq<char>, Seq<char>, crate::bora_config::BoraCommandMode, Option<Seq<char>>)>, Option<Option<Seq<char>>>)>,
    probed: Seq<(Seq<char>, Option<i128>)>,
    k: int,
)
    requires
        roots_distinct(stored.entries@),
        entry_at(stored.entries@, root, k),
        fingerprint_views(stored.entries@[k].fingerprints@) == fingerprints,
        opt_config_view(stored.entries@[k].config) == config,
    ensures
        forall|j: int| #[trigger] entry_at(stored.entries@, root, j) ==> j == k,
        probed == fingerprints ==> forall|j: int| #[trigger] entry_at(stored.entries@, root, j)
            ==> fingerprint_views(stored.entries@[j].fingerprints@) == probed
            && opt_config_view(stored.entries@[j].config) == config,
        probed != fingerprints ==> forall|j: int| #[trigger] entry_at(stored.entries@, root, j)
            ==> fingerprint_views(stored.entries@[j].fingerprints@) != probed,
{
    assert forall|j: int| #[trigger] entry_at(stored.entries@, root, j) implies j == k by {
        if j < k {
            assert(stored.entries@[j].root@ != stored.entries@[k].root@);
        } else if j > k {
            assert(stored.entries@[k].root@ != stored.entries@[j].root@);
        }
    }
}

} // verus!

verus! {

/// The files a load of `root` takes part of, in probe order: the local and
/// shared wt settings, the conductor settings, and `.bora.toml`.
pub open spec fn config_files(root: Seq<char>) -> Seq<Seq<char>> {
    seq![
        join_path(root, ".wt/settings.local.toml"@),
        join_path(root, ".wt/settings.toml"@),
        join_path(root, ".conductor/settings.toml"@),
        join_path(root, ".bora.toml"@),
    ]
}

/// `fs` pairs each of `paths` with a modification time `stat` gave for it.
pub open spec fn stat_gave<S: Fn(&str) -> Option<i128>>(
    stat: S,
    paths: Seq<Seq<char>>,
    fs: Seq<(Seq<char>, Option<i128>)>,
) -> bool {
    &&& fs.len() == paths.len()
    &&& forall|i: int| 0 <= i < fs.len() ==> (#[trigger] fs[i]).0 == paths[i]
        && exists|p: &str| p@ == paths[i] && #[trigger] stat.ensures((p,), fs[i].1)
}

/// The last probe of `root` is still trusted at `now`.
pub open spec fn fresh_hit(before: BoraConfigCache, root: Seq<char>, now: u64) -> bool {
    exists|k: int| entry_at(before.entries@, root, k) && probe_fresh(before.entries@[k].last_probe, now)
}

/// What a load leaves behind and returns, whatever the files held:
///
/// - within the throttle window of the last probe of `root`, the cached
///   config with no warnings and the cache untouched;
/// - otherwise the files were probed (`fs`), the cache holds a load of
///   `root` probed at `now` with those fingerprints and the config returned,
///   and when the cached fingerprints were already `fs` the cached config
///   comes back without warnings.
pub open spec fn load_post(
    before: BoraConfigCache,
    after: BoraConfigCache,
    root: Seq<char>,
    now: u64,
    fs: Seq<(Seq<char>, Option<i128>)>,
    r: (Option<BoraConfig>, Vec<String>),
) -> bool {
    if fresh_hit(before, root, now) {
        &&& after == before
        &&& r.1@.len() == 0
        &&& exists|k: int| entry_at(before.entries@, root, k) && opt_config_view(r.0) == opt_config_view(before.entries@[k].config)
    } else {
        &&& exists|k: int| entry_at(after.entries@, root, k) && after.entries@[k].last_probe == now
            && fingerprint_views(after.entries@[k].fingerprints@) == fs
            && opt_config_view(after.entries@[k].config) == opt_config_view(r.0)
        &&& (exists|k: int| entry_at(before.entries@, root, k) && fingerprint_views(before.entries@[k].fingerprints@) == fs)
            ==> r.1@.len() == 0 && exists|k: int| entry_at(before.entries@, root, k)
                && opt_config_view(r.0) == opt_config_view(before.entries@[k].config)
    }
}

/// What one parse of a settings file comes to: the parsed value, or the
/// parse error's text.
pub open spec fn settings_of<T>(out: Result<T, String>) -> SettingsRead<T> {
    match out {
        Ok(v) => SettingsRead::Parsed(v),
        Err(e) => SettingsRead::Invalid(e),
    }
}

/// `r` is what reading `path` with `read` and parsing the text it gave with
/// `parse` came to: `Missing` when `read` gave nothing, else what the parse
/// gave.
pub open spec fn settings_read_from<R, P>(
    read: R,
    parse: P,
    path: &str,
    r: SettingsRead<Option<WtRunScripts>>,
) -> bool
    where
        R: Fn(&str) -> Option<String>,
        P: Fn(&str) -> Result<Option<WtRunScripts>, String>,
{
    if r is Missing {
        read.ensures((path,), None)
    } else {
        exists|text: String, t: &str, out: Result<Option<WtRunScripts>, String>|
            #[trigger] read.ensures((path,), Some(text)) && t@ == text@
            && #[trigger] parse.ensures((t,), out) && r == settings_of(out)
    }
}

/// `r` is what reading `path` with `read` and parsing the text it gave with
/// `parse` came to, for a `.bora.toml`.
pub open spec fn bora_read_from<R, Q>(read: R, parse: Q, path: &str, r: SettingsRead<BoraConfig>) -> bool
    where
        R: Fn(&str) -> Option<String>,
        Q: Fn(&str) -> Result<BoraConfig, String>,
{
    if r is Missing {
        read.ensures((path,), None)
    } else {
        exists|text: String, t: &str, out: Result<BoraConfig, String>|
            #[trigger] read.ensures((path,), Some(text)) && t@ == text@
            && #[trigger] parse.ensures((t,), out) && r == settings_of(out)
    }
}

/// `r` is the repo configuration of `root` as the files read now give it:
/// each of the three wt settings files and `.bora.toml`, at its path under
/// `root`, was read and parsed, and `r` is the config and the warnings that
/// those four reads give.
pub open spec fn loaded_from_files<R, P, Q>(
    read: R,
    parse_settings: P,
    parse_bora: Q,
    root: Seq<char>,
    r: (Option<BoraConfig>, Vec<String>),
) -> bool
    where
        R: Fn(&str) -> Option<String>,
        P: Fn(&str) -> Result<Option<WtRunScripts>, String>,
        Q: Fn(&str) -> Result<BoraConfig, String>,
{
    exists|pc: &str, ps: &str, pl: &str, pb: &str,
        rc: SettingsRead<Option<WtRunScripts>>, rs: SettingsRead<Option<WtRunScripts>>,
        rl: SettingsRead<Option<WtRunScripts>>, rb: SettingsRead<BoraConfig>|
        #![trigger settings_read_from(read, parse_settings, pc, rc), settings_read_from(read, parse_settings, ps, rs),
            settings_read_from(read, parse_settings, pl, rl), bora_read_from(read, parse_bora, pb, rb)]
    {
        &&& pc@ == join_path(root, ".conductor/settings.toml"@)
        &&& ps@ == join_path(root, ".wt/settings.toml"@)
        &&& pl@ == join_path(root, ".wt/settings.local.toml"@)
        &&& pb@ == join_path(root, ".bora.toml"@)
        &&& settings_read_from(read, parse_settings, pc, rc)
        &&& settings_read_from(read, parse_settings, ps, rs)
        &&& settings_read_from(read, parse_settings, pl, rl)
        &&& bora_read_from(read, parse_bora, pb, rb)
        &&& repo_config_read(pc@, ps@, pl@, pb@, rc, rs, rl, rb, r)
    }
}

/// Reads and parses `.bora.toml`.
fn read_bora<R, Q>(path: &str, read: &R, parse: &Q) -> (r: SettingsRead<BoraConfig>)
    where
        R: Fn(&str) -> Option<String>,
        Q: Fn(&str) -> Result<BoraConfig, String>,
    requires
        forall|p: &str| #[trigger] read.requires((p,)),
        forall|t: &str| #[trigger] parse.requires((t,)),
    ensures
        bora_read_from(*read, *parse, path, r),
{
    match read(path) {
        None => SettingsRead::Missing,
        Some(text) => {
            let t = text.as_str();
            let parsed = parse(t);
            assert(parse.ensures((t,), parsed));
            match parsed {
                Ok(config) => SettingsRead::Parsed(config),
                Err(e) => SettingsRead::Invalid(e),
            }
        },
    }
}

/// Reads and parses one wt settings file.
fn read_settings<R, P>(path: &str, read: &R, parse: &P) -> (r: SettingsRead<Option<WtRunScripts>>)
    where
        R: Fn(&str) -> Option<String>,
        P: Fn(&str) -> Result<Option<WtRunScripts>, String>,
    requires
        forall|p: &str| #[trigger] read.requires((p,)),
        forall|t: &str| #[trigger] parse.requires((t,)),
        forall|t: &str, out: Result<Option<WtRunScripts>, String>| #[trigger] parse.ensures((t,), out) ==> match out {
            Ok(Some(run)) => crate::bora_config::layer_ok(run),
            _ => true,
        },
    ensures
        read_layer_ok(r),
        settings_read_from(*read, *parse, path, r),
{
    match read(path) {
        None => SettingsRead::Missing,
        Some(text) => {
            let t = text.as_str();
            let parsed = parse(t);
            assert(parse.ensures((t,), parsed));
            match parsed {
                Ok(run) => SettingsRead::Parsed(run),
                Err(e) => SettingsRead::Invalid(e),
            }
        },
    }
}

/// Loads the repo configuration of `repo_root` through the cache. `stat`
/// gives a file's modification time, `read` its contents, `parse_settings`
/// and `parse_bora` parse a wt settings file and a `.bora.toml`, `clock`
/// reads the time in nanoseconds.
///
/// Within the throttle window of the last probe the cached config is
/// returned with no file touched; past it, all four files are stat'ed, and
/// only when a fingerprint changed are they read and parsed again.
/// Warnings come only from loads that read the files.
pub fn load_bora_config_impl<S, R, P, Q, C>(
    cache: &mut BoraConfigCache,
    repo_root: &str,
    stat: &S,
    read: &R,
    parse_settings: &P,
    parse_bora: &Q,
    clock: &C,
) -> (r: (Option<BoraConfig>, Vec<String>))
    where
        S: Fn(&str) -> Option<i128>,
        R: Fn(&str) -> Option<String>,
        P: Fn(&str) -> Result<Option<WtRunScripts>, String>,
        Q: Fn(&str) -> Result<BoraConfig, String>,
        C: Fn() -> u64,
    requires
        roots_distinct(old(cache).entries@),
        forall|p: &str| #[trigger] stat.requires((p,)),
        forall|p: &str| #[trigger] read.requires((p,)),
        forall|t: &str| #[trigger] parse_settings.requires((t,)),
        forall|t: &str| #[trigger] parse_bora.requires((t,)),
        clock.requires(()),
        forall|t: &str, out: Result<Option<WtRunScripts>, String>| #[trigger] parse_settings.ensures((t,), out) ==> match out {
            Ok(Some(run)) => crate::bora_config::layer_ok(run),
            _ => true,
        },
    ensures
        roots_distinct(final(cache).entries@),
        exists|now: u64, fs: Seq<(Seq<char>, Option<i128>)>| {
            &&& clock.ensures((), now)
            &&& (fresh_hit(*old(cache), repo_root@, now) || stat_gave(*stat, config_files(repo_root@), fs))
            &&& load_post(*old(cache), *final(cache), repo_root@, now, fs, r)
            &&& !fresh_hit(*old(cache), repo_root@, now)
                && !(exists|k: int| entry_at(old(cache).entries@, repo_root@, k)
                    && fingerprint_views(old(cache).entries@[k].fingerprints@) == fs)
                ==> loaded_from_files(*read, *parse_settings, *parse_bora, repo_root@, r)
        },
{
    let now = clock();
    match cache.lookup_fresh(repo_root, now) {
        Some(config) => {
            let r = (config, Vec::new());
            proof {
                assert(load_post(*old(cache), *cache, repo_root@, now, Seq::empty(), r));
            }
            return r;
        },
        None => {},
    }
    let paths = repo_config_paths(repo_root);
    let p0 = paths.wt_local.as_str();
    let m0 = stat(p0);
    let p1 = paths.wt_shared.as_str();
    let m1 = stat(p1);
    let p2 = paths.conductor.as_str();
    let m2 = stat(p2);
    let p3 = paths.bora_toml.as_str();
    let m3 = stat(p3);
    let mut fingerprints: Vec<Fingerprint> = Vec::new();
    fingerprints.push(Fingerprint { path: owned(p0), mtime: m0 });
    fingerprints.push(Fingerprint { path: owned(p1), mtime: m1 });
    fingerprints.push(Fingerprint { path: owned(p2), mtime: m2 });
    fingerprints.push(Fingerprint { path: owned(p3), mtime: m3 });
    let ghost fs = fingerprint_views(fingerprints@);
    proof {
        let files = config_files(repo_root@);
        assert(fs =~= seq![(p0@, m0), (p1@, m1), (p2@, m2), (p3@, m3)]);
        assert(stat.ensures((p0,), m0));
        assert(stat.ensures((p1,), m1));
        assert(stat.ensures((p2,), m2));
        assert(stat.ensures((p3,), m3));
        assert forall|i: int| 0 <= i < fs.len() implies (#[trigger] fs[i]).0 == files[i]
            && exists|p: &str| p@ == files[i] && #[trigger] stat.ensures((p,), fs[i].1) by {
            if i == 0 {
                assert(p0@ == files[0] && stat.ensures((p0,), fs[0].1));
            } else if i == 1 {
                assert(p1@ == files[1] && stat.ensures((p1,), fs[1].1));
            } else if i == 2 {
                assert(p2@ == files[2] && stat.ensures((p2,), fs[2].1));
            } else {
                assert(p3@ == files[3] && stat.ensures((p3,), fs[3].1));
            }
        }
        assert(stat_gave(*stat, files, fs));
    }
    let ghost probed_at = cache.entries@;
    match cache.probe(repo_root, now, &fingerprints) {
        Some(config) => {
            proof {
                let k = choose|k: int| entry_at(probed_at, repo_root@, k)
                    && fingerprint_views(probed_at[k].fingerprints@) == fingerprint_views(fingerprints@)
                    && opt_config_view(config) == opt_config_view(probed_at[k].config);
                assert(entry_at(cache.entries@, repo_root@, k));
                assert(cache.entries@[k].last_probe == now);
                assert(opt_config_view(cache.entries@[k].config) == opt_config_view(probed_at[k].config));
            }
            let r = (config, Vec::new());
            proof {
                assert(load_post(*old(cache), *cache, repo_root@, now, fs, r));
            }
            return r;
        },
        None => {},
    }
    let pc = paths.conductor.as_str();
    let ps = paths.wt_shared.as_str();
    let pl = paths.wt_local.as_str();
    let pb = paths.bora_toml.as_str();
    let conductor = read_settings(pc, read, parse_settings);
    let wt_shared = read_settings(ps, read, parse_settings);
    let wt_local = read_settings(pl, read, parse_settings);
    let bora_toml = read_bora(pb, read, parse_bora);
    let ghost (rc, rs, rl, rb) = (conductor, wt_shared, wt_local, bora_toml);
    let (config, warnings) = read_repo_config(&paths, conductor, wt_shared, wt_local, bora_toml);
    let stored = clone_opt_config(&config);
    cache.store(repo_root, fingerprints, now, stored);
    let r = (config, warnings);
    proof {
        assert(!fresh_hit(*old(cache), repo_root@, now));
        assert(load_post(*old(cache), *cache, repo_root@, now, fs, r));
        assert(settings_read_from(*read, *parse_settings, pc, rc));
        assert(settings_read_from(*read, *parse_settings, ps, rs));
        assert(settings_read_from(*read, *parse_settings, pl, rl));
        assert(bora_read_from(*read, *parse_bora, pb, rb));
        assert(repo_config_read(pc@, ps@, pl@, pb@, rc, rs, rl, rb, r));
        assert(loaded_from_files(*read, *parse_settings, *parse_bora, repo_root@, r));
    }
    r
}

} // verus!
