use std::cell::{Cell, RefCell};
use std::collections::HashMap;

use bora::bora_config::{
    commands_for_branch, default_per_worktree, merge_wt_run_layer, repo_config_paths, wt_commands,
    BoraCommand, BoraCommandMode, BoraConfig, BoraFlowConfig, BoraPortsConfig, ScriptEntry,
    ScriptTable, WtRunScript, WtRunScripts,
};
use bora::config_cache::{load_bora_config_impl, BoraConfigCache, PROBE_THROTTLE_NANOS};
use bora::worktree_list::{parse_worktree_list_porcelain, port_for_worktrees};

/// `.wt/settings.toml` text to its `scripts.run` layer.
fn parse_wt_settings(text: &str) -> Result<Option<WtRunScripts>, String> {
    let table: toml::Table = text.parse().map_err(|e: toml::de::Error| e.to_string())?;
    let Some(scripts) = table.get("scripts") else {
        return Ok(None);
    };
    let Some(run) = scripts.get("run") else {
        return Ok(None);
    };
    match run {
        toml::Value::String(cmd) => Ok(Some(WtRunScripts::Legacy(cmd.clone()))),
        toml::Value::Table(named) => {
            let entries = named
                .iter()
                .map(|(id, v)| ScriptEntry {
                    id: id.clone(),
                    script: WtRunScript {
                        command: v.get("command").and_then(|c| c.as_str()).map(str::to_string),
                        args: v.get("args").and_then(|a| a.as_array()).map(|a| {
                            a.iter().filter_map(|x| x.as_str().map(str::to_string)).collect()
                        }),
                        hide: v.get("hide").and_then(|h| h.as_bool()),
                    },
                })
                .collect();
            Ok(Some(WtRunScripts::Named(ScriptTable { entries })))
        }
        _ => Err("scripts.run must be a string or a table".to_string()),
    }
}

/// `.bora.toml` text to its config.
fn parse_bora_toml(text: &str) -> Result<BoraConfig, String> {
    let table: toml::Table = text.parse().map_err(|e: toml::de::Error| e.to_string())?;
    let ports = table.get("ports").map(|p| BoraPortsConfig {
        base: p.get("base").and_then(|v| v.as_integer()).unwrap_or(0) as u16,
        per_worktree: p
            .get("per_worktree")
            .and_then(|v| v.as_integer())
            .map(|v| v as u16)
            .unwrap_or_else(default_per_worktree),
        max: p.get("max").and_then(|v| v.as_integer()).map(|v| v as u16),
    });
    let commands = table
        .get("commands")
        .and_then(|c| c.as_array())
        .map(|cs| {
            cs.iter()
                .map(|c| BoraCommand {
                    label: c.get("label").and_then(|v| v.as_str()).unwrap_or("").to_string(),
                    command: c.get("command").and_then(|v| v.as_str()).unwrap_or("").to_string(),
                    mode: match c.get("mode").and_then(|v| v.as_str()) {
                        Some("pane") => BoraCommandMode::Pane,
                        _ => BoraCommandMode::Shell,
                    },
                    branch: c.get("branch").and_then(|v| v.as_str()).map(str::to_string),
                })
                .collect()
        })
        .unwrap_or_default();
    let flow = table.get("flow").map(|f| BoraFlowConfig {
        command: f.get("command").and_then(|v| v.as_str()).map(str::to_string),
    });
    Ok(BoraConfig { ports, commands, flow })
}

#[test]
fn port_allocation_with_synthetic_worktrees() {
    let porcelain = "\
worktree /repo/main
branch refs/heads/main

worktree /repo/trees/feature-b
branch refs/heads/feature-b

worktree /repo/trees/feature-a
branch refs/heads/feature-a

";
    let worktrees = parse_worktree_list_porcelain(porcelain);
    // Primary = /repo/main (index 0)
    // Linked sorted by branch: feature-a (index 1), feature-b (index 2)
    assert_eq!(worktrees.len(), 3);

    let config = BoraPortsConfig {
        base: 3000,
        per_worktree: 10,
        max: None,
    };

    let canonical_repo = "/repo/main";
    let mut linked: Vec<_> = worktrees
        .iter()
        .filter(|w| !w.is_bare && w.path != canonical_repo)
        .collect();
    linked.sort_by(|a, b| a.branch.cmp(&b.branch));

    assert_eq!(linked[0].branch.as_deref(), Some("feature-a"));
    assert_eq!(linked[1].branch.as_deref(), Some("feature-b"));

    // Port math: primary=3000, feature-a=3010, feature-b=3020
    assert_eq!(config.base, 3000);
    assert_eq!(config.base + config.per_worktree, 3010);
    assert_eq!(config.base + 2 * config.per_worktree, 3020);

    assert_eq!(port_for_worktrees(&config, "/repo/main", "/repo/main", &worktrees), Some(3000));
    assert_eq!(
        port_for_worktrees(&config, "/repo/main", "/repo/trees/feature-a", &worktrees),
        Some(3010)
    );
    assert_eq!(
        port_for_worktrees(&config, "/repo/main", "/repo/trees/feature-b", &worktrees),
        Some(3020)
    );
    assert_eq!(port_for_worktrees(&config, "/repo/main", "/elsewhere", &worktrees), None);
}

#[test]
fn port_max_blocks_allocation() {
    // With base=3000, per_worktree=10, max=3015:
    // primary=3000 (ok), index 1=3010 (ok), index 2=3020 (exceeds 3015)
    let config = BoraPortsConfig {
        base: 3000,
        per_worktree: 10,
        max: Some(3015),
    };
    // index 1 is within bounds
    let port1 = config.base + config.per_worktree;
    assert_eq!(port1, 3010);
    assert!(port1 <= 3015);
    // index 2 exceeds max
    let port2 = config.base + 2 * config.per_worktree;
    assert_eq!(port2, 3020);
    assert!(port2 > 3015);

    let worktrees = parse_worktree_list_porcelain(
        "worktree /r\nbranch refs/heads/main\n\nworktree /t/a\nbranch refs/heads/a\n\nworktree /t/b\nbranch refs/heads/b\n",
    );
    assert_eq!(port_for_worktrees(&config, "/r", "/t/a", &worktrees), Some(3010));
    assert_eq!(port_for_worktrees(&config, "/r", "/t/b", &worktrees), None);
}

#[test]
fn porcelain_parse_reads_bare_detached_and_prunable_entries() {
    let worktrees = parse_worktree_list_porcelain(
        "worktree /repo.git\nbare\n\nworktree /repo/x\nHEAD abc\ndetached\nprunable gitdir file points to non-existent location\n\nworktree /repo/y\nbranch refs/heads/topic\n",
    );
    assert_eq!(worktrees.len(), 3);
    assert!(worktrees[0].is_bare);
    assert_eq!(worktrees[1].branch, None);
    assert!(worktrees[1].is_prunable);
    assert_eq!(worktrees[2].path, "/repo/y");
    assert_eq!(worktrees[2].branch.as_deref(), Some("topic"));
    let config = BoraPortsConfig { base: 4000, per_worktree: 5, max: None };
    // The bare entry is skipped; the detached one sorts before the branch.
    assert_eq!(port_for_worktrees(&config, "/repo.git", "/repo/x", &worktrees), Some(4005));
    assert_eq!(port_for_worktrees(&config, "/repo.git", "/repo/y", &worktrees), Some(4010));
}

#[test]
fn default_per_worktree_is_ten() {
    assert_eq!(default_per_worktree(), 10);
}

/// A repo whose files live in a map, with call counters and a settable clock.
struct VirtualRepo {
    files: RefCell<HashMap<String, String>>,
    mtime: Cell<i128>,
    stats: Cell<usize>,
    reads: Cell<usize>,
    now: Cell<u64>,
}

impl VirtualRepo {
    fn new() -> Self {
        VirtualRepo {
            files: RefCell::new(HashMap::new()),
            mtime: Cell::new(1_700_000_000_000_000_000),
            stats: Cell::new(0),
            reads: Cell::new(0),
            now: Cell::new(10_000_000_000),
        }
    }

    fn write(&self, path: &str, text: &str) {
        self.files.borrow_mut().insert(path.to_string(), text.to_string());
    }

    fn load(&self, cache: &mut BoraConfigCache, root: &str) -> (Option<BoraConfig>, Vec<String>) {
        let stat = |_: &str| {
            self.stats.set(self.stats.get() + 1);
            Some(self.mtime.get())
        };
        let read = |path: &str| {
            self.reads.set(self.reads.get() + 1);
            self.files.borrow().get(path).cloned()
        };
        let clock = || self.now.get();
        load_bora_config_impl(cache, root, &stat, &read, &parse_wt_settings, &parse_bora_toml, &clock)
    }
}

#[test]
fn cache_hit_within_same_mtime_skips_file_reads() {
    let repo = VirtualRepo::new();
    let root = "/virtual/bora-test-cache-hit";
    repo.write(
        &format!("{root}/.wt/settings.toml"),
        "[scripts.run.test]\ncommand = \"cargo test\"\n",
    );
    let mut cache = BoraConfigCache::new();
    let (first, _) = repo.load(&mut cache, root);
    assert!(first.is_some());
    let reads_after_first = repo.reads.get();
    assert!(reads_after_first > 0);
    let stats_after_first = repo.stats.get();

    // Past the probe window: the fingerprint probe re-runs.
    repo.now.set(repo.now.get() + PROBE_THROTTLE_NANOS + 1_000_000_000);
    let (second, warnings) = repo.load(&mut cache, root);
    let second = second.expect("cache hit still returns the config");
    assert_eq!(repo.reads.get(), reads_after_first);
    assert!(repo.stats.get() > stats_after_first);
    assert!(warnings.is_empty(), "cache hits do not re-emit warnings");
    assert_eq!(second.commands.len(), 1);
    assert_eq!(second.commands[0].command, "cargo test");
}

#[test]
fn cache_hit_within_probe_window_skips_stats() {
    let repo = VirtualRepo::new();
    let root = "/virtual/bora-test-probe-throttle";
    repo.write(
        &format!("{root}/.wt/settings.toml"),
        "[scripts.run.test]\ncommand = \"cargo test\"\n",
    );
    let mut cache = BoraConfigCache::new();
    let (first, _) = repo.load(&mut cache, root);
    assert!(first.is_some());
    let stats_after_first = repo.stats.get();
    let reads_after_first = repo.reads.get();
    assert!(stats_after_first > 0);
    assert!(reads_after_first > 0);

    repo.now.set(repo.now.get() + PROBE_THROTTLE_NANOS / 2);
    let (second, warnings) = repo.load(&mut cache, root);
    let second = second.expect("throttled cache hit still returns the config");
    assert_eq!(repo.stats.get(), stats_after_first, "no stats within the window");
    assert_eq!(repo.reads.get(), reads_after_first, "no reads within the window");
    assert!(warnings.is_empty(), "cache hits do not re-emit warnings");
    assert_eq!(second.commands.len(), 1);
    assert_eq!(second.commands[0].command, "cargo test");
}

#[test]
fn mtime_bump_invalidates_cache() {
    let repo = VirtualRepo::new();
    let root = "/virtual/bora-test-mtime-bump";
    let path = format!("{root}/.wt/settings.toml");
    repo.write(&path, &format!("[scripts.run.test]\ncommand = \"echo v{}\"\n", 1));
    let mut cache = BoraConfigCache::new();
    let (first, _) = repo.load(&mut cache, root);
    assert_eq!(first.unwrap().commands[0].command, "echo v1");
    // Bump the mtime and the content, and step past the probe window.
    repo.mtime.set(repo.mtime.get() + 60_000_000_000);
    repo.write(&path, &format!("[scripts.run.test]\ncommand = \"echo v{}\"\n", 2));
    repo.now.set(repo.now.get() + PROBE_THROTTLE_NANOS + 1_000_000_000);
    let (second, _) = repo.load(&mut cache, root);
    assert_eq!(second.unwrap().commands[0].command, "echo v2");
}

#[test]
fn wt_precedence_chain_merges_per_id_per_field() {
    let repo = VirtualRepo::new();
    let root = "/virtual/wt-precedence";
    repo.write(
        &format!("{root}/.conductor/settings.toml"),
        "[scripts.run.build]\ncommand = \"make build\"\n\n[scripts.run.web]\ncommand = \"bun dev\"\nargs = [\"--host\"]\n",
    );
    repo.write(&format!("{root}/.wt/settings.toml"), "[scripts.run.web]\ncommand = \"bun run dev\"\n");
    repo.write(
        &format!("{root}/.wt/settings.local.toml"),
        "[scripts.run.api]\ncommand = \"go run ./cmd/api\"\n\n[scripts.run.web]\nargs = [\"--port\", \"5173\"]\n",
    );
    let mut cache = BoraConfigCache::new();
    let (config, warnings) = repo.load(&mut cache, root);
    assert!(warnings.is_empty(), "unexpected warnings: {warnings:?}");
    let commands = config.expect("wt commands enumerate").commands;
    assert_eq!(commands.len(), 3);
    let web = commands.iter().find(|c| c.label == "web").expect("web command");
    assert_eq!(web.command, "bun run dev --port 5173");
    assert_eq!(web.mode, BoraCommandMode::Pane);
    assert!(web.branch.is_none());
    assert!(commands.iter().any(|c| c.label == "build" && c.command == "make build"));
    assert!(commands.iter().any(|c| c.label == "api"));
}

#[test]
fn legacy_bora_toml_commands_parse_and_warn_deprecated() {
    let repo = VirtualRepo::new();
    let root = "/virtual/legacy-warn";
    repo.write(
        &format!("{root}/.bora.toml"),
        "[[commands]]\nlabel = \"Deploy\"\ncommand = \"echo deploying...\"\n",
    );
    let mut cache = BoraConfigCache::new();
    let (config, warnings) = repo.load(&mut cache, root);
    let config = config.expect("legacy .bora.toml must keep parsing");
    assert_eq!(config.commands.len(), 1);
    assert_eq!(config.commands[0].label, "Deploy");
    assert!(
        warnings.iter().any(|w| w.contains("deprecated") && w.contains("[scripts.run.")),
        "expected a deprecation warning, got {warnings:?}"
    );
}

#[test]
fn wt_commands_win_over_legacy_on_label_collision() {
    let repo = VirtualRepo::new();
    let root = "/virtual/wt-collision";
    repo.write(
        &format!("{root}/.bora.toml"),
        "[[commands]]\nlabel = \"test\"\ncommand = \"old\"\n\n[[commands]]\nlabel = \"legacy-only\"\ncommand = \"keep\"\n",
    );
    repo.write(&format!("{root}/.wt/settings.toml"), "[scripts.run.test]\ncommand = \"new\"\n");
    let mut cache = BoraConfigCache::new();
    let (config, warnings) = repo.load(&mut cache, root);
    let commands = config.expect("config").commands;
    let test = commands.iter().find(|c| c.label == "test").expect("test command");
    assert_eq!(test.command, "new");
    assert_eq!(test.mode, BoraCommandMode::Pane);
    assert!(commands.iter().any(|c| c.label == "legacy-only" && c.command == "keep"));
    assert!(warnings.iter().any(|w| w.contains("deprecated")));
}

#[test]
fn load_missing_files_returns_none() {
    let repo = VirtualRepo::new();
    let mut cache = BoraConfigCache::new();
    let (config, warnings) = repo.load(&mut cache, "/virtual/empty");
    assert!(config.is_none());
    assert!(warnings.is_empty());
}

#[test]
fn invalid_settings_file_warns_and_is_skipped() {
    let repo = VirtualRepo::new();
    let root = "/virtual/invalid";
    repo.write(&format!("{root}/.wt/settings.toml"), "not valid { toml");
    repo.write(&format!("{root}/.wt/settings.local.toml"), "[scripts]\nrun = \"make dev\"\n");
    let mut cache = BoraConfigCache::new();
    let (config, warnings) = repo.load(&mut cache, root);
    let commands = config.expect("the valid layer still counts").commands;
    assert_eq!(commands.len(), 1);
    assert_eq!(commands[0].label, "default");
    assert_eq!(commands[0].command, "make dev");
    assert_eq!(warnings.len(), 1, "{warnings:?}");
}

#[test]
fn script_without_a_command_warns_and_hidden_scripts_drop() {
    let mut table = ScriptTable::new();
    merge_wt_run_layer(
        &mut table,
        parse_wt_settings("[scripts.run.a]\nargs = [\"x\"]\n\n[scripts.run.b]\ncommand = \"b\"\nhide = true\n\n[scripts.run.c]\ncommand = \"c\"\n")
            .unwrap()
            .unwrap(),
    );
    let mut warnings = Vec::new();
    let commands = wt_commands(&table, &mut warnings);
    assert_eq!(commands.len(), 1);
    assert_eq!(commands[0].label, "c");
    assert_eq!(commands[0].command, "c");
    assert_eq!(warnings.len(), 1, "{warnings:?}");
    assert!(warnings[0].contains("[scripts.run.a]"), "{warnings:?}");
}

#[test]
fn branch_filter_keeps_unscoped_and_matching_commands() {
    let config = parse_bora_toml(
        "[[commands]]\nlabel = \"Deploy\"\ncommand = \"d\"\nbranch = \"main\"\n\n[[commands]]\nlabel = \"Run\"\ncommand = \"r\"\nmode = \"pane\"\n",
    )
    .unwrap();
    let on_main = commands_for_branch(Some(config.clone()), Some("main"));
    assert_eq!(on_main.len(), 2);
    let on_topic = commands_for_branch(Some(config.clone()), Some("topic"));
    assert_eq!(on_topic.len(), 1);
    assert_eq!(on_topic[0].label, "Run");
    assert_eq!(on_topic[0].mode, BoraCommandMode::Pane);
    let detached = commands_for_branch(Some(config), None);
    assert_eq!(detached.len(), 1);
    assert!(commands_for_branch(None, Some("main")).is_empty());
}

#[test]
fn config_paths_sit_under_the_repo_root() {
    let paths = repo_config_paths("/repo");
    assert_eq!(paths.wt_local, "/repo/.wt/settings.local.toml");
    assert_eq!(paths.wt_shared, "/repo/.wt/settings.toml");
    assert_eq!(paths.conductor, "/repo/.conductor/settings.toml");
    assert_eq!(paths.bora_toml, "/repo/.bora.toml");
}

#[test]
fn port_max_below_base_blocks_the_primary_checkout_too() {
    let config = BoraPortsConfig { base: 3000, per_worktree: 10, max: Some(2999) };
    let worktrees = parse_worktree_list_porcelain(
        "worktree /r\nbranch refs/heads/main\n\nworktree /t/a\nbranch refs/heads/a\n",
    );
    assert_eq!(port_for_worktrees(&config, "/r", "/r", &worktrees), None);
    assert_eq!(port_for_worktrees(&config, "/r", "/t/a", &worktrees), None);
    let at_base = BoraPortsConfig { base: 3000, per_worktree: 10, max: Some(3000) };
    assert_eq!(port_for_worktrees(&at_base, "/r", "/r", &worktrees), Some(3000));
}
