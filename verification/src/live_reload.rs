//! What a live reload of the configuration changes in a running session:
//! which sections take their new values, the sidebar widths, the side
//! effects to run, the update checks to schedule, and the report.

use vstd::prelude::*;
use crate::text::{views, concat, str_eq, extend_strs, push_str, owned};
use crate::state::{SidebarWidths, SidebarWidthSource, live_sidebar_widths, clamp_width, sidebar_bounds_diagnostic};

verus! {

broadcast use vstd::string::group_string_axioms;

/// How a reload leaves the next run of a background check.
#[derive(Debug, Clone, Copy, PartialEq, Eq, Structural)]
pub enum CheckSchedule {
    /// As it was.
    Keep,
    /// No run scheduled: the check is off.
    Clear,
    /// Run now: the check was just switched on.
    Now,
}

/// Whether a reload applied without a diagnostic.
#[derive(Debug, Clone, Copy, PartialEq, Eq, Structural)]
pub enum ConfigReloadStatus {
    Applied,
    Partial,
}

/// What the running session holds before the reload, as far as the reload
/// decides on it.
#[derive(Debug, Clone, Copy)]
pub struct LiveState {
    pub widths: SidebarWidths,
    pub width_source: SidebarWidthSource,
    pub redraw_on_focus_gained: bool,
    /// Sounds play in this process rather than in the client.
    pub local_sound_playback: bool,
    pub kitty_graphics_enabled: bool,
    pub version_check_enabled: bool,
    pub manifest_check_enabled: bool,
    /// An update is already known to be available.
    pub update_available: bool,
    pub no_session: bool,
    pub debug_build: bool,
}

/// The reloaded configuration, as far as the reload decides on it.
#[derive(Debug)]
pub struct LiveConfig {
    /// The keybind diagnostics: `Ok` when the configured keybinds convert
    /// (they take effect), `Err` when they do not (the current ones stay).
    pub keybinds: Result<Vec<String>, Vec<String>>,
    pub sidebar_width: u16,
    pub sidebar_min_width: u16,
    pub sidebar_max_width: u16,
    pub sound_diagnostics: Vec<String>,
    pub redraw_on_focus_gained: bool,
    /// The configured sound settings differ from the session's.
    pub sound_changed: bool,
    pub kitty_graphics: bool,
    pub pane_history: bool,
    pub version_check: bool,
    pub manifest_check: bool,
}

/// The notice shown after a reload that was asked to report success.
#[derive(Debug, Clone)]
pub struct ReloadToast {
    pub title: String,
    pub context: String,
}

/// What the session does on a reload.
#[derive(Debug, Clone)]
pub struct LiveReloadPlan {
    /// Take the converted keybinds.
    pub apply_keybinds: bool,
    /// Take the `[ui]` settings.
    pub apply_ui: bool,
    pub widths: SidebarWidths,
    /// Ask the client to reload its own configuration.
    pub request_client_reload: bool,
    /// Take the `[experimental]` settings.
    pub apply_experimental: bool,
    /// Clear the graphics already drawn on the host terminal.
    pub clear_host_graphics: bool,
    /// Drop the persisted pane history.
    pub clear_history: bool,
    pub apply_advanced: bool,
    pub apply_terminal: bool,
    pub apply_worktrees: bool,
    pub apply_theme: bool,
    /// The theme takes the legacy `ui.accent` into account.
    pub theme_uses_ui_accent: bool,
    pub version_check_enabled: bool,
    pub manifest_check_enabled: bool,
    pub version_schedule: CheckSchedule,
    pub manifest_schedule: CheckSchedule,
    pub diagnostics: Vec<String>,
    pub status: ConfigReloadStatus,
    pub toast: Option<ReloadToast>,
}

/// Section `name` loaded without error.
pub open spec fn section_valid(invalid: Seq<String>, name: Seq<char>) -> bool {
    !views(invalid).contains(name)
}

/// The diagnostics the keybinds add.
pub open spec fn keybind_diagnostics(k: Result<Vec<String>, Vec<String>>) -> Seq<Seq<char>> {
    match k {
        Ok(d) => views(d@),
        Err(d) => views(d@).map_values(|x: Seq<char>| x + "; kept current keybinds"@),
    }
}

/// The diagnostics a valid `[ui]` section adds: the bounds diagnostic when
/// the minimum width is greater than the maximum, else the sound ones.
pub open spec fn ui_diagnostics(cfg: LiveConfig) -> Seq<Seq<char>> {
    if cfg.sidebar_min_width > cfg.sidebar_max_width {
        seq![sidebar_bounds_diagnostic(cfg.sidebar_min_width, cfg.sidebar_max_width)]
    } else {
        views(cfg.sound_diagnostics@)
    }
}

/// Every diagnostic of the reload, in order: those of the load, then the
/// keybinds', then `[ui]`'s.
pub open spec fn reload_diagnostics(load: Seq<String>, invalid: Seq<String>, cfg: LiveConfig) -> Seq<Seq<char>> {
    views(load)
        + (if section_valid(invalid, "keys"@) { keybind_diagnostics(cfg.keybinds) } else { Seq::empty() })
        + (if section_valid(invalid, "ui"@) { ui_diagnostics(cfg) } else { Seq::empty() })
}

/// The `[ui]` settings take effect: the section loaded and its bounds are
/// in order.
pub open spec fn ui_applied(invalid: Seq<String>, cfg: LiveConfig) -> bool {
    section_valid(invalid, "ui"@) && cfg.sidebar_min_width <= cfg.sidebar_max_width
}

/// The sidebar widths after the reload.
pub open spec fn reload_widths(old: LiveState, invalid: Seq<String>, cfg: LiveConfig) -> SidebarWidths {
    if ui_applied(invalid, cfg) {
        SidebarWidths {
            width: clamp_width(
                if old.width_source == SidebarWidthSource::ConfigDefault { cfg.sidebar_width } else { old.widths.width },
                cfg.sidebar_min_width,
                cfg.sidebar_max_width,
            ),
            default_width: cfg.sidebar_width,
            min_width: cfg.sidebar_min_width,
            max_width: cfg.sidebar_max_width,
        }
    } else {
        old.widths
    }
}

/// The background check of `enabled` runs in this session.
pub open spec fn check_runs(old: LiveState, enabled: bool) -> bool {
    !old.no_session && !old.debug_build && enabled
}

/// The next version check: cleared when the check is off; now when it was
/// just switched on, runs here and no update is known yet.
pub open spec fn version_schedule(old: LiveState, invalid: Seq<String>, cfg: LiveConfig) -> CheckSchedule {
    if !section_valid(invalid, "update"@) {
        CheckSchedule::Keep
    } else if !cfg.version_check {
        CheckSchedule::Clear
    } else if !old.version_check_enabled && check_runs(old, cfg.version_check) && !old.update_available {
        CheckSchedule::Now
    } else {
        CheckSchedule::Keep
    }
}

/// The next agent manifest check: cleared when the check is off; now when
/// it was just switched on and runs here.
pub open spec fn manifest_schedule(old: LiveState, invalid: Seq<String>, cfg: LiveConfig) -> CheckSchedule {
    if !section_valid(invalid, "update"@) {
        CheckSchedule::Keep
    } else if !cfg.manifest_check {
        CheckSchedule::Clear
    } else if !old.manifest_check_enabled && check_runs(old, cfg.manifest_check) {
        CheckSchedule::Now
    } else {
        CheckSchedule::Keep
    }
}

/// The toast's second line: the config file when nothing was reported,
/// else a note that there were warnings.
pub open spec fn toast_context(clean: bool) -> Seq<char> {
    if clean { "using config.toml"@ } else { "with warnings"@ }
}

fn is_section_valid(invalid: &Vec<String>, name: &str) -> (r: bool)
    ensures
        r == section_valid(invalid@, name@),
{
    let mut i: usize = 0;
    while i < invalid.len()
        invariant
            i <= invalid.len(),
            forall|j: int| 0 <= j < i ==> (#[trigger] invalid@[j])@ != name@,
        decreases invalid.len() - i,
    {
        if str_eq(invalid[i].as_str(), name) {
            proof {
                assert(views(invalid@)[i as int] == name@);
            }
            return false;
        }
        i = i + 1;
    }
    proof {
        assert forall|j: int| 0 <= j < views(invalid@).len() implies views(invalid@)[j] != name@ by {
            assert(views(invalid@)[j] == invalid@[j]@);
        }
    }
    true
}

/// Each diagnostic with the note that the current keybinds stay.
fn kept_keybind_diagnostics(ds: &Vec<String>, out: &mut Vec<String>)
    ensures
        views(final(out)@) == views(old(out)@) + views(ds@).map_values(|x: Seq<char>| x + "; kept current keybinds"@),
{
    let ghost before = views(out@);
    let mut i: usize = 0;
    while i < ds.len()
        invariant
            i <= ds.len(),
            views(out@) == before + views(ds@.take(i as int)).map_values(|x: Seq<char>| x + "; kept current keybinds"@),
        decreases ds.len() - i,
    {
        let line = concat(ds[i].as_str(), "; kept current keybinds");
        push_str(out, line.as_str());
        proof {
            assert(views(ds@.take(i + 1)).map_values(|x: Seq<char>| x + "; kept current keybinds"@)
                =~= views(ds@.take(i as int)).map_values(|x: Seq<char>| x + "; kept current keybinds"@)
                    .push(ds@[i as int]@ + "; kept current keybinds"@));
        }
        i = i + 1;
    }
    proof {
        assert(ds@.take(i as int) =~= ds@);
    }
}

fn next_schedule(section_ok: bool, was_enabled: bool, enabled: bool, runs: bool, blocked: bool) -> (r: CheckSchedule)
    ensures
        r == if !section_ok {
            CheckSchedule::Keep
        } else if !enabled {
            CheckSchedule::Clear
        } else if !was_enabled && runs && !blocked {
            CheckSchedule::Now
        } else {
            CheckSchedule::Keep
        },
{
    if !section_ok {
        CheckSchedule::Keep
    } else if !enabled {
        CheckSchedule::Clear
    } else if !was_enabled && runs && !blocked {
        CheckSchedule::Now
    } else {
        CheckSchedule::Keep
    }
}

/// The reload of `cfg` into a session in state `old`. `load_diagnostics`
/// are what loading the file reported and `invalid_sections` the sections
/// it could not load: those keep their current settings. A `[ui]` section
/// whose minimum sidebar width is greater than its maximum is kept whole,
/// with a diagnostic. The report is `Applied` exactly when there is no
/// diagnostic; with `notify_success` a toast says how the reload went.
pub fn live_reload_step(
    old: LiveState,
    cfg: &LiveConfig,
    load_diagnostics: &Vec<String>,
    invalid_sections: &Vec<String>,
    notify_success: bool,
) -> (r: LiveReloadPlan)
    ensures
        r.apply_keybinds == (section_valid(invalid_sections@, "keys"@) && cfg.keybinds is Ok),
        r.apply_ui == ui_applied(invalid_sections@, *cfg),
        r.widths == reload_widths(old, invalid_sections@, *cfg),
        r.request_client_reload == (ui_applied(invalid_sections@, *cfg)
            && (old.redraw_on_focus_gained != cfg.redraw_on_focus_gained || (!old.local_sound_playback && cfg.sound_changed))),
        r.apply_experimental == section_valid(invalid_sections@, "experimental"@),
        r.clear_host_graphics == (section_valid(invalid_sections@, "experimental"@) && old.kitty_graphics_enabled && !cfg.kitty_graphics),
        r.clear_history == (section_valid(invalid_sections@, "experimental"@) && !cfg.pane_history),
        r.apply_advanced == section_valid(invalid_sections@, "advanced"@),
        r.apply_terminal == section_valid(invalid_sections@, "terminal"@),
        r.apply_worktrees == section_valid(invalid_sections@, "worktrees"@),
        r.apply_theme == section_valid(invalid_sections@, "theme"@),
        r.theme_uses_ui_accent == section_valid(invalid_sections@, "ui"@),
        r.version_check_enabled == if section_valid(invalid_sections@, "update"@) { cfg.version_check } else { old.version_check_enabled },
        r.manifest_check_enabled == if section_valid(invalid_sections@, "update"@) { cfg.manifest_check } else { old.manifest_check_enabled },
        r.version_schedule == version_schedule(old, invalid_sections@, *cfg),
        r.manifest_schedule == manifest_schedule(old, invalid_sections@, *cfg),
        views(r.diagnostics@) == reload_diagnostics(load_diagnostics@, invalid_sections@, *cfg),
        r.status == if reload_diagnostics(load_diagnostics@, invalid_sections@, *cfg).len() == 0 {
            ConfigReloadStatus::Applied
        } else {
            ConfigReloadStatus::Partial
        },
        match r.toast {
            None => !notify_success,
            Some(t) => notify_success && t.title@ == "reloaded config"@
                && t.context@ == toast_context(reload_diagnostics(load_diagnostics@, invalid_sections@, *cfg).len() == 0),
        },
{
    let mut diagnostics: Vec<String> = Vec::new();
    extend_strs(&mut diagnostics, load_diagnostics.as_slice());
    proof {
        assert(views(Seq::<String>::empty()) + views(load_diagnostics@) =~= views(load_diagnostics@));
    }
    let ghost d0 = views(diagnostics@);

    let keys_ok = is_section_valid(invalid_sections, "keys");
    let mut apply_keybinds = false;
    if keys_ok {
        match &cfg.keybinds {
            Ok(ds) => {
                apply_keybinds = true;
                extend_strs(&mut diagnostics, ds.as_slice());
            },
            Err(ds) => {
                kept_keybind_diagnostics(ds, &mut diagnostics);
            },
        }
    }
    let ghost d1 = views(diagnostics@);
    proof {
        assert(d1 == d0 + (if section_valid(invalid_sections@, "keys"@) { keybind_diagnostics(cfg.keybinds) } else { Seq::empty() }))
            by {
            if !keys_ok {
                assert(d0 + Seq::<Seq<char>>::empty() =~= d0);
            }
        }
    }

    let ui_ok = is_section_valid(invalid_sections, "ui");
    let mut widths = old.widths;
    let mut apply_ui = false;
    let mut request_client_reload = false;
    if ui_ok {
        match live_sidebar_widths(old.widths, old.width_source, cfg.sidebar_width, cfg.sidebar_min_width, cfg.sidebar_max_width) {
            Err(msg) => {
                push_str(&mut diagnostics, msg.as_str());
            },
            Ok(w) => {
                extend_strs(&mut diagnostics, cfg.sound_diagnostics.as_slice());
                widths = w;
                apply_ui = true;
                if old.redraw_on_focus_gained != cfg.redraw_on_focus_gained {
                    request_client_reload = true;
                }
                if !old.local_sound_playback && cfg.sound_changed {
                    request_client_reload = true;
                }
            },
        }
    }
    proof {
        assert(views(diagnostics@) == reload_diagnostics(load_diagnostics@, invalid_sections@, *cfg)) by {
            if !ui_ok {
                assert(d1 + Seq::<Seq<char>>::empty() =~= d1);
            } else if cfg.sidebar_min_width > cfg.sidebar_max_width {
                assert(d1.push(sidebar_bounds_diagnostic(cfg.sidebar_min_width, cfg.sidebar_max_width))
                    =~= d1 + seq![sidebar_bounds_diagnostic(cfg.sidebar_min_width, cfg.sidebar_max_width)]);
            }
        }
        if ui_ok && cfg.sidebar_min_width <= cfg.sidebar_max_width {
            assert(widths == reload_widths(old, invalid_sections@, *cfg));
        }
    }

    let experimental_ok = is_section_valid(invalid_sections, "experimental");
    let update_ok = is_section_valid(invalid_sections, "update");
    let runs_version = !old.no_session && !old.debug_build && cfg.version_check;
    let runs_manifest = !old.no_session && !old.debug_build && cfg.manifest_check;
    let clean = diagnostics.len() == 0;
    let toast = if notify_success {
        let context = if clean { owned("using config.toml") } else { owned("with warnings") };
        Some(ReloadToast { title: owned("reloaded config"), context })
    } else {
        None
    };
    LiveReloadPlan {
        apply_keybinds,
        apply_ui,
        widths,
        request_client_reload,
        apply_experimental: experimental_ok,
        clear_host_graphics: experimental_ok && old.kitty_graphics_enabled && !cfg.kitty_graphics,
        clear_history: experimental_ok && !cfg.pane_history,
        apply_advanced: is_section_valid(invalid_sections, "advanced"),
        apply_terminal: is_section_valid(invalid_sections, "terminal"),
        apply_worktrees: is_section_valid(invalid_sections, "worktrees"),
        apply_theme: is_section_valid(invalid_sections, "theme"),
        theme_uses_ui_accent: ui_ok,
        version_check_enabled: if update_ok { cfg.version_check } else { old.version_check_enabled },
        manifest_check_enabled: if update_ok { cfg.manifest_check } else { old.manifest_check_enabled },
        version_schedule: next_schedule(update_ok, old.version_check_enabled, cfg.version_check, runs_version, old.update_available),
        manifest_schedule: next_schedule(update_ok, old.manifest_check_enabled, cfg.manifest_check, runs_manifest, false),
        diagnostics,
        status: if clean { ConfigReloadStatus::Applied } else { ConfigReloadStatus::Partial },
        toast,
    }
}

} // verus!
