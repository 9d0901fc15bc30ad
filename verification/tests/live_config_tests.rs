use bora::live_reload::{live_reload_step, CheckSchedule, ConfigReloadStatus, LiveConfig, LiveState};
use bora::state::{live_sidebar_widths, startup_sidebar_bounds, SidebarWidthSource, SidebarWidths};

fn widths(width: u16, default_width: u16, min_width: u16, max_width: u16) -> SidebarWidths {
    SidebarWidths { width, default_width, min_width, max_width }
}

#[test]
fn live_reload_takes_the_new_default_only_when_the_config_owns_the_width() {
    let start = widths(26, 26, 18, 36);
    let owned = live_sidebar_widths(start, SidebarWidthSource::ConfigDefault, 34, 18, 36).unwrap();
    assert_eq!(owned, widths(34, 34, 18, 36));

    let manual = live_sidebar_widths(widths(31, 34, 18, 36), SidebarWidthSource::Manual, 35, 18, 36).unwrap();
    assert_eq!(manual, widths(31, 35, 18, 36));
}

#[test]
fn live_reload_reclamps_the_width_to_new_bounds_whoever_owns_it() {
    let tightened = live_sidebar_widths(widths(30, 26, 18, 36), SidebarWidthSource::Manual, 26, 18, 24).unwrap();
    assert_eq!(tightened.width, 24);
    assert_eq!(tightened.max_width, 24);

    let loosened = live_sidebar_widths(widths(24, 26, 18, 24), SidebarWidthSource::Manual, 26, 18, 60).unwrap();
    assert_eq!(loosened.width, 24);
    assert_eq!(loosened.max_width, 60);

    let raised = live_sidebar_widths(widths(24, 26, 18, 60), SidebarWidthSource::Persisted, 26, 30, 60).unwrap();
    assert_eq!(raised.width, 30);
    assert_eq!(raised.min_width, 30);
}

#[test]
fn live_reload_rejects_inverted_bounds_with_a_diagnostic() {
    let err = live_sidebar_widths(widths(26, 26, 18, 36), SidebarWidthSource::ConfigDefault, 30, 40, 20).unwrap_err();
    assert_eq!(
        err,
        "ui.sidebar_min_width (40) is greater than sidebar_max_width (20); keeping previous [ui] settings"
    );
}

#[test]
fn startup_falls_back_to_default_bounds_when_inverted() {
    assert_eq!(startup_sidebar_bounds(20, 50), (20, 50));
    assert_eq!(startup_sidebar_bounds(40, 40), (40, 40));
    assert_eq!(startup_sidebar_bounds(40, 20), (18, 36));
}

fn session_state() -> LiveState {
    LiveState {
        widths: widths(26, 26, 18, 36),
        width_source: SidebarWidthSource::ConfigDefault,
        redraw_on_focus_gained: false,
        local_sound_playback: false,
        kitty_graphics_enabled: true,
        version_check_enabled: false,
        manifest_check_enabled: true,
        update_available: false,
        no_session: false,
        debug_build: false,
    }
}

fn reloaded_config() -> LiveConfig {
    LiveConfig {
        keybinds: Ok(Vec::new()),
        sidebar_width: 30,
        sidebar_min_width: 18,
        sidebar_max_width: 36,
        sound_diagnostics: Vec::new(),
        redraw_on_focus_gained: false,
        sound_changed: false,
        kitty_graphics: true,
        pane_history: true,
        version_check: false,
        manifest_check: true,
    }
}

#[test]
fn clean_reload_applies_every_section_and_reports_applied() {
    let plan = live_reload_step(session_state(), &reloaded_config(), &Vec::new(), &Vec::new(), true);
    assert!(plan.apply_keybinds && plan.apply_ui && plan.apply_experimental && plan.apply_theme);
    assert!(plan.apply_advanced && plan.apply_terminal && plan.apply_worktrees && plan.theme_uses_ui_accent);
    assert_eq!(plan.widths, widths(30, 30, 18, 36));
    assert!(!plan.request_client_reload && !plan.clear_host_graphics && !plan.clear_history);
    assert_eq!(plan.version_schedule, CheckSchedule::Clear);
    assert_eq!(plan.manifest_schedule, CheckSchedule::Keep);
    assert!(plan.diagnostics.is_empty());
    assert_eq!(plan.status, ConfigReloadStatus::Applied);
    let toast = plan.toast.unwrap();
    assert_eq!(toast.title, "reloaded config");
    assert_eq!(toast.context, "using config.toml");
}

#[test]
fn invalid_sections_keep_their_settings() {
    let invalid = vec!["ui".to_string(), "update".to_string()];
    let load = vec!["ui: bad value".to_string()];
    let mut cfg = reloaded_config();
    cfg.version_check = true;
    let plan = live_reload_step(session_state(), &cfg, &load, &invalid, false);
    assert!(!plan.apply_ui && !plan.theme_uses_ui_accent);
    assert_eq!(plan.widths, widths(26, 26, 18, 36));
    assert!(!plan.version_check_enabled);
    assert_eq!(plan.version_schedule, CheckSchedule::Keep);
    assert_eq!(plan.diagnostics, load);
    assert_eq!(plan.status, ConfigReloadStatus::Partial);
    assert!(plan.toast.is_none());
}

#[test]
fn inverted_sidebar_bounds_keep_the_ui_section_with_a_diagnostic() {
    let mut cfg = reloaded_config();
    cfg.sidebar_min_width = 40;
    cfg.sidebar_max_width = 20;
    cfg.redraw_on_focus_gained = true;
    cfg.sound_diagnostics = vec!["sound: unknown file".to_string()];
    let plan = live_reload_step(session_state(), &cfg, &Vec::new(), &Vec::new(), true);
    assert!(!plan.apply_ui && plan.theme_uses_ui_accent && !plan.request_client_reload);
    assert_eq!(plan.widths, widths(26, 26, 18, 36));
    assert_eq!(
        plan.diagnostics,
        vec!["ui.sidebar_min_width (40) is greater than sidebar_max_width (20); keeping previous [ui] settings".to_string()]
    );
    assert_eq!(plan.status, ConfigReloadStatus::Partial);
    assert_eq!(plan.toast.unwrap().context, "with warnings");
}

#[test]
fn keybind_diagnostics_follow_the_load_diagnostics() {
    let mut cfg = reloaded_config();
    cfg.keybinds = Err(vec!["keys.prefix: unknown key".to_string()]);
    cfg.sound_diagnostics = vec!["sound: unknown file".to_string()];
    let load = vec!["unknown key `foo`".to_string()];
    let plan = live_reload_step(session_state(), &cfg, &load, &Vec::new(), false);
    assert!(!plan.apply_keybinds && plan.apply_ui);
    assert_eq!(
        plan.diagnostics,
        vec![
            "unknown key `foo`".to_string(),
            "keys.prefix: unknown key; kept current keybinds".to_string(),
            "sound: unknown file".to_string(),
        ]
    );
    cfg.keybinds = Ok(vec!["keys.split: shadowed".to_string()]);
    let plan = live_reload_step(session_state(), &cfg, &Vec::new(), &vec!["ui".to_string()], false);
    assert!(plan.apply_keybinds);
    assert_eq!(plan.diagnostics, vec!["keys.split: shadowed".to_string()]);
}

#[test]
fn switching_update_checks_on_schedules_them_where_they_run() {
    let mut cfg = reloaded_config();
    cfg.version_check = true;
    cfg.manifest_check = false;
    let plan = live_reload_step(session_state(), &cfg, &Vec::new(), &Vec::new(), false);
    assert!(plan.version_check_enabled && !plan.manifest_check_enabled);
    assert_eq!(plan.version_schedule, CheckSchedule::Now);
    assert_eq!(plan.manifest_schedule, CheckSchedule::Clear);

    let mut known = session_state();
    known.update_available = true;
    assert_eq!(live_reload_step(known, &cfg, &Vec::new(), &Vec::new(), false).version_schedule, CheckSchedule::Keep);

    let mut headless = session_state();
    headless.no_session = true;
    assert_eq!(live_reload_step(headless, &cfg, &Vec::new(), &Vec::new(), false).version_schedule, CheckSchedule::Keep);
}

#[test]
fn experimental_and_ui_changes_ask_for_their_side_effects() {
    let mut cfg = reloaded_config();
    cfg.kitty_graphics = false;
    cfg.pane_history = false;
    cfg.sound_changed = true;
    let plan = live_reload_step(session_state(), &cfg, &Vec::new(), &Vec::new(), false);
    assert!(plan.clear_host_graphics && plan.clear_history && plan.request_client_reload);

    let mut local = session_state();
    local.local_sound_playback = true;
    let plan = live_reload_step(local, &cfg, &Vec::new(), &vec!["experimental".to_string()], false);
    assert!(!plan.clear_host_graphics && !plan.clear_history && !plan.request_client_reload);
}
