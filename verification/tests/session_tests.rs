use bora::menus::PaneId;
use bora::plugins::InstalledPluginInfo;
use bora::session::{
    agent_panel_sort_from_config, auto_updates_enabled, background_update_check_enabled,
    load_plugin_registry, AgentPanelSortConfig, PaneClickState,
};
use bora::state::AgentPanelSort;

fn click(pane: u32, row: u16, col: u16, at_ms: u64) -> PaneClickState {
    PaneClickState { pane_id: PaneId { raw: pane }, viewport_row: row, col, at_nanos: at_ms * 1_000_000 }
}

#[test]
fn double_clicks_need_same_pane_nearby_cell_and_short_gap() {
    let first = click(1, 5, 5, 1000);
    assert!(first.is_double_click_for(click(1, 6, 4, 1350)));
    assert!(!first.is_double_click_for(click(1, 5, 5, 1351)));
    assert!(!first.is_double_click_for(click(2, 5, 5, 1100)));
    assert!(!first.is_double_click_for(click(1, 7, 5, 1100)));
    assert!(!first.is_double_click_for(click(1, 5, 3, 1100)));
    assert!(first.is_double_click_for(click(1, 5, 5, 900)), "a clock step back counts as no time");
}

#[test]
fn updates_run_only_in_session_release_builds() {
    assert!(auto_updates_enabled(false, false));
    assert!(!auto_updates_enabled(true, false));
    assert!(!auto_updates_enabled(false, true));
    assert!(background_update_check_enabled(false, false, true));
    assert!(!background_update_check_enabled(false, false, false));
    assert!(!background_update_check_enabled(true, false, true));
}

#[test]
fn agent_panel_sort_follows_the_setting() {
    assert_eq!(agent_panel_sort_from_config(AgentPanelSortConfig::Spaces), AgentPanelSort::Spaces);
    assert_eq!(agent_panel_sort_from_config(AgentPanelSortConfig::Priority), AgentPanelSort::Priority);
}

fn plugin(id: &str, version: &str) -> InstalledPluginInfo {
    InstalledPluginInfo {
        plugin_id: id.to_string(),
        name: id.to_string(),
        version: version.to_string(),
        enabled: true,
        actions: vec![],
    }
}

#[test]
fn plugin_registry_keys_plugins_by_id() {
    let registry = load_plugin_registry(false, vec![plugin("a", "1"), plugin("b", "1"), plugin("a", "2")]);
    assert_eq!(registry.plugins.len(), 2);
    assert_eq!(registry.plugins[0].plugin_id, "a");
    assert_eq!(registry.plugins[0].version, "2");
    assert_eq!(registry.plugins[1].plugin_id, "b");
    assert!(load_plugin_registry(true, vec![plugin("a", "1")]).plugins.is_empty());
}
