//! Verified core of the bora terminal workspace manager: sidebar sections,
//! repository command configuration, menus, themes and list navigation.

pub mod lists;
pub mod text;
pub mod plugins;
pub mod bora_config;
pub mod workspace;
pub mod menus;
pub mod sections;
pub mod config_cache;
pub mod worktree_list;
pub mod state;
pub mod navigator;
pub mod github;
pub mod theme;
pub mod session;
pub mod geometry;
pub mod live_reload;
