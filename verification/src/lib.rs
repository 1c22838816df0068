//! Navigation, settings and controller logic of a big-screen game launcher.
pub mod text;
pub mod i18n;
pub mod display_mode;
pub mod game;
pub mod config;
pub mod config_laws;
pub mod external_apps;
pub mod home_menu;
pub mod home_list;
pub mod game_menu;
pub mod power_menu;
pub mod input;
pub mod page_state;
pub mod runtime;
pub mod launch;
pub mod launch_notice;
pub mod epic;
pub mod xbox;
pub mod steam_scan;
pub mod dlss;
pub mod analytics;
pub mod cover;
pub mod details;
pub mod achievements;
pub mod input_flow;
