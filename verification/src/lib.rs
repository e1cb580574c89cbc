//! Verified core logic of the DeepSeek CLI: marketplace names, access
//! tokens, caches, error mapping and path helpers.

pub mod text;
pub mod path_components;
pub mod io_error;
pub mod marketplace;
pub mod access_token;
pub mod digest;
pub mod path_segment;
pub mod workspace_settings;
pub mod apps_cache;
pub mod request_errors;
pub mod session_errors;
pub mod goal_metrics;
pub mod test_support;
pub mod plugin_fixtures;
pub mod home_dir;
pub mod credentials;
pub mod state_db_recovery;
pub mod realtime_instructions;
pub mod runtime_paths;
