pub mod commands;
pub mod state_mgr;
