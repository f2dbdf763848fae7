mod text;
pub mod cli;
pub mod commands;
pub mod db;
pub mod db_cmds;
pub mod db_ops;
pub mod model;
pub mod package;
pub mod parser;
pub mod persistent;
pub mod render;
pub mod state_mgr;
