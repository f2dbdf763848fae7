pub mod add;
pub mod complete;
pub mod db_cmds;
pub mod delete;
pub mod list;
pub mod migrate;
pub mod note;
pub mod status;
pub mod tui;
pub mod update;
pub mod upgrade;
pub mod view;
