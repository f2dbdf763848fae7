pub mod db;
pub mod db_errors;
pub mod persistent;
