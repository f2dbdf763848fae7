pub mod model;
pub mod result_handler;
