pub mod atis;
pub mod dir_manager;
pub mod error;
pub mod escape;
pub mod json;
pub mod json_operations;
pub mod logic;
pub mod scheduler;
pub mod text;
