pub mod config;
pub mod contracts;
pub mod domain;
pub mod errors;
pub mod infrastructure;
pub mod model;
pub mod models;
pub mod repo;
pub mod state;
pub mod utils;
