pub mod redis;
pub mod repository;
