pub mod file_repository;
pub mod in_memory_repository;
