pub mod local_repositories;
pub mod remote_repositories;
pub mod services;
