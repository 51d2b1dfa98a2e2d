pub mod local_repository_error;
pub mod local_service_error;
pub mod remote_repository_error;
pub mod remote_service_error;
pub mod service_error;
