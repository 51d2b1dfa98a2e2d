//! The settings the server is started with, and the pool settings derived
//! from them.
use vstd::prelude::*;

pub mod data_saver_config;
pub mod postgres_config;
pub mod repositories_config;

verus! {

/// All settings of the server.
#[derive(Clone, Debug, PartialEq, Eq)]
pub struct AppConfig {
    pub repositories_config: repositories_config::RepositoriesConfig,
}

} // verus!
