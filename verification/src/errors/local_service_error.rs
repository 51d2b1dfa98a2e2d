use super::local_repository_error::LocalRepositoryError;
use vstd::prelude::*;

verus! {

/// Errors of the local service.
#[derive(Debug)]
pub enum LocalServiceErrors {
    LocalRepositoryError(LocalRepositoryError),
}

impl From<LocalRepositoryError> for LocalServiceErrors {
    fn from(value: LocalRepositoryError) -> (r: Self)
        ensures
            r == LocalServiceErrors::LocalRepositoryError(value),
    {
        LocalServiceErrors::LocalRepositoryError(value)
    }
}

impl vstd::std_specs::convert::FromSpecImpl<LocalRepositoryError> for LocalServiceErrors {
    open spec fn obeys_from_spec() -> bool {
        true
    }

    open spec fn from_spec(v: LocalRepositoryError) -> LocalServiceErrors {
        LocalServiceErrors::LocalRepositoryError(v)
    }
}

} // verus!
