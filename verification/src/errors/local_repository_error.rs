use vstd::prelude::*;

verus! {

/// `std::io::Error`, carried through unread.
#[verifier::external_type_specification]
#[verifier::external_body]
pub struct ExIoError(std::io::Error);

/// Errors of the local (file) repository.
#[derive(Debug)]
pub enum LocalRepositoryError {
    Error(std::io::Error),
}

impl From<std::io::Error> for LocalRepositoryError {
    fn from(value: std::io::Error) -> (r: Self)
        ensures
            r == LocalRepositoryError::Error(value),
    {
        LocalRepositoryError::Error(value)
    }
}

impl vstd::std_specs::convert::FromSpecImpl<std::io::Error> for LocalRepositoryError {
    open spec fn obeys_from_spec() -> bool {
        true
    }

    open spec fn from_spec(v: std::io::Error) -> LocalRepositoryError {
        LocalRepositoryError::Error(v)
    }
}

} // verus!
