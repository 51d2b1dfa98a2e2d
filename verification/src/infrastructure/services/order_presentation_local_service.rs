use vstd::prelude::*;

verus! {

/// The service in front of the local repository (files and memory).
#[derive(Clone)]
pub struct LocalService<T> {
    repo: T,
}

impl<T> LocalService<T> {
    pub fn new(repo: T) -> (r: Self)
        ensures
            r.spec_repo() == repo,
    {
        Self { repo }
    }

    pub closed spec fn spec_repo(&self) -> T {
        self.repo
    }

    /// The repository behind the service.
    pub fn repo(&self) -> (r: &T)
        ensures
            *r == self.spec_repo(),
    {
        &self.repo
    }
}

} // verus!
