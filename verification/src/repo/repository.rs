use vstd::prelude::*;

verus! {

/// The repository of the first version: Postgres and Redis side by side.
#[derive(Clone)]
pub struct Repository<P, R> {
    postgres: P,
    redis: R,
}

impl<P, R> Repository<P, R> {
    pub fn new(postgres: P, redis: R) -> (r: Self)
        ensures
            r.spec_postgres() == postgres,
            r.spec_redis() == redis,
    {
        Self { postgres, redis }
    }

    pub closed spec fn spec_postgres(&self) -> P {
        self.postgres
    }

    pub closed spec fn spec_redis(&self) -> R {
        self.redis
    }

    /// The Postgres side.
    pub fn postgres(&self) -> (r: &P)
        ensures
            *r == self.spec_postgres(),
    {
        &self.postgres
    }

    /// The Redis side.
    pub fn redis(&self) -> (r: &R)
        ensures
            *r == self.spec_redis(),
    {
        &self.redis
    }
}

} // verus!
