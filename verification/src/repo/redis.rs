use crate::contracts::repositories::RedisRepoOrderService;
use vstd::prelude::*;

verus! {

/// The Redis repository of the first version; it holds nothing yet.
#[derive(Clone, Copy, Debug, PartialEq, Eq, Structural)]
pub struct RedisRepo();

impl RedisRepo {
    pub fn new(pool: ()) -> (r: Self)
        ensures
            r == RedisRepo(),
    {
        RedisRepo()
    }
}

impl RedisRepoOrderService for RedisRepo {}

} // verus!
