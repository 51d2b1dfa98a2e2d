use vstd::prelude::*;

verus! {

/// The Redis side of the first version of the repository; it offers no
/// operation yet.
pub trait RedisRepoOrderService {}

} // verus!
