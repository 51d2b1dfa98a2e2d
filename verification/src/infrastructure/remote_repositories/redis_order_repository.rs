//! Reading the replies of the Redis transactions (`MULTI` … `EXEC`).
use vstd::prelude::*;

verus! {

/// The reply to `SET NX` inside a transaction: whether Redis stored the
/// value (its first element is not 0).
pub fn set_nx_saved(reply: &Vec<u8>) -> (r: bool)
    requires
        reply.len() > 0,
    ensures
        r == (reply[0] != 0),
{
    reply[0] != 0
}

/// The reply to `GET` inside a transaction: its first element.
pub fn first_value(reply: &Vec<String>) -> (r: String)
    requires
        reply.len() > 0,
    ensures
        r == reply[0],
{
    reply[0].clone()
}

} // verus!
