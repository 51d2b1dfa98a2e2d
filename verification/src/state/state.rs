//! The state of the first version of the server.
use crate::model::model::Order;
use crate::utils::parsed::{keep_parsed, somes};
use vstd::prelude::*;

verus! {

/// The saver of unprocessed orders and the repository.
#[derive(Clone)]
pub struct AppState<D, R> {
    pub saver: D,
    pub repo: R,
}

impl<D, R> AppState<D, R> {
    pub fn new(saver: D, repo: R) -> (r: Self)
        ensures
            r.saver == saver,
            r.repo == repo,
    {
        Self { saver, repo }
    }
}

/// The unprocessed orders read back by the saver, once each was parsed
/// (`None` for one that did not parse): those that parsed, in order;
/// `None` when the saver held nothing.
pub fn read_row_data_outcome(parsed: Option<Vec<Option<Order>>>) -> (r: Option<Vec<Order>>)
    ensures
        match parsed {
            None => r is None,
            Some(items) => r matches Some(orders) && orders@ == somes(items@),
        },
{
    match parsed {
        Some(items) => Some(keep_parsed(items)),
        None => None,
    }
}

} // verus!
