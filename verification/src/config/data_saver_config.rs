use vstd::prelude::*;

verus! {

/// Where the first version of the server keeps unprocessed orders.
#[derive(Clone, Debug, PartialEq, Eq)]
pub struct DataSaverConfig {
    pub path: String,
}

} // verus!
