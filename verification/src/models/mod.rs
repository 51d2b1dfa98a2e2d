pub mod delivery;
pub mod item;
pub mod model;
pub mod payment;
pub mod query_params;
pub mod responses;
