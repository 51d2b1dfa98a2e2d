pub mod delivery;
pub mod item;
pub mod model;
pub mod payment;
pub mod responses;
