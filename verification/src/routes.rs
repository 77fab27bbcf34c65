//! Requests as they arrive, and their conversion into validated values.

pub mod markings;
