//! Donation records: their event types and the gems a donation earns.

pub mod structs;
pub mod models;
pub mod methods;
