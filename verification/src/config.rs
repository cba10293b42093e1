//! Configuration: constants, settings and hosts, loaded state.

pub mod global;
pub mod structs;
pub mod methods;
