//! An in-memory stand-in for a service manager and a login (power) manager,
//! with the state they keep and the rules by which it changes.
pub mod address;
pub mod error;
pub mod laws;
pub mod power;
pub mod registry;
pub mod unit;
