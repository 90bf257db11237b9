//! A registry that lets services attach a message-broker producer and a
//! cache-pool connection under derived cluster identifiers, and look those
//! handles up later by service name.
//!
//! The library is organised leaves-first: [`ids`] derives the namespaced
//! cluster identifiers, [`store`] is the keyed in-memory store both leaf
//! components build on, [`routing`] maps service names to identifier pairs,
//! [`cluster`] holds the live connection handles, and [`registry`] composes
//! the two stores into the coordinator with the atomic register and resolve
//! operations.

pub mod cluster;
pub mod handles;
pub mod ids;
pub mod registry;
pub mod routing;
pub mod store;
