//! Composition of content-addressable store trees from configuration, a named
//! registry of built stores, and a hierarchical health registry that mirrors
//! the composed tree.

pub mod health;
pub mod store;
pub mod factory;
pub mod store_manager;
