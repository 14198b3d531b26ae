//! Shielded resource-logic toolkit: resources carry application-defined
//! validity logic that is dispatched from a bytecode representation, checked
//! against compliance data by an unordered-pair binding protocol, and
//! aggregated per resource so that every logic governs the same resource.

mod aggregation;
pub mod application;
pub mod binding;
pub mod bytecode;
pub mod encoding;
pub mod error;
pub mod field;
pub mod gadgets;
pub mod hash;
pub mod laws;
pub mod partial_fulfillment;
pub mod public_inputs;
pub mod resource;
pub mod sudoku;
