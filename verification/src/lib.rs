//! An adapter layer that lets typed table and function implementations take
//! part in an embedded SQL engine's virtual-table extension protocol.
//!
//! The engine communicates through a C callback table and untyped result
//! slots; this crate holds the typed, verified half of that exchange:
//! deciding how a tagged output value is marshalled into the engine's result
//! slot, negotiating query-plan constraints, and driving the cursor state
//! machine. The thin unsafe shims that perform the actual C calls live
//! outside the verified library and only carry out the decisions made here.

pub mod marshal;
pub mod plan;
pub mod refcount;
pub mod stream;
pub mod vtab;
