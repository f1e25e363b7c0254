//! Owned reconstruction of a compiled IR module.
//!
//! The foreign toolchain parses a module and answers point queries about its
//! values through opaque handles.  This crate rebuilds the parts it covers as
//! fully owned, comparable values: source-location records with a total,
//! deterministic order, call nodes whose callee is a closed two-variant type,
//! and the containers (blocks, functions, modules) that hold them in source
//! order.  No foreign handle survives reconstruction: everything the logic
//! reads is captured as plain values first.

pub mod debugloc;
pub mod foreign;
pub mod instruction;
pub mod module;
