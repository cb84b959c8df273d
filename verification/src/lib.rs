//! A lightweight RPC-over-HTTP dispatch core.
//!
//! Independently defined operations ("connectors") are collected into a
//! registry, and a single dispatch entry point routes incoming JSON request
//! envelopes to the matching operation by a two-phase decode: a cheap peek
//! that extracts only the routing key, then a full decode of the envelope
//! once the target operation is known.

pub mod adapter;
pub mod dispatch;
pub mod envelope;
pub mod json;
pub mod registry;
pub mod text;
