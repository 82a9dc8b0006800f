//! Probing the lightning network with payments that nobody can claim.
//!
//! A test payment goes to a node that does not exist, behind a node that does. Where and
//! how it fails tells which channels could pass the amount on, and whether the node was
//! reached. The library makes these payments, decides step by step what a node is asked
//! and told, and reads what it answers. Calling the node is left to the program around it.

pub mod commands;
pub mod disabled;
pub mod error;
pub mod hex_text;
pub mod json;
pub mod knowledge;
pub mod layers;
pub mod primitives;
pub mod probe;
pub mod probe_loop;
pub mod requests;
pub mod results;
pub mod routes;
pub mod single_probe;
pub mod testpayment;
pub mod text;
