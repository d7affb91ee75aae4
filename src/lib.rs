//! A checked boundary around the QHYCCD camera SDK.
//!
//! The native SDK reports every outcome as a numeric status code and leaves
//! call order entirely to its caller. This crate holds the decisions around
//! those calls: which call is legal in which state, how each status code
//! becomes a typed error, how raw buffers are decoded, and how a session moves
//! from open to closed. The native calls themselves are made by the
//! surrounding program, which hands their results to the functions here.
pub mod error;
pub mod feature;
pub mod firmware;
pub mod sdk;
pub mod camera;
