//! Black-box detection of HTTP request smuggling: a target is probed with
//! hand-made requests, and a disagreement between its front end and its back
//! end is inferred from timeout statuses and from delays against a measured
//! baseline.
//!
//! The library decides and never sends: `engine` says which request is to be
//! sent next and takes what came back, `scanner` classifies one response,
//! `baseline` reduces the benign samples, `payloads` makes the requests, and
//! `trace` states what sequences of outcomes lead to.

pub mod baseline;
pub mod cli;
pub mod engine;
pub mod error;
pub mod model;
pub mod payloads;
pub mod plan;
pub mod sarif;
pub mod scanner;
pub mod target;
pub mod text;
pub mod trace;
pub mod utils;
