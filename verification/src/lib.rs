//! Verified core of a small relay service: it assembles the service's
//! configuration from environment variables, builds the requests that the
//! service sends to a bank-linking aggregator, and decides what the service
//! answers once an upstream call has ended.
//!
//! Nothing in this crate performs I/O. The surrounding program reads the
//! environment, makes the network calls and hands the outcomes to the
//! functions of this crate as plain values.

pub mod config;
pub mod decimal;
pub mod env;
pub mod error;
pub mod json;
pub mod plaid;
pub mod secret;
pub mod service;
