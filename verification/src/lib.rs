//! A request-routing facade core: bounded retry with failover across a
//! rotating set of backend addresses, error classification, and response
//! composition for a two-backend aggregate view.
//!
//! The library holds every decision of the facade — validation, candidate
//! resolution, cursor rotation, retry bookkeeping, error taxonomy, response
//! composition — each with a verified contract. The network attempts, the
//! delays and the HTTP serving around them are its caller's work, driven by
//! the retry engine's decisions.

pub mod address_book;
pub mod connector;
pub mod cursor;
pub mod errors;
pub mod handlers;
pub mod retry;
