//! A small HTTP service's request handling: which route a request takes, and
//! the reply that each route gives, as plain values.

pub mod laws;
pub mod message;
pub mod query;
pub mod router;
pub mod service;
