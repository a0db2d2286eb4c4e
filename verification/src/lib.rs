//! The decisions of a small search gateway: which queries are forwarded to the
//! upstream search engine, what the forwarded request holds, and how each way
//! the exchange can end is answered.

pub mod config;
pub mod forward;
pub mod gateway;
pub mod health;
pub mod model;
pub mod outcome;
pub mod phase;
pub mod whitespace;
