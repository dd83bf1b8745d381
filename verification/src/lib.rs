//! A URL shortener's core: short identifiers, the link table, the service
//! rules that bind them, and the HTTP responses that report the outcome.

pub mod api;
pub mod database;
pub mod exchange;
pub mod id;
pub mod service;
