//! Credential lifecycle and authorized retrieval for a weather service.
//!
//! The crate holds the decisions of three request flows: registering an
//! account, logging in, and fetching the weather for a caller's address.
//! Storage and HTTP transport are performed by the embedding program, which
//! hands their outcomes to the functions here.

/// Hashing and checking of hashed passwords
pub mod password;

/// Creation and checking of signed session tokens
pub mod authorization;

/// Requests to, and replies from, the geolocation and weather services
pub mod http_client;

/// Outcomes of storage queries
pub mod queries;

/// Network address helpers
pub mod helpers;

/// Configuration parameters
pub mod config;

/// Request flows and the types they receive and return
pub mod api;
