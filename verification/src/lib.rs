//! The core of a small read-only HTTP service that lists draft games.
//!
//! The service holds a fixed list of records and answers two `GET` requests: a
//! health check and a listing of the records. This crate is the part that
//! decides: it builds the records, routes a request by method and path, and says
//! what the reply is. Sockets, JSON encoding and middleware are the caller's.

pub mod laws;
pub mod model;
pub mod seed;
pub mod service;
pub mod text;

pub use model::DraftGame;
pub use seed::seed_games;
pub use service::{
    health, list_drafts, respond, route, Body, Health, Reply, Route, DRAFTS_PATH, GET,
    HEALTH_PATH, STATUS_METHOD_NOT_ALLOWED, STATUS_NOT_FOUND, STATUS_OK,
};
