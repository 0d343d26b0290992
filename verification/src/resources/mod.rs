//! Shapes of the payloads that the API hands out and of the options that its
//! endpoints take. The payloads are pure data: the client carries them and
//! never interprets them. The options know how they are written as query
//! parameters.

pub mod cluster;
pub mod query;
