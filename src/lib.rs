//! A restaurant catalogue: one collection of restaurant records, a repository
//! with create / list / get / update / delete, and the transport-neutral
//! request and response rules that every HTTP binding applies.

pub mod error;
pub mod object_id;
pub mod model;
pub mod repo;
pub mod adapter;
pub mod laws;
