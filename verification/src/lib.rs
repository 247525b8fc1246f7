//! Fetch-and-cache pipeline for a single published document: link discovery,
//! length negotiation, streamed download and a length-addressed cache slot.

pub mod cache;
pub mod config;
pub mod error;
pub mod fetch;
pub mod link;
pub mod pipeline;
pub mod probe;
pub mod world;
