//! Ingestion of a market-data feed: subscription topics, decoding and
//! validation of feed records, normalisation into canonical events, the
//! idempotent store writes they map to, and the connection state machine.

pub mod codec;
pub mod event;
pub mod failure;
pub mod ingest;
pub mod interval;
pub mod outside;
pub mod pipeline;
pub mod store;
pub mod subscription;
pub mod text;
