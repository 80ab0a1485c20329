//! Core logic of a multi-tenant OTLP ingestion gateway.
//!
//! The gateway accepts OTLP/HTTP traces, logs and metrics, authenticates each
//! request by its ingest key, stamps the tenant's identity onto every
//! resource of the payload, and forwards the payload to a collector. On the
//! side it sums the bytes each tenant sent and reports them to a metering
//! API.
//!
//! This crate holds the decisions of that gateway, with their contracts:
//!
//! - [`keys`]: ingest keys, their keyed hash, and key resolution;
//! - [`codec`]: wire formats and content encodings;
//! - [`otlp`]: parsed export requests;
//! - [`enrich`]: the tenant stamp on resource attributes;
//! - [`forward`]: the collector's answer, as relayed to the client;
//! - [`pipeline`]: the stages of one request;
//! - [`usage`]: the usage aggregator;
//! - [`config`] and [`database`]: configuration;
//! - [`text`]: what the string operations used throughout compute.
//!
//! Waiting — for the key store, the collector, the metering API, the clock —
//! is left to the program around this crate, which calls in with what came
//! back.

pub mod codec;
pub mod config;
pub mod database;
pub mod enrich;
pub mod error;
pub mod forward;
pub mod keys;
pub mod otlp;
pub mod pipeline;
pub mod signal;
pub mod text;
pub mod usage;
