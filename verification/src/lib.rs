//! Verified nucleus of a market-data ingestion and fan-out engine.
//!
//! The crate holds the rules of the engine as sequential, lock-free code with
//! contracts: the data model, the per-topic bounded state, the normalisation
//! of venue frames, the connector's stream selection and reconnect policy, and
//! the per-client subscription logic. Sockets, tasks, locks and the JSON
//! encoding of outbound frames belong to the program built around it.

pub mod agreement;
pub mod bounds;
pub mod command;
pub mod config;
pub mod connector;
pub mod engine;
pub mod ingest;
pub mod json;
pub mod models;
pub mod normalize;
pub mod rest;
pub mod session;
pub mod simulator;
pub mod sorting;
pub mod state;
pub mod streams;
pub mod text;
pub mod topics;
