//! Core of an event-sourced, command/query-separated backend: commands append
//! events to per-aggregate streams under optimistic concurrency, projections
//! fold those events into per-tenant tables, and queries page through them.

pub mod text;
pub mod error;
pub mod command;
pub mod event;
pub mod ident;
pub mod warehouse;
pub mod storage;
pub mod query;
pub mod room;
pub mod group;
pub mod cluster;
pub mod consumer;
