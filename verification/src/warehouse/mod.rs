//! The warehouse: bulk imports of tenant data, the aggregate that remembers
//! where each import is stored, and the per-tenant table built from them.

pub mod aggregate;
pub mod command;
pub mod event;
pub mod memory;
pub mod projection;
pub mod query;
pub mod service;
pub mod sql;
pub mod table;
