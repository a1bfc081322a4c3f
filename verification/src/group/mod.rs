//! Groups: the command that creates one, the aggregate, and the rows listed
//! for each user.

pub mod aggregate;
pub mod command;
pub mod event;
pub mod projection;
pub mod query;
