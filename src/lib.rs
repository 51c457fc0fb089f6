//! The core of a supervised actor runtime: addresses, the per-task scope,
//! the group builder, the supervisor's decisions, the message exchange of
//! one instance, and the message vocabulary of configuration and
//! termination.

pub mod actor;
pub mod addr;
pub mod backoff;
pub mod config;
pub mod context;
pub mod group;
pub mod messages;
pub mod permissions;
pub mod routers;
pub mod scope;
pub mod stream;
pub mod supervisor;
pub mod trace_id;
