//! I/O adapter binding a replicated-log consensus engine to the
//! collaborators a cluster node runs on: a message transport (mailer),
//! a durable-storage facade, a role-scoped timeout source, and a
//! cluster-wide service registry.
//!
//! The adapter itself performs no consensus logic. It multiplexes inbound
//! messages with a backlog captured during shutdown, routes outbound
//! messages by parsing their destination identifier, forwards persistence
//! requests verbatim to storage, produces role-scoped timeouts, and
//! manages a two-phase graceful shutdown together with registration and
//! deregistration of the node's identity.

pub mod adapter;
pub mod mailer;
pub mod message;
pub mod node_id;
pub mod service;
pub mod storage;
pub mod timer;
