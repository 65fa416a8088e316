//! Startup coordination and service reconciliation for a single managed
//! container service.
//!
//! The crate holds the decisions of a message-driven control loop: the
//! lifecycle of three backend modules, the merge of container listings with
//! their inspections, the derivation of a service record from a discovered
//! container, and the routing of commits to the store. The surrounding
//! program performs the outside work that the returned tasks name and hands
//! the outcomes back as messages.

pub mod util;
pub mod error;
pub mod text;
pub mod copy;
pub mod json;
pub mod ident;
pub mod container;
pub mod env;
pub mod controller;
pub mod app;
