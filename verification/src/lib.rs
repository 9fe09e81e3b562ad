//! A minimal chat-bot core: a fixed command table, a message dispatcher,
//! and a persistent credential store with a one-time bootstrap.

pub mod bootstrap;
pub mod commands;
pub mod dispatch;
pub mod store;
pub mod trim;
