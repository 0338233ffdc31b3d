//! Confirmed ownership of the processes behind a coding-agent session.
//!
//! A session launches processes that hold authority, such as MCP servers and guardian reviews. The
//! library decides, for each of them, when it may be forgotten: what is registered stays so until
//! its shutdown is confirmed, and what could have been lost is reported by every later shutdown.
//! It also decides how an `http/request` call is checked and routed, so that credentials for this
//! machine reach no proxy.
//!
//! The library holds no lock and awaits nothing. An operation that has to wait is cut where it
//! waits: the caller does the waiting and hands in what came of it.

pub mod guardian;
pub mod http_client;
pub mod laws;
pub mod required_execution;
pub mod runtime;
pub mod sequences;
pub mod services;
pub mod text;
