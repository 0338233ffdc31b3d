//! What the operations do, stated on the values that they take and give.

pub mod body;
pub mod context;
pub mod execution;
pub mod guardian;
pub mod headers;
pub mod http;
pub mod runtime;
pub mod services;
pub mod text;
pub mod url;
