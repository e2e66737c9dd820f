//! Verified core of the remotty bridge: lane and approval bookkeeping,
//! the app-server protocol decisions, and the protected-secret layout.

pub mod text;
pub mod model;
pub mod secret;
pub mod json;
pub mod app_server;
pub mod protocol;
pub mod backlog;
pub mod turn;
pub mod sqlite;
pub mod clock;
pub mod store;
pub mod tables;
