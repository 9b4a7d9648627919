//! A delayed-message delivery service: the event store, the dispatch loop's
//! decisions, the command handlers' decisions and the shared fault flag.
pub mod config;
pub mod dispatch;
pub mod handlers;
pub mod laws;
pub mod rpc;
pub mod store;
pub mod time;

pub use rpc::{AddScheduleRequest, AddScheduleResponse, DeleteScheduleRequest};
