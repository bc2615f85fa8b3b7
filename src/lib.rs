//! A store for named sets of environment variables: the data model, the task
//! queue that serialises requests, the storage engine's rules and the client's
//! decisions.

pub mod types;
pub mod task;
pub mod store;
pub mod memory;
pub mod queue;
pub mod laws;
pub mod client;
