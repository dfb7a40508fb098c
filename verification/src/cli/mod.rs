//! Command-line side of the runtime: the decisions behind the health,
//! status and deployment commands, and the IPC client's settings.

pub mod commands;
pub mod deployment_debug;
pub mod health;
pub mod ipc_client;
pub mod status;
