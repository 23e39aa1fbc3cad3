//! A supervisor for several child processes that run side by side: the
//! lifecycle of each task, the control-message bus, the shutdown escalation
//! and the ordered dispatch of input events.

pub mod app;
pub mod console;
pub mod context;
pub mod event;
pub mod message;
pub mod parallely;
pub mod shutdown_handler;
pub mod task_executor;
pub mod text;
