//! Supervisory core of a MicroVM sandbox monitor: the pure logic and the
//! state machine behind `start` / `stop`, with their contracts.

pub mod rootfs;
pub mod log_path;
pub mod relay;
pub mod terminal;
pub mod store;
pub mod monitor;
pub mod session;
