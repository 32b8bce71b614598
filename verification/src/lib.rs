//! Decision logic of the Celestial service daemon: the PID file that marks a
//! running instance, the lifecycle of a run (standalone or as a Windows
//! service), and the answers given to the service control manager.
//!
//! - `pid`: the text of a PID file, read and written.
//! - `pid_lock`: taking the PID lock, as a state machine.
//! - `lifecycle`: the course of a run, as a state machine.
//! - `service`: control requests and status reports of a Windows service.
//! - `platform`: names and paths that depend on the operating system.

pub mod lifecycle;
pub mod pid;
pub mod pid_lock;
pub mod platform;
pub mod service;
