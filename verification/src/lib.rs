//! Configuration, release location and token authorization for a supervisor
//! that installs and launches a platform-specific web binary.
//!
//! Everything here is a function from plain values to plain values. Reading
//! and writing the settings store, asking the operating system about
//! auto-launch and serving HTTP happen in the program around this library:
//! it hands in what it read and carries out the [`store::StoreOp`] and
//! [`config::AutoLaunchAction`] values that come back.

pub mod cli;
pub mod config;
pub mod cpu;
pub mod guard;
pub mod handler;
pub mod platform;
pub mod storage_config;
pub mod store;
