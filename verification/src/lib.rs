//! Verified control logic of the Shyper virtual machine driver.
//!
//! The library decides and its caller acts: an operation that needs something
//! done outside returns what that is, a command to run or a file to write, and
//! takes what came of it. `driver` is what a runtime works with, `inner` the
//! machine behind it, `start` the way to a running machine, `config` the
//! settings. `laws`, `meaning` and `conduct` say what holds of all of it.

pub mod command;
pub mod conduct;
pub mod config;
pub mod device;
pub mod driver;
pub mod error;
pub mod inner;
pub mod json;
pub mod kata;
pub mod laws;
pub mod meaning;
pub mod pool;
pub mod start;
pub mod text;
