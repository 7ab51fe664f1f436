//! Verified core of the Lucet WebAssembly runtime: memory layout of instance slots, runtime
//! limits, trap lookup, the instance state machine, kill-switch protocol and signal decisions.

pub mod allocation;
pub mod trapcode;
pub mod dynval;
pub mod future;
pub mod error;
pub mod instance;
pub mod module;
pub mod mock;
pub mod region;
pub mod execution;
pub mod val;
pub mod state;
pub mod signals;
pub mod uffd;
pub mod c_api;
pub mod link_abi;
pub mod lock_testpoints;
pub mod wat;
pub mod sysdeps;
