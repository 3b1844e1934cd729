//! Safe, capability-oriented bindings for Native processes: the decisions
//! they make about kernel results, independent of the syscall transport.

pub mod status;
pub mod error;
pub mod handle;
pub mod inspect;
pub mod fs;
pub mod bootfs;
pub mod capability_channel;
pub mod channel;
pub mod console;
pub mod device;
pub mod memory;
pub mod system;
pub mod startup;
pub mod guest_io;
pub mod block;
pub mod relay;
pub mod core_abi;
