//! Code-cave trampoline hooks for a process under inspection: the signature
//! scanner, the page-safety rules, the trampoline assembler helpers and the
//! install / uninstall engine, all free of operating-system calls.
//!
//! Every function here works on plain values. A driver performs the remote
//! calls that the engine asks for and hands the outcomes back.

pub mod error;
pub mod hooks;
pub mod memory;
pub mod process;
pub mod tools;
pub mod trampoline;

pub use error::{MemOpError, MemOpResult};
