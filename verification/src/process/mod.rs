//! What is known about the victim process: its modules and the signatures
//! that are looked up in them.

pub mod module;
pub mod pattern;
