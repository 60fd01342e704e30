//! Decisions of the platform backends that need no operating-system call.

pub mod linux;
pub mod windows;
