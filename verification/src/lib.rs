//! A verified daemonization core.
//!
//! The crate models the process daemonization sequence — double fork, session
//! creation, working-directory and mask setup, optional chroot and privilege
//! drop, pid-file management, and standard-stream redirection — as an explicit
//! state machine.  The machine decides, in verified code, which operating
//! system action comes next and how each raw outcome is interpreted; the
//! caller performs the actual system calls and feeds their results back in.

pub mod config;
pub mod error;
pub mod laws;
pub mod machine;
pub mod pid_text;
pub mod syscall;
