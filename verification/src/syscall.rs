//! The syscall facade: verified interpretation of raw system-call outcomes.
//!
//! The OS primitives themselves (fork, setsid, chroot, the privilege drops,
//! file locking, descriptor duplication) are performed by the unverified
//! caller; what is verified here is the convention that turns their raw
//! results into typed ones: any call returning a negative sentinel failed,
//! and the error code captured right after the call names the cause.  No
//! interpreter retries — callers decide.

use vstd::prelude::*;

use crate::error::{Error, ErrorKind};

verus! {

/// The two continuations of a successful fork: the parent learns the child's
/// process id, the child sees zero.
#[derive(Clone, Copy, Debug, PartialEq, Eq, Structural)]
pub enum ForkOutcome {
    Parent,
    Child,
}

/// Interprets the raw return of a fork call.  A negative return is a
/// failure carrying the captured error code; a positive return identifies
/// the parent; zero identifies the child.
pub fn fork_outcome(ret: i64, errno: i32) -> (r: Result<ForkOutcome, Error>)
    ensures
        ret < 0 ==> (r matches Err(e) && e.kind == ErrorKind::ForkFailed && e.os_code == Some(
            errno,
        ) && e.description is None),
        ret > 0 ==> r == Ok::<ForkOutcome, Error>(ForkOutcome::Parent),
        ret == 0 ==> r == Ok::<ForkOutcome, Error>(ForkOutcome::Child),
{
    if ret < 0 {
        Err(Error::from_os(ErrorKind::ForkFailed, errno))
    } else if ret > 0 {
        Ok(ForkOutcome::Parent)
    } else {
        Ok(ForkOutcome::Child)
    }
}

/// Interprets the raw return of any primitive that reports failure by a
/// negative sentinel, tagging a failure with the one kind the primitive maps
/// to.
pub fn syscall_outcome(kind: ErrorKind, ret: i64, errno: i32) -> (r: Result<i64, Error>)
    ensures
        ret < 0 ==> (r matches Err(e) && e.kind == kind && e.os_code == Some(errno)
            && e.description is None),
        ret >= 0 ==> r == Ok::<i64, Error>(ret),
{
    if ret < 0 {
        Err(Error::from_os(kind, errno))
    } else {
        Ok(ret)
    }
}

/// Interprets the raw return of a process-id read.  A well-behaved OS never
/// fails it, but a negative return is still surfaced, under the kind of the
/// step that needed the id for the pid file.
pub fn pid_outcome(ret: i64, errno: i32) -> (r: Result<u64, Error>)
    ensures
        ret < 0 ==> (r matches Err(e) && e.kind == ErrorKind::PidFileWriteFailed && e.os_code
            == Some(errno) && e.description is None),
        ret >= 0 ==> r == Ok::<u64, Error>(ret as u64),
{
    if ret < 0 {
        Err(Error::from_os(ErrorKind::PidFileWriteFailed, errno))
    } else {
        Ok(ret as u64)
    }
}

} // verus!
