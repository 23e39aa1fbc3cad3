use crate::shutdown_handler::ShutdownReason;
use vstd::prelude::*;
use vstd::std_specs::convert::FromSpecImpl;

verus! {

/// Why a signal could not be delivered to a child process.
#[derive(Debug, Copy, Clone, PartialEq, Eq, Structural)]
pub enum KillError {
    /// The child has no process id, or its id is zero.
    InvalidPid,
    /// The calling process may not signal the target.
    NoPermission,
    /// The target does not exist; it may be a zombie that has terminated
    /// and has not been waited for yet.
    NoWait,
}

/// The class of signal that asks a child process to stop.
#[derive(Debug, Copy, Clone, PartialEq, Eq, Structural)]
pub enum ChildSignal {
    Interrupt,
    Quit,
    Terminate,
}

/// The number of the interrupt signal.
pub open spec fn spec_sigint() -> i32 {
    2
}

/// The number of the quit signal.
pub open spec fn spec_sigquit() -> i32 {
    3
}

/// The number of the terminate signal.
pub open spec fn spec_sigterm() -> i32 {
    15
}

/// The error number for "operation not permitted".
pub open spec fn spec_eperm() -> i32 {
    1
}

/// The error number for "no such process".
pub open spec fn spec_esrch() -> i32 {
    3
}

/// `libc::SIGINT`, which is 2 on Linux.
#[verifier::external_body]
fn sigint() -> (n: i32)
    ensures
        n == spec_sigint(),
{
    libc::SIGINT
}

/// `libc::SIGQUIT`, which is 3 on Linux.
#[verifier::external_body]
fn sigquit() -> (n: i32)
    ensures
        n == spec_sigquit(),
{
    libc::SIGQUIT
}

/// `libc::SIGTERM`, which is 15 on Linux.
#[verifier::external_body]
fn sigterm() -> (n: i32)
    ensures
        n == spec_sigterm(),
{
    libc::SIGTERM
}

/// `libc::EPERM`, which is 1 on Linux. Libc gives other numbers on a few
/// targets, and there this does not hold.
#[verifier::external_body]
fn eperm() -> (n: i32)
    ensures
        n == spec_eperm(),
{
    libc::EPERM
}

/// `libc::ESRCH`, which is 3 on Linux. Libc gives other numbers on a few
/// targets, and there this does not hold.
#[verifier::external_body]
fn esrch() -> (n: i32)
    ensures
        n == spec_esrch(),
{
    libc::ESRCH
}

impl ChildSignal {
    /// The signal number that stands for this class.
    pub open spec fn number(self) -> i32 {
        match self {
            ChildSignal::Interrupt => spec_sigint(),
            ChildSignal::Quit => spec_sigquit(),
            ChildSignal::Terminate => spec_sigterm(),
        }
    }

    /// The class of signal that a shutdown for `reason` sends to the children.
    pub open spec fn for_reason(reason: ShutdownReason) -> ChildSignal {
        match reason {
            ShutdownReason::CtrlC => ChildSignal::Interrupt,
            ShutdownReason::Quit => ChildSignal::Quit,
            ShutdownReason::Sigint => ChildSignal::Interrupt,
            ShutdownReason::Sigterm => ChildSignal::Terminate,
            ShutdownReason::Sigquit => ChildSignal::Quit,
            ShutdownReason::End => ChildSignal::Terminate,
        }
    }
}

impl From<ChildSignal> for i32 {
    fn from(signal: ChildSignal) -> (n: i32) {
        match signal {
            ChildSignal::Interrupt => sigint(),
            ChildSignal::Quit => sigquit(),
            ChildSignal::Terminate => sigterm(),
        }
    }
}

impl FromSpecImpl<ChildSignal> for i32 {
    open spec fn obeys_from_spec() -> bool {
        true
    }

    open spec fn from_spec(signal: ChildSignal) -> i32 {
        signal.number()
    }
}

impl From<ShutdownReason> for ChildSignal {
    fn from(reason: ShutdownReason) -> (signal: ChildSignal) {
        match reason {
            ShutdownReason::CtrlC => ChildSignal::Interrupt,
            ShutdownReason::Quit => ChildSignal::Quit,
            ShutdownReason::Sigint => ChildSignal::Interrupt,
            ShutdownReason::Sigterm => ChildSignal::Terminate,
            ShutdownReason::Sigquit => ChildSignal::Quit,
            ShutdownReason::End => ChildSignal::Terminate,
        }
    }
}

impl FromSpecImpl<ShutdownReason> for ChildSignal {
    open spec fn obeys_from_spec() -> bool {
        true
    }

    open spec fn from_spec(reason: ShutdownReason) -> ChildSignal {
        ChildSignal::for_reason(reason)
    }
}

/// The process that a signal for a child with id `pid` is addressed to: none
/// when the id is absent or zero, else the id as the operating system's
/// signed process id, where an id above `i32::MAX` wraps around as a cast
/// does.
pub open spec fn signal_target(pid: Option<u32>) -> Result<i32, KillError> {
    match pid {
        None => Err(KillError::InvalidPid),
        Some(id) => if id == 0 {
            Err(KillError::InvalidPid)
        } else if id <= i32::MAX {
            Ok(id as i32)
        } else {
            Ok((id - 0x1_0000_0000) as i32)
        },
    }
}

/// What the error number `code`, reported for the delivery of a signal, means
/// for the caller: zero and every number but the two below count as
/// delivered.
pub open spec fn delivery_outcome(code: i32) -> Result<(), KillError> {
    if code == spec_eperm() {
        Err(KillError::NoPermission)
    } else if code == spec_esrch() {
        Err(KillError::NoWait)
    } else {
        Ok(())
    }
}

/// Decides where a signal for the child with id `pid` goes. An absent or zero
/// id is refused here, so that it never reaches the operating system.
pub fn target_of(pid: Option<u32>) -> (target: Result<i32, KillError>)
    ensures
        target == signal_target(pid),
{
    match pid {
        None => Err(KillError::InvalidPid),
        Some(id) => {
            if id == 0 {
                Err(KillError::InvalidPid)
            } else if id <= 0x7fff_ffff {
                Ok(id as i32)
            } else {
                let low: u32 = id - 0x8000_0000;
                Ok(low as i32 + i32::MIN)
            }
        },
    }
}

/// Reads the error number that the operating system reported for a delivery.
pub fn outcome_of(code: i32) -> (outcome: Result<(), KillError>)
    ensures
        outcome == delivery_outcome(code),
{
    if code == eperm() {
        Err(KillError::NoPermission)
    } else if code == esrch() {
        Err(KillError::NoWait)
    } else {
        Ok(())
    }
}

} // verus!
