//! Instance coordination: at most one microVM instance per control port.
//!
//! Each process racing to launch on a port makes an attempt: it tries to
//! take the exclusive per-port lock; if another live process holds it, it
//! forwards its request to that owner over the control channel. The
//! decision logic here maps the observed outcome of one attempt to what
//! the process does next; the caller performs the lock and channel I/O
//! and feeds the observations back in.

use vstd::prelude::*;
use vstd::string::StringExecFns;
use crate::decimal::spec_dec;
use crate::decimal::push_dec;

verus! {

/// One launch request, built once from the command line.
pub struct LaunchRequest {
    pub command: String,
    pub command_args: Vec<String>,
    pub env: Vec<(String, String)>,
    pub control_port: u32,
}

/// How one coordination attempt on the port ended, as observed by the
/// caller doing the lock and channel I/O.
#[derive(Clone, Copy, PartialEq, Eq, Structural, Debug)]
pub enum AttemptEvent {
    /// The exclusive per-port lock was acquired by this process.
    Acquired,
    /// The lock was held by another live process and the forwarded
    /// request was delivered to it.
    HeldDelivered,
    /// The lock was held but the owner vanished before the forwarding
    /// handshake completed.
    HeldVanished,
    /// The lock file could not be created or opened.
    LockIoError,
}

/// Why coordination failed for good.
#[derive(Clone, Copy, PartialEq, Eq, Structural, Debug)]
pub enum CoordError {
    /// Creating or opening the lock file failed.
    LockFile,
    /// The forwarding handshake failed even after retrying the lock once.
    ForwardFailed,
}

/// What the process does after one attempt.
#[derive(Clone, Copy, PartialEq, Eq, Structural, Debug)]
pub enum AttemptDecision {
    /// This process now owns the instance and proceeds to configure it.
    Owner,
    /// A running instance took the request; this process exits cleanly.
    Forwarded,
    /// The prior owner just exited; make one fresh attempt.
    Retry,
    /// Give up with the given error.
    Fail { error: CoordError },
}

/// The final result of coordination.
pub enum LaunchResult {
    /// A running instance accepted the forwarded request; this process
    /// must now exit successfully.
    LaunchRequested,
    /// This process owns the instance (the caller keeps the lock handle
    /// alive for the process lifetime) and proceeds with the request.
    LockAcquired { command: String, command_args: Vec<String>, env: Vec<(String, String)> },
}

/// The decision after an attempt: acquiring the lock makes this process
/// the owner; a delivered forward means the work is done elsewhere; a
/// vanished owner is retried exactly once; lock file I/O errors are fatal.
pub open spec fn spec_attempt_decision(e: AttemptEvent, retried: bool) -> AttemptDecision {
    match e {
        AttemptEvent::Acquired => AttemptDecision::Owner,
        AttemptEvent::HeldDelivered => AttemptDecision::Forwarded,
        AttemptEvent::HeldVanished => if retried {
            AttemptDecision::Fail { error: CoordError::ForwardFailed }
        } else {
            AttemptDecision::Retry
        },
        AttemptEvent::LockIoError => AttemptDecision::Fail { error: CoordError::LockFile },
    }
}

/// Decides what to do after one coordination attempt. `retried` says
/// whether this already was the single permitted retry.
pub fn attempt_decision(e: AttemptEvent, retried: bool) -> (d: AttemptDecision)
    ensures
        d == spec_attempt_decision(e, retried),
{
    match e {
        AttemptEvent::Acquired => AttemptDecision::Owner,
        AttemptEvent::HeldDelivered => AttemptDecision::Forwarded,
        AttemptEvent::HeldVanished => if retried {
            AttemptDecision::Fail { error: CoordError::ForwardFailed }
        } else {
            AttemptDecision::Retry
        },
        AttemptEvent::LockIoError => AttemptDecision::Fail { error: CoordError::LockFile },
    }
}

/// Turns a terminal decision into the coordination result, handing the
/// original request back to the new owner unchanged.
pub fn coordinate_outcome(req: LaunchRequest, d: AttemptDecision) -> (r: Result<
    LaunchResult,
    CoordError,
>)
    requires
        !(d is Retry),
    ensures
        d is Owner ==> (r matches Ok(res) && (res matches LaunchResult::LockAcquired {
            command,
            command_args,
            env,
        } && command == req.command && command_args == req.command_args && env == req.env)),
        d is Forwarded ==> (r matches Ok(res2) && res2 is LaunchRequested),
        d matches AttemptDecision::Fail { error } ==> r == Err::<LaunchResult, CoordError>(error),
{
    match d {
        AttemptDecision::Owner => Ok(
            LaunchResult::LockAcquired {
                command: req.command,
                command_args: req.command_args,
                env: req.env,
            },
        ),
        AttemptDecision::Forwarded => Ok(LaunchResult::LaunchRequested),
        AttemptDecision::Retry => Err(CoordError::ForwardFailed),
        AttemptDecision::Fail { error } => Err(error),
    }
}

/// Two concurrent coordination requests on the same port end with exactly
/// one owner.
///
/// The premise mirrors what the environment guarantees: the OS advisory
/// lock admits at most one holder, one of the two racing processes does
/// acquire it, and the acquiring process (which then owns the instance)
/// serves the other's forwarding handshake. Under that premise, exactly
/// one attempt decides `Owner` and the other decides `Forwarded`.
pub proof fn lemma_single_instance_per_port(a: AttemptEvent, b: AttemptEvent, retried: bool)
    requires
        !(a is Acquired && b is Acquired),
        a is Acquired || b is Acquired,
        a is Acquired ==> b is HeldDelivered,
        b is Acquired ==> a is HeldDelivered,
    ensures
        (spec_attempt_decision(a, retried) is Owner) != (spec_attempt_decision(
            b,
            retried,
        ) is Owner),
        !(spec_attempt_decision(a, retried) is Owner) ==> spec_attempt_decision(
            a,
            retried,
        ) is Forwarded,
        !(spec_attempt_decision(b, retried) is Owner) ==> spec_attempt_decision(
            b,
            retried,
        ) is Forwarded,
{
}

/// The lock file name for a control port: `krun-<port>.lock`, placed by
/// the caller in its runtime directory.
pub fn lock_file_name(port: u32) -> (r: String)
    ensures
        r@ == "krun-"@ + spec_dec(port as int) + ".lock"@,
{
    let mut r = String::from_str("krun-");
    push_dec(&mut r, port);
    r.append(".lock");
    r
}

} // verus!
