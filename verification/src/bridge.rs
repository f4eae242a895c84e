//! The accept bridge: a dedicated thread turning blocking accepts into a
//! stream an asynchronous consumer can drain.
//!
//! On the emulated path the platform offers only a blocking `accept`, which
//! must never run on the asynchronous scheduler.  One thread therefore loops:
//! accept, forward the result into the bounded channel, and decide whether to
//! go on.  The loop is fail-stop — a failed accept is forwarded once and ends
//! the thread — and it ends silently when the consumer has stopped draining
//! the channel.  This module verifies those decisions and the shape of the
//! whole loop; the accept call itself and the thread spawn live in the
//! unverified shell.

use vstd::prelude::*;

verus! {

/// What one blocking accept call produced: a connected stream (as its raw OS
/// handle) together with a peer descriptor, or a terminal error (as its raw
/// OS error code).
#[derive(Clone, Copy, Debug, PartialEq, Eq, Structural)]
pub enum AcceptResult {
    Conn { handle: u64, peer: u64 },
    Fatal { code: i32 },
}

impl AcceptResult {
    /// Whether this result is the terminal error of a broken listener.
    pub fn is_fatal(&self) -> (b: bool)
        ensures
            b == (*self is Fatal),
    {
        match self {
            AcceptResult::Fatal { .. } => true,
            AcceptResult::Conn { .. } => false,
        }
    }
}

/// What the bridge thread does after forwarding one accept result.
#[derive(Clone, Copy, Debug, PartialEq, Eq, Structural)]
pub enum BridgeDecision {
    /// The result was delivered and was a connection: accept again.
    Continue,
    /// The push failed because the consumer stopped draining: exit silently.
    StopConsumerGone,
    /// The result was delivered but was an accept error: fail-stop.
    StopFatal,
}

/// The bridge thread's rule after one accept and one push: a failed push
/// always ends the thread, a delivered accept error ends it too, and only a
/// delivered connection lets it accept again.
pub open spec fn bridge_decision(result_was_err: bool, push_ok: bool) -> BridgeDecision {
    if !push_ok {
        BridgeDecision::StopConsumerGone
    } else if result_was_err {
        BridgeDecision::StopFatal
    } else {
        BridgeDecision::Continue
    }
}

/// Decide the bridge thread's next move from one accept result and the
/// outcome of pushing it to the consumer.
pub fn bridge_step(result_was_err: bool, push_ok: bool) -> (d: BridgeDecision)
    ensures
        d == bridge_decision(result_was_err, push_ok),
{
    if !push_ok {
        BridgeDecision::StopConsumerGone
    } else if result_was_err {
        BridgeDecision::StopFatal
    } else {
        BridgeDecision::Continue
    }
}

/// Relies on tokio's bounded `mpsc::Sender`: declared so the send half of
/// the bridge's channel can appear in signatures; its value is opaque here.
#[verifier::external_type_specification]
#[verifier::external_body]
#[verifier::reject_recursive_types(T)]
pub struct ExSender<T>(tokio::sync::mpsc::Sender<T>);

/// Relies on tokio's `Sender::blocking_send`: it fails exactly when the
/// receive half of the channel is closed, and the error then hands the
/// unsent value back (`SendError` wraps it).  Whether the consumer is still
/// there is not a function of the arguments, so nothing more is promised of
/// which branch comes back.  Must run on a dedicated thread, never inside
/// the asynchronous runtime.
#[verifier::external_body]
fn send_blocking<T>(tx: &tokio::sync::mpsc::Sender<T>, value: T) -> (r: Result<(), T>)
    ensures
        r matches Err(v) ==> v == value,
{
    match tx.blocking_send(value) {
        Ok(()) => Ok(()),
        Err(tokio::sync::mpsc::error::SendError(v)) => Err(v),
    }
}

/// Forward one accept result to the consumer and decide the thread's next
/// move.  Whether the push succeeds depends on whether the consumer still
/// holds its end, so the decision is pinned only as far as the arguments
/// decide it: a connection never fail-stops, and an accept error never
/// continues.
pub fn bridge_forward<T>(tx: &tokio::sync::mpsc::Sender<T>, result: T, result_was_err: bool) -> (d:
    BridgeDecision)
    ensures
        exists|push_ok: bool| d == bridge_decision(result_was_err, push_ok),
        d is StopFatal ==> result_was_err,
        d is Continue ==> !result_was_err,
{
    match send_blocking(tx, result) {
        Ok(_) => bridge_step(result_was_err, true),
        Err(_) => bridge_step(result_was_err, false),
    }
}

/// The whole bridge loop, over a script of accept outcomes.
///
/// `accepts` is what successive blocking accept calls would return;
/// `consumer_live` is how many pushes the consumer will still take before
/// its end of the channel counts as closed.  Returns the results actually
/// delivered to the consumer and the number of accept calls the thread made
/// before exiting.
///
/// The contract pins the loop's three guarantees: delivery is the arrival
/// order, unreordered and with nothing dropped in the middle (the delivered
/// results are exactly a prefix of `accepts`); the thread is fail-stop
/// (nothing is delivered after an accept error); and the thread stops within
/// one accept call of its first failed push, so a consumer that stops
/// draining leaks at most one in-flight accept, whose result is discarded.
pub fn bridge_run(accepts: &Vec<AcceptResult>, consumer_live: usize) -> (r: (
    Vec<AcceptResult>,
    usize,
))
    ensures
        r.0@ == accepts@.subrange(0, r.0@.len() as int),
        forall|j: int| 0 <= j < r.0@.len() - 1 ==> accepts@[j] is Conn,
        r.0@.len() <= consumer_live,
        r.0@.len() == consumer_live || r.1 == accepts@.len() || (r.0@.len() > 0 && accepts@[r.0@.len()
            - 1] is Fatal),
        r.0@.len() <= r.1 <= r.0@.len() + 1,
        r.1 <= accepts@.len(),
        r.1 <= consumer_live + 1,
        r.0@.len() < consumer_live ==> r.1 == r.0@.len(),
{
    let mut pushed: Vec<AcceptResult> = Vec::new();
    let mut i: usize = 0;
    loop
        invariant_except_break
            i <= accepts@.len(),
            pushed@.len() == i,
            i <= consumer_live,
            pushed@ == accepts@.subrange(0, i as int),
            forall|j: int| 0 <= j < i ==> accepts@[j] is Conn,
        ensures
            pushed@ == accepts@.subrange(0, pushed@.len() as int),
            forall|j: int| 0 <= j < pushed@.len() - 1 ==> accepts@[j] is Conn,
            pushed@.len() <= consumer_live,
            pushed@.len() == consumer_live || i == accepts@.len() || (pushed@.len() > 0
                && accepts@[pushed@.len() - 1] is Fatal),
            pushed@.len() <= i <= pushed@.len() + 1,
            i <= accepts@.len(),
            pushed@.len() < consumer_live ==> i == pushed@.len(),
        decreases accepts@.len() - i,
    {
        if i == accepts.len() {
            break ;
        }
        let result = accepts[i];
        i = i + 1;
        let was_err = result.is_fatal();
        if pushed.len() < consumer_live {
            pushed.push(result);
            proof {
                assert(pushed@ =~= accepts@.subrange(0, i as int));
            }
        } else {
            // The push failed: the consumer is gone and this result is
            // discarded.
            break ;
        }
        if was_err {
            break ;
        }
    }
    (pushed, i)
}

} // verus!
