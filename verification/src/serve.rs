//! The per-connection serving loop's decisions.
//!
//! The consumer awaits accept results — from the native listener directly,
//! or drained from the bridge's channel on the emulated path — and for each
//! connection makes a fresh handler and drives one request/response exchange
//! over it.  Keep-alive reuse is disabled, so every connection is single-use
//! at this layer.  The loop never returns on success: it ends only with a
//! terminal error — a failed accept, a failed exchange (no per-connection
//! isolation), or the channel closing.  This module verifies those
//! decisions; awaiting, HTTP framing and the handlers themselves live in the
//! unverified shell.

use vstd::prelude::*;

use crate::bridge::AcceptResult;

verus! {

/// The terminal error the serving loop ends with.
#[derive(Clone, Copy, Debug, PartialEq, Eq, Structural)]
pub enum ServeError {
    /// The OS accept primitive failed; fatal, never retried.
    Accept { code: i32 },
    /// The channel was exhausted without an accept error: the listener is
    /// gone (the consumer reports it closed).
    BridgeClosed,
    /// One connection's exchange failed; this ends the whole loop.
    Connection { code: i32 },
}

impl ServeError {
    /// The message the serving loop reports for this error.
    pub fn message(&self) -> (m: &'static str)
        ensures
            *self is Accept ==> m@ == "accept failed"@,
            *self is BridgeClosed ==> m@ == "UnixListener closed"@,
            *self is Connection ==> m@ == "connection serving failed"@,
    {
        match self {
            ServeError::Accept { .. } => "accept failed",
            ServeError::BridgeClosed => "UnixListener closed",
            ServeError::Connection { .. } => "connection serving failed",
        }
    }
}

/// How one connection's request/response exchange ended.
#[derive(Clone, Copy, Debug, PartialEq, Eq, Structural)]
pub enum ExchangeOutcome {
    Done,
    Failed { code: i32 },
}

/// What the consumer does with one awaited accept result.
#[derive(Clone, Copy, Debug, PartialEq, Eq, Structural)]
pub enum ServeStep {
    /// A connection arrived: make a fresh handler and serve one exchange.
    ServeConn { handle: u64, peer: u64 },
    /// Stop the whole loop with this terminal error.
    Stop { error: ServeError },
}

/// The consumer's rule for one awaited item: a closed channel means the
/// listener is gone, a forwarded accept error is fatal, and a connection is
/// served.
pub open spec fn serve_decision(item: Option<AcceptResult>) -> ServeStep {
    match item {
        None => ServeStep::Stop { error: ServeError::BridgeClosed },
        Some(AcceptResult::Fatal { code }) => ServeStep::Stop {
            error: ServeError::Accept { code },
        },
        Some(AcceptResult::Conn { handle, peer }) => ServeStep::ServeConn { handle, peer },
    }
}

/// Decide what to do with one awaited channel item.
pub fn on_channel_item(item: Option<AcceptResult>) -> (s: ServeStep)
    ensures
        s == serve_decision(item),
{
    match item {
        None => ServeStep::Stop { error: ServeError::BridgeClosed },
        Some(AcceptResult::Fatal { code }) => ServeStep::Stop {
            error: ServeError::Accept { code },
        },
        Some(AcceptResult::Conn { handle, peer }) => ServeStep::ServeConn { handle, peer },
    }
}

/// The consumer's rule after one exchange: a clean exchange means await the
/// next connection; a failed one ends the whole loop.
pub open spec fn exchange_decision(o: ExchangeOutcome) -> Option<ServeError> {
    match o {
        ExchangeOutcome::Done => None,
        ExchangeOutcome::Failed { code } => Some(ServeError::Connection { code }),
    }
}

/// Decide what one exchange's outcome means for the loop.
pub fn on_exchange(o: ExchangeOutcome) -> (r: Option<ServeError>)
    ensures
        r == exchange_decision(o),
{
    match o {
        ExchangeOutcome::Done => None,
        ExchangeOutcome::Failed { code } => Some(ServeError::Connection { code }),
    }
}

/// The handles served from position `k` on, for delivered results `d` and
/// per-connection exchange outcomes `e` (one per delivered item; only those
/// at connection positions are consulted).
pub open spec fn served_from(d: Seq<AcceptResult>, e: Seq<ExchangeOutcome>, k: int) -> Seq<u64>
    decreases d.len() - k,
{
    if k < 0 || k >= d.len() {
        Seq::empty()
    } else {
        match d[k] {
            AcceptResult::Fatal { .. } => Seq::empty(),
            AcceptResult::Conn { handle, .. } => {
                match e[k] {
                    ExchangeOutcome::Failed { .. } => seq![handle],
                    ExchangeOutcome::Done => seq![handle] + served_from(d, e, k + 1),
                }
            },
        }
    }
}

/// The terminal error of the loop run from position `k` on.
pub open spec fn terminal_from(d: Seq<AcceptResult>, e: Seq<ExchangeOutcome>, k: int) -> ServeError
    decreases d.len() - k,
{
    if k < 0 || k >= d.len() {
        ServeError::BridgeClosed
    } else {
        match d[k] {
            AcceptResult::Fatal { code } => ServeError::Accept { code },
            AcceptResult::Conn { .. } => {
                match e[k] {
                    ExchangeOutcome::Failed { code } => ServeError::Connection { code },
                    ExchangeOutcome::Done => terminal_from(d, e, k + 1),
                }
            },
        }
    }
}

/// The connection handles the loop serves, in order of arrival.
pub open spec fn served_of(d: Seq<AcceptResult>, e: Seq<ExchangeOutcome>) -> Seq<u64> {
    served_from(d, e, 0)
}

/// The terminal error the loop ends with.
pub open spec fn terminal_of(d: Seq<AcceptResult>, e: Seq<ExchangeOutcome>) -> ServeError {
    terminal_from(d, e, 0)
}

/// The whole serving loop, over the accept results actually delivered
/// (oldest first; after the last the channel reports closed) and the outcome
/// of each position's exchange.
///
/// Returns the handles served, in arrival order, and the terminal error:
/// connections are served in order up to the first accept error or failed
/// exchange; an accept error is fatal without serving; a failed exchange
/// ends the loop after its own connection was handed to the handler; and a
/// fully drained channel ends the loop as "listener closed".
pub fn serve_run(delivered: &Vec<AcceptResult>, exchanges: &Vec<ExchangeOutcome>) -> (r: (
    Vec<u64>,
    ServeError,
))
    requires
        exchanges@.len() >= delivered@.len(),
    ensures
        r.0@ == served_of(delivered@, exchanges@),
        r.1 == terminal_of(delivered@, exchanges@),
{
    let mut served: Vec<u64> = Vec::new();
    let mut k: usize = 0;
    proof {
        assert(Seq::<u64>::empty() + served_from(delivered@, exchanges@, 0) =~= served_from(
            delivered@,
            exchanges@,
            0,
        ));
    }
    while k < delivered.len()
        invariant
            k <= delivered@.len(),
            exchanges@.len() >= delivered@.len(),
            served@.len() == k,
            served_of(delivered@, exchanges@) == served@ + served_from(
                delivered@,
                exchanges@,
                k as int,
            ),
            terminal_of(delivered@, exchanges@) == terminal_from(delivered@, exchanges@, k as int),
        decreases delivered@.len() - k,
    {
        let item = delivered[k];
        match item {
            AcceptResult::Fatal { code } => {
                proof {
                    assert(served@ + served_from(delivered@, exchanges@, k as int) =~= served@);
                }
                return (served, ServeError::Accept { code });
            },
            AcceptResult::Conn { handle, .. } => {
                let ghost pre = served@;
                served.push(handle);
                match exchanges[k] {
                    ExchangeOutcome::Failed { code } => {
                        proof {
                            assert(pre + served_from(delivered@, exchanges@, k as int) =~= served@);
                        }
                        return (served, ServeError::Connection { code });
                    },
                    ExchangeOutcome::Done => {
                        proof {
                            let rest = served_from(delivered@, exchanges@, k + 1 as int);
                            assert(pre + (seq![handle] + rest) =~= served@ + rest);
                        }
                    },
                }
            },
        }
        k = k + 1;
    }
    proof {
        assert(served@ + served_from(delivered@, exchanges@, k as int) =~= served@);
    }
    (served, ServeError::BridgeClosed)
}

proof fn lemma_served_from_all(d: Seq<AcceptResult>, e: Seq<ExchangeOutcome>, k: int)
    requires
        0 <= k <= d.len(),
        e.len() >= d.len(),
        forall|j: int| 0 <= j < d.len() ==> d[j] is Conn,
        forall|j: int| 0 <= j < d.len() ==> e[j] is Done,
    ensures
        served_from(d, e, k).len() == d.len() - k,
        forall|j: int| k <= j < d.len() ==> served_from(d, e, k)[j - k] == d[j]->handle,
        terminal_from(d, e, k) == ServeError::BridgeClosed,
    decreases d.len() - k,
{
    if k < d.len() {
        lemma_served_from_all(d, e, k + 1);
    }
}

/// Full-service law: when every delivered result is a connection and every
/// exchange completes, the loop serves every connection, each exactly once
/// and in arrival order, and ends only because the channel closed.
pub proof fn lemma_all_served(d: Seq<AcceptResult>, e: Seq<ExchangeOutcome>)
    requires
        e.len() >= d.len(),
        forall|j: int| 0 <= j < d.len() ==> d[j] is Conn,
        forall|j: int| 0 <= j < d.len() ==> e[j] is Done,
    ensures
        served_of(d, e).len() == d.len(),
        forall|j: int| 0 <= j < d.len() ==> served_of(d, e)[j] == d[j]->handle,
        terminal_of(d, e) == ServeError::BridgeClosed,
{
    lemma_served_from_all(d, e, 0);
}

/// End-to-end order law for the emulated path: the bridge delivers a prefix
/// of the arrivals (`bridge_run`'s contract), the channel yields them oldest
/// first, and the loop serves them in that order — so connections arriving
/// as c1, c2, c3 are observed and served exactly as c1, c2, c3.
pub proof fn lemma_fifo_order(
    accepts: Seq<AcceptResult>,
    delivered: Seq<AcceptResult>,
    e: Seq<ExchangeOutcome>,
)
    requires
        delivered.len() <= accepts.len(),
        delivered == accepts.subrange(0, delivered.len() as int),
        e.len() >= delivered.len(),
        forall|j: int| 0 <= j < delivered.len() ==> delivered[j] is Conn,
        forall|j: int| 0 <= j < delivered.len() ==> e[j] is Done,
    ensures
        served_of(delivered, e).len() == delivered.len(),
        forall|j: int| 0 <= j < delivered.len() ==> served_of(delivered, e)[j] == accepts[j]->handle,
        terminal_of(delivered, e) == ServeError::BridgeClosed,
{
    lemma_all_served(delivered, e);
    assert forall|j: int| 0 <= j < delivered.len() implies served_of(delivered, e)[j] == accepts[j]->handle by {
        assert(delivered[j] == accepts.subrange(0, delivered.len() as int)[j]);
    }
}

} // verus!
