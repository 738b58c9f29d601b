//! The consumer engine's decisions for one delivery: which callback to notify, which
//! broker methods settle the delivery, and whether the worker keeps running.
//!
//! The caller deserialises the body, runs the user's `consume` (under the timeout that
//! `consume_timeout` gives), hands the outcome to `handle`, then invokes the callback and
//! performs the broker methods in order, stopping at the first that fails.

use amqprs::FieldTable;
use vstd::prelude::*;

use crate::command::Config;
use crate::headers::{FieldTableViewer, FieldVal, X_CONSUME_TTL, X_RETRIES};
use crate::publish::{base_entries, lemma_seconds_to_millis, merge_pairs, no_pair_named};
use crate::retry::{entries_of, retry_room, lemma_retry_decrements, retry_outcome, Retry, RetryDecision};

verus! {

// ------------------------------------------------------------------------------------------------
// what the user's consume reports
// ------------------------------------------------------------------------------------------------

/// The user's verdict on a message.
#[derive(Debug)]
pub enum ConsumerResult<R> {
    /// done: acknowledge
    Success(R),
    /// try again later; `None` when the run timed out
    Retry(Option<R>),
    /// hand back to the broker for immediate redelivery
    Failure(R),
}

impl<R> ConsumerResult<R> {
    pub fn success(r: R) -> (res: ConsumerResult<R>)
        ensures
            res == ConsumerResult::Success(r),
    {
        ConsumerResult::Success(r)
    }

    pub fn retry(r: Option<R>) -> (res: ConsumerResult<R>)
        ensures
            res == ConsumerResult::Retry(r),
    {
        ConsumerResult::Retry(r)
    }

    pub fn failure(r: R) -> (res: ConsumerResult<R>)
        ensures
            res == ConsumerResult::Failure(r),
    {
        ConsumerResult::Failure(r)
    }

    /// The verdict on a finished process: success when it exited successfully, else a
    /// retry that carries its status.
    pub fn of_exit(success: bool, status: R) -> (res: ConsumerResult<R>)
        ensures
            success ==> res == ConsumerResult::Success(status),
            !success ==> res == ConsumerResult::Retry(Some(status)),
    {
        if success {
            ConsumerResult::Success(status)
        } else {
            ConsumerResult::Retry(Some(status))
        }
    }
}

/// What came of one delivery before the engine decides.
pub enum Delivery<R> {
    /// the body is not a valid message
    Malformed,
    /// the user's consume returned an error
    Failed,
    /// the user's consume outlived `x-consume-ttl`
    TimedOut,
    /// the user's consume returned a verdict
    Done(ConsumerResult<R>),
}

// ------------------------------------------------------------------------------------------------
// what the engine does
// ------------------------------------------------------------------------------------------------

/// The callback to notify, with what it receives.
pub enum Callback<R> {
    Success(R),
    Retry(Option<R>),
    Requeue(R),
    Discard,
}

/// A broker method on the current delivery.
pub enum BrokerOp {
    Ack,
    Nack { requeue: bool },
    Publish { headers: FieldTable, exchange: String, routing_key: String },
}

/// The engine's decision on one delivery.
pub struct Handling<R> {
    pub callback: Callback<R>,
    /// broker methods to perform in order, stopping at the first failure
    pub ops: Vec<BrokerOp>,
    /// the delivery's headers are unusable: the worker must stop
    pub fatal: bool,
}

/// The four ways a delivery is settled.
pub open spec fn settles(ops: Seq<BrokerOp>) -> bool {
    ||| ops == seq![BrokerOp::Ack]
    ||| ops == seq![BrokerOp::Nack { requeue: true }]
    ||| ops == seq![BrokerOp::Nack { requeue: false }]
    ||| (ops.len() == 2 && ops[0] is Publish && ops[1] == BrokerOp::Ack)
}

/// Whether the retry path republishes (with these headers), dead-letters, or fails on a
/// malformed budget, as the republisher decides.
pub open spec fn retry_ops(
    ops: Seq<BrokerOp>,
    headers: Option<&FieldTable>,
    policy: Retry,
) -> bool {
    match retry_outcome(entries_of(headers), policy.poke, policy.retries) {
        Ok(Some(h)) => ops.len() == 2 && ops[1] == BrokerOp::Ack && match ops[0] {
            BrokerOp::Publish { headers: t, exchange, routing_key } => {
                &&& crate::headers::table_entries(t) == h
                &&& exchange@ == policy.exchange@
                &&& routing_key@ == policy.routing_key@
            },
            _ => false,
        },
        _ => ops == seq![BrokerOp::Nack { requeue: false }],
    }
}

/// A malformed budget on the retry path stops the worker.
pub open spec fn retry_fatal(headers: Option<&FieldTable>, policy: Retry) -> bool {
    retry_outcome(entries_of(headers), policy.poke, policy.retries) is Err
}

fn retry_handling<R>(cb: Callback<R>, headers: Option<&FieldTable>, policy: &Retry) -> (r: Handling<
    R,
>)
    requires
        retry_room(headers),
    ensures
        r.callback == cb,
        retry_ops(r.ops@, headers, *policy),
        r.fatal == retry_fatal(headers, *policy),
{
    match policy.retry(headers) {
        Ok(RetryDecision::Republish { headers: h, exchange, routing_key }) => {
            let ops = vec![BrokerOp::Publish { headers: h, exchange, routing_key }, BrokerOp::Ack];
            Handling { callback: cb, ops, fatal: false }
        },
        Ok(RetryDecision::DeadLetter) => {
            let ops = vec![BrokerOp::Nack { requeue: false }];
            assert(ops@ =~= seq![BrokerOp::Nack { requeue: false }]);
            Handling { callback: cb, ops, fatal: false }
        },
        Err(_) => {
            let ops = vec![BrokerOp::Nack { requeue: false }];
            assert(ops@ =~= seq![BrokerOp::Nack { requeue: false }]);
            Handling { callback: cb, ops, fatal: true }
        },
    }
}

/// Decides the handling of one delivery:
/// - a malformed body, or an error from consume: `discard`, then nack without requeue
///   (the queue dead-letters it);
/// - success: `success`, then ack;
/// - failure: `requeue`, then nack with requeue;
/// - a retry, or a timeout (a retry with no result): `retry`, then what the republisher
///   decides from the delivery's headers under `policy`.
///
/// The broker methods are owed whatever the callback returns; a callback error only
/// stops the worker (see `keep_running`).
pub fn handle<R>(d: Delivery<R>, headers: Option<&FieldTable>, policy: &Retry) -> (r: Handling<R>)
    requires
        retry_room(headers),
    ensures
        settles(r.ops@),
        match d {
            Delivery::Malformed | Delivery::Failed => {
                &&& r.callback == Callback::<R>::Discard
                &&& r.ops@ == seq![BrokerOp::Nack { requeue: false }]
                &&& !r.fatal
            },
            Delivery::TimedOut => {
                &&& r.callback == Callback::<R>::Retry(None)
                &&& retry_ops(r.ops@, headers, *policy)
                &&& r.fatal == retry_fatal(headers, *policy)
            },
            Delivery::Done(ConsumerResult::Success(v)) => {
                &&& r.callback == Callback::Success(v)
                &&& r.ops@ == seq![BrokerOp::Ack]
                &&& !r.fatal
            },
            Delivery::Done(ConsumerResult::Retry(v)) => {
                &&& r.callback == Callback::Retry(v)
                &&& retry_ops(r.ops@, headers, *policy)
                &&& r.fatal == retry_fatal(headers, *policy)
            },
            Delivery::Done(ConsumerResult::Failure(v)) => {
                &&& r.callback == Callback::Requeue(v)
                &&& r.ops@ == seq![BrokerOp::Nack { requeue: true }]
                &&& !r.fatal
            },
        },
{
    let r = match d {
        Delivery::Malformed | Delivery::Failed => Handling {
            callback: Callback::Discard,
            ops: vec![BrokerOp::Nack { requeue: false }],
            fatal: false,
        },
        Delivery::TimedOut => retry_handling(Callback::Retry(None), headers, policy),
        Delivery::Done(ConsumerResult::Success(v)) => Handling {
            callback: Callback::Success(v),
            ops: vec![BrokerOp::Ack],
            fatal: false,
        },
        Delivery::Done(ConsumerResult::Retry(v)) => retry_handling(
            Callback::Retry(v),
            headers,
            policy,
        ),
        Delivery::Done(ConsumerResult::Failure(v)) => Handling {
            callback: Callback::Requeue(v),
            ops: vec![BrokerOp::Nack { requeue: true }],
            fatal: false,
        },
    };
    proof {
        assert(r.ops@ =~= seq![BrokerOp::Ack] || r.ops@ =~= seq![BrokerOp::Nack { requeue: true }]
            || r.ops@ =~= seq![BrokerOp::Nack { requeue: false }] || (r.ops@.len() == 2
            && r.ops@[0] is Publish && r.ops@[1] == BrokerOp::Ack));
    }
    r
}

/// Whether the worker keeps consuming after a delivery whose handling was `fatal` or not:
/// only when the callback and every broker method succeeded and the headers were usable.
pub fn keep_running(fatal: bool, callback_ok: bool, broker_ok: bool) -> (r: bool)
    ensures
        r == (callback_ok && broker_ok && !fatal),
{
    callback_ok && broker_ok && !fatal
}

// ------------------------------------------------------------------------------------------------
// execution timeout
// ------------------------------------------------------------------------------------------------

/// The execution timeout in milliseconds that headers ask for: a positive `x-consume-ttl`.
pub open spec fn timeout_of(m: Map<Seq<char>, FieldVal>) -> Option<u64> {
    if m.contains_key(X_CONSUME_TTL@) {
        match m[X_CONSUME_TTL@] {
            FieldVal::Long(t) => if t > 0 {
                Some(t as u64)
            } else {
                None
            },
            _ => None,
        }
    } else {
        None
    }
}

/// The execution timeout for a delivery; `None`, to run without one, when `x-consume-ttl`
/// is absent, not a signed 64-bit integer, or not positive.
pub fn consume_timeout(headers: Option<&FieldTable>) -> (r: Option<u64>)
    ensures
        r == timeout_of(entries_of(headers)),
{
    match headers {
        None => None,
        Some(t) => match FieldTableViewer::new(t).x_consume_ttl() {
            Ok(ct) => if ct > 0 {
                Some(ct as u64)
            } else {
                None
            },
            Err(_) => None,
        },
    }
}

// ------------------------------------------------------------------------------------------------
// laws
// ------------------------------------------------------------------------------------------------

/// A command published with a retry budget of 0 is dead-lettered by its first retry (or
/// timeout), never republished, whatever the retry policy; this holds of every message of
/// the command whose mailing target does not itself set `x-retries`.
pub proof fn lemma_no_budget_dead_letters(
    c: Config,
    pairs: Seq<(String, String)>,
    poke: u16,
    retries: u8,
)
    requires
        c.retry == Some(0u8),
        no_pair_named(pairs, X_RETRIES@),
    ensures
        retry_outcome(merge_pairs(base_entries(c), pairs), poke, retries) == Ok::<
            Option<Map<Seq<char>, FieldVal>>,
            crate::retry::MalformedRetries,
        >(None),
{
    lemma_seconds_to_millis(c, pairs);
    lemma_retry_decrements(merge_pairs(base_entries(c), pairs), poke, retries, 0);
}

} // verus!
