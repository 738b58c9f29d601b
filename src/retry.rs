//! The retry republisher: given the headers of a delivery being retried, either
//! republish it to the delayed exchange with one retry fewer, or dead-letter it.

use amqprs::FieldTable;
use vstd::prelude::*;

use crate::command::Command;
use crate::headers::{
    fixed_entry_bytes, has_room, table_entries, FieldTableBuilder, FieldTableViewer, FieldVal, HeaderError, X_DELAY, X_RETRIES,
};

verus! {

/// Delay before a retry, in seconds, when a command names none.
pub const DEFAULT_POKE: u16 = 10;

/// Retry budget when a command names none.
pub const DEFAULT_RETRIES: u8 = 1;

/// Where and how a retried message goes.
pub struct Retry {
    pub exchange: String,
    pub routing_key: String,
    /// delay in seconds, used when the message has no `x-delay`
    pub poke: u16,
    /// budget, used when the message has no `x-retries`
    pub retries: u8,
}

/// What to do with a delivery being retried.
pub enum RetryDecision {
    /// publish `headers` with the delivery's own properties and content to `exchange` under
    /// `routing_key`, then ack the delivery
    Republish { headers: FieldTable, exchange: String, routing_key: String },
    /// nack the delivery without requeue: the queue's dead-letter exchange takes it
    DeadLetter,
}

/// The delivery's `x-retries` holds a value that is not a signed 16-bit integer.
#[derive(Debug, Clone, Copy, PartialEq, Eq, Structural)]
pub struct MalformedRetries;

/// The headers with `x-delay` and `x-retries` filled in where absent.
pub open spec fn with_defaults(m: Map<Seq<char>, FieldVal>, poke: u16, retries: u8) -> Map<
    Seq<char>,
    FieldVal,
> {
    let m1 = if m.contains_key(X_DELAY@) {
        m
    } else {
        m.insert(X_DELAY@, FieldVal::Int((poke * 1000) as i32))
    };
    if m1.contains_key(X_RETRIES@) {
        m1
    } else {
        m1.insert(X_RETRIES@, FieldVal::Short(retries as i16))
    }
}

/// The outcome of retrying a delivery whose headers are `m`: the headers to republish
/// with (`Some`), dead-lettering (`None`), or an error for a malformed `x-retries`.
pub open spec fn retry_outcome(m: Map<Seq<char>, FieldVal>, poke: u16, retries: u8) -> Result<
    Option<Map<Seq<char>, FieldVal>>,
    MalformedRetries,
> {
    let h = with_defaults(m, poke, retries);
    match h[X_RETRIES@] {
        FieldVal::Short(r) => if r - 1 > 0 {
            Ok(Some(h.insert(X_RETRIES@, FieldVal::Short((r - 1) as i16))))
        } else {
            Ok(None)
        },
        _ => Err(MalformedRetries),
    }
}

/// The headers' byte count leaves room for the entries a retry adds.
pub open spec fn retry_room(h: Option<&FieldTable>) -> bool {
    match h {
        Some(t) => has_room(*t, 3 * fixed_entry_bytes()),
        None => true,
    }
}

/// The entries of optional headers; none are no entries.
pub open spec fn entries_of(h: Option<&FieldTable>) -> Map<Seq<char>, FieldVal> {
    match h {
        Some(t) => table_entries(*t),
        None => Map::empty(),
    }
}

impl Retry {
    pub fn new(exchange: &str, routing_key: &str, poke: u16, retries: u8) -> (r: Retry)
        ensures
            r.exchange@ == exchange@,
            r.routing_key@ == routing_key@,
            r.poke == poke,
            r.retries == retries,
    {
        Retry { exchange: exchange.to_owned(), routing_key: routing_key.to_owned(), poke, retries }
    }

    /// The policy for retrying `message` through `delayed_exchange`: header routing needs no
    /// routing key; the command's own poke and budget, else the defaults.
    pub fn for_command(delayed_exchange: &str, message: &Command) -> (r: Retry)
        ensures
            r.exchange@ == delayed_exchange@,
            r.routing_key@ == ""@,
            r.poke == (match message.config.poke {
                Some(p) => p,
                None => DEFAULT_POKE,
            }),
            r.retries == (match message.config.retry {
                Some(n) => n,
                None => DEFAULT_RETRIES,
            }),
    {
        let poke = match message.config.poke {
            Some(p) => p,
            None => DEFAULT_POKE,
        };
        let retries = match message.config.retry {
            Some(n) => n,
            None => DEFAULT_RETRIES,
        };
        Retry::new(delayed_exchange, "", poke, retries)
    }

    /// Decides the fate of a delivery being retried, from its headers: one retry is used
    /// up; while some remain it is republished to the delayed exchange, else dead-lettered.
    pub fn retry(&self, headers: Option<&FieldTable>) -> (r: Result<
        RetryDecision,
        MalformedRetries,
    >)
        requires
            retry_room(headers),
        ensures
            ({
                let o = retry_outcome(entries_of(headers), self.poke, self.retries);
                &&& r is Err <==> o is Err
                &&& r is Ok ==> (r->Ok_0 is DeadLetter <==> o->Ok_0 is None)
                &&& (r is Ok && r->Ok_0 is Republish) ==> {
                    &&& table_entries(r->Ok_0->headers) == o->Ok_0->0
                    &&& r->Ok_0->Republish_exchange@ == self.exchange@
                    &&& r->Ok_0->Republish_routing_key@ == self.routing_key@
                }
            }),
    {
        proof {
            reveal_strlit("x-delay");
            reveal_strlit("x-retries");
        }
        // clone or create
        let mut ftb = FieldTableBuilder::from_optional(headers);
        let ghost m = ftb@;
        let has_delay = match FieldTableViewer::new(&ftb.0).x_delay() {
            Err(HeaderError::Missing) => false,
            _ => true,
        };
        if !has_delay {
            // seconds to milliseconds
            ftb.x_delay((self.poke as i32) * 1000);
        }
        let has_retries = match FieldTableViewer::new(&ftb.0).x_retries() {
            Err(HeaderError::Missing) => false,
            _ => true,
        };
        if !has_retries {
            ftb.x_retries(self.retries as i16);
        }
        assert(ftb@ == with_defaults(m, self.poke, self.retries));
        let current = match FieldTableViewer::new(&ftb.0).x_retries() {
            Ok(n) => n,
            Err(_) => return Err(MalformedRetries),
        };
        // use up one retry
        let remaining: i32 = current as i32 - 1;
        if remaining > 0 {
            ftb.x_retries(remaining as i16);
            Ok(
                RetryDecision::Republish {
                    headers: ftb.finish(),
                    exchange: self.exchange.clone(),
                    routing_key: self.routing_key.clone(),
                },
            )
        } else {
            Ok(RetryDecision::DeadLetter)
        }
    }
}

// ------------------------------------------------------------------------------------------------
// laws
// ------------------------------------------------------------------------------------------------

/// The retry budget a delivery with headers `m` is handled with: its own `x-retries`, else
/// the policy's.
pub open spec fn budget_in_force(m: Map<Seq<char>, FieldVal>, retries: u8) -> FieldVal {
    if m.contains_key(X_RETRIES@) {
        m[X_RETRIES@]
    } else {
        FieldVal::Short(retries as i16)
    }
}

/// The headers after `k` retries in a row, each republished by the one before; `None` once
/// one of them is not republished.
pub open spec fn after_retries(m: Map<Seq<char>, FieldVal>, poke: u16, retries: u8, k: nat) -> Option<
    Map<Seq<char>, FieldVal>,
>
    decreases k,
{
    if k == 0 {
        Some(m)
    } else {
        match after_retries(m, poke, retries, (k - 1) as nat) {
            Some(h) => match retry_outcome(h, poke, retries) {
                Ok(Some(h2)) => Some(h2),
                _ => None,
            },
            None => None,
        }
    }
}

proof fn lemma_names_differ()
    ensures
        X_DELAY@ != X_RETRIES@,
{
    reveal_strlit("x-delay");
    reveal_strlit("x-retries");
    assert(X_DELAY@.len() != X_RETRIES@.len());
}

/// A retry uses up exactly one from the budget in force: with `n` left, the delivery is
/// republished carrying `n - 1` while that is positive, and dead-lettered otherwise.
pub proof fn lemma_retry_decrements(m: Map<Seq<char>, FieldVal>, poke: u16, retries: u8, n: i16)
    requires
        budget_in_force(m, retries) == FieldVal::Short(n),
    ensures
        n - 1 > 0 ==> ({
            let o = retry_outcome(m, poke, retries);
            &&& o is Ok && o->Ok_0 is Some
            &&& o->Ok_0->0.contains_key(X_RETRIES@)
            &&& o->Ok_0->0[X_RETRIES@] == FieldVal::Short((n - 1) as i16)
        }),
        n - 1 <= 0 ==> retry_outcome(m, poke, retries) == Ok::<
            Option<Map<Seq<char>, FieldVal>>,
            MalformedRetries,
        >(None),
{
    lemma_names_differ();
}

/// A delivery with a budget of `n >= 1` is republished `n - 1` times, carrying
/// `n - 1, n - 2, ..., 1`, and the retry after that dead-letters it.
pub proof fn lemma_retry_budget_runs_out(
    m: Map<Seq<char>, FieldVal>,
    poke: u16,
    retries: u8,
    n: i16,
)
    requires
        budget_in_force(m, retries) == FieldVal::Short(n),
        n >= 1,
    ensures
        forall|k: nat|
            1 <= k < n ==> {
                let h = #[trigger] after_retries(m, poke, retries, k);
                &&& h is Some
                &&& h->0.contains_key(X_RETRIES@)
                &&& h->0[X_RETRIES@] == FieldVal::Short((n - k) as i16)
            },
        after_retries(m, poke, retries, (n - 1) as nat) is Some,
        retry_outcome(after_retries(m, poke, retries, (n - 1) as nat)->0, poke, retries) == Ok::<
            Option<Map<Seq<char>, FieldVal>>,
            MalformedRetries,
        >(None),
{
    assert forall|k: nat| 1 <= k < n implies {
        let h = #[trigger] after_retries(m, poke, retries, k);
        &&& h is Some
        &&& h->0.contains_key(X_RETRIES@)
        &&& h->0[X_RETRIES@] == FieldVal::Short((n - k) as i16)
    } by {
        lemma_after_retries(m, poke, retries, n, k);
    }
    lemma_after_retries(m, poke, retries, n, (n - 1) as nat);
    let h = after_retries(m, poke, retries, (n - 1) as nat)->0;
    lemma_retry_decrements(h, poke, retries, 1);
}

proof fn lemma_after_retries(m: Map<Seq<char>, FieldVal>, poke: u16, retries: u8, n: i16, k: nat)
    requires
        budget_in_force(m, retries) == FieldVal::Short(n),
        k <= n - 1,
    ensures
        after_retries(m, poke, retries, k) is Some,
        budget_in_force(after_retries(m, poke, retries, k)->0, retries) == FieldVal::Short(
            (n - k) as i16,
        ),
        k >= 1 ==> after_retries(m, poke, retries, k)->0.contains_key(X_RETRIES@),
    decreases k,
{
    if k > 0 {
        lemma_after_retries(m, poke, retries, n, (k - 1) as nat);
        let h = after_retries(m, poke, retries, (k - 1) as nat)->0;
        lemma_retry_decrements(h, poke, retries, (n - (k - 1)) as i16);
    }
}

/// A republished delivery keeps its `x-delay`; one that had none gets the policy's poke in
/// milliseconds.
pub proof fn lemma_retry_keeps_delay(m: Map<Seq<char>, FieldVal>, poke: u16, retries: u8)
    ensures
        ({
            let o = retry_outcome(m, poke, retries);
            (o is Ok && o->Ok_0 is Some) ==> {
                &&& o->Ok_0->0.contains_key(X_DELAY@)
                &&& o->Ok_0->0[X_DELAY@] == if m.contains_key(X_DELAY@) {
                    m[X_DELAY@]
                } else {
                    FieldVal::Int((poke * 1000) as i32)
                }
            }
        }),
{
    lemma_names_differ();
}

} // verus!
