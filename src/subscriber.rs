//! The subscriber's lifecycle: the consume arguments it subscribes with, the queue
//! and consumer tag it holds, and whether it is running.
//!
//! The caller performs the broker methods: after `start_consume` it calls
//! `basic_consume` and hands the tag to `consumed`; after `cancel_consume` it calls
//! `basic_cancel` with the tag returned.

use amqprs::FieldTable;
use vstd::prelude::*;

use crate::headers::{
    lemma_header_names, put, table_byte_len, table_entries, FieldVal, HeaderValue,
    X_CONSUMER_TIMEOUT, X_PRIORITY,
};

verus! {

/// What `basic_consume` is called with, besides the queue.
pub struct ConsumeSettings {
    pub arguments: FieldTable,
    pub exclusive: bool,
    pub no_wait: bool,
}

/// Why a lifecycle step was refused.
#[derive(Debug, Clone, Copy, PartialEq, Eq, Structural)]
pub enum SubscribeError {
    /// cancel without a consumer tag: consuming never started, or was cancelled
    NotConsuming,
    /// resume before any queue was consumed
    NeverConsumed,
}

/// A subscriber's state.
pub struct Subscription {
    pub settings: ConsumeSettings,
    /// the queue last consumed
    pub queue: Option<String>,
    /// the tag the broker gave the running consumer
    pub consumer_tag: Option<String>,
    /// whether the worker should keep consuming
    pub running: bool,
}

impl Subscription {
    /// The consume arguments hold at most `x-priority` (a signed 16-bit integer) and
    /// `x-consumer-timeout` (an unsigned 32-bit integer), and the table's byte count is no
    /// more than theirs.
    pub open spec fn wf(&self) -> bool {
        let e = table_entries(self.settings.arguments);
        &&& forall|k: Seq<char>| #[trigger] e.contains_key(k) ==> k == X_PRIORITY@ || k
            == X_CONSUMER_TIMEOUT@
        &&& e.contains_key(X_PRIORITY@) ==> e[X_PRIORITY@] is Short
        &&& e.contains_key(X_CONSUMER_TIMEOUT@) ==> e[X_CONSUMER_TIMEOUT@] is UInt
        &&& table_byte_len(self.settings.arguments) <= (if e.contains_key(X_PRIORITY@) {
            14nat
        } else {
            0nat
        }) + (if e.contains_key(X_CONSUMER_TIMEOUT@) {
            24nat
        } else {
            0nat
        })
    }

    /// Not consuming; no arguments, neither exclusive nor no-wait.
    pub fn new() -> (r: Subscription)
        ensures
            table_entries(r.settings.arguments) == Map::<Seq<char>, FieldVal>::empty(),
            !r.settings.exclusive,
            !r.settings.no_wait,
            r.queue is None,
            r.consumer_tag is None,
            !r.running,
            r.wf(),
    {
        Subscription {
            settings: ConsumeSettings {
                arguments: FieldTable::new(),
                exclusive: false,
                no_wait: false,
            },
            queue: None,
            consumer_tag: None,
            running: false,
        }
    }

    /// `x-priority`: the consumer's priority among the queue's consumers.
    pub fn set_consumer_priorities(&mut self, priority: i16)
        requires
            old(self).wf(),
        ensures
            final(self).wf(),
            table_entries(final(self).settings.arguments) == table_entries(
                old(self).settings.arguments,
            ).insert(X_PRIORITY@, FieldVal::Short(priority)),
            final(self).settings.exclusive == old(self).settings.exclusive,
            final(self).settings.no_wait == old(self).settings.no_wait,
            final(self).queue == old(self).queue,
            final(self).consumer_tag == old(self).consumer_tag,
            final(self).running == old(self).running,
    {
        proof {
            lemma_header_names();
            reveal_strlit("x-priority");
            reveal_strlit("x-consumer-timeout");
            assert(X_PRIORITY@.len() != X_CONSUMER_TIMEOUT@.len());
        }
        put(&mut self.settings.arguments, X_PRIORITY, HeaderValue::Short(priority));
    }

    /// `x-consumer-timeout`, in milliseconds.
    pub fn set_consumer_timeout(&mut self, timeout: u32)
        requires
            old(self).wf(),
        ensures
            final(self).wf(),
            table_entries(final(self).settings.arguments) == table_entries(
                old(self).settings.arguments,
            ).insert(X_CONSUMER_TIMEOUT@, FieldVal::UInt(timeout)),
            final(self).settings.exclusive == old(self).settings.exclusive,
            final(self).settings.no_wait == old(self).settings.no_wait,
            final(self).queue == old(self).queue,
            final(self).consumer_tag == old(self).consumer_tag,
            final(self).running == old(self).running,
    {
        proof {
            lemma_header_names();
            reveal_strlit("x-priority");
            reveal_strlit("x-consumer-timeout");
            assert(X_PRIORITY@.len() != X_CONSUMER_TIMEOUT@.len());
        }
        put(&mut self.settings.arguments, X_CONSUMER_TIMEOUT, HeaderValue::UInt(timeout));
    }

    pub fn set_consumer_exclusive(&mut self, exclusive: bool)
        requires
            old(self).wf(),
        ensures
            final(self).wf(),
            final(self).settings.exclusive == exclusive,
            final(self).settings.arguments == old(self).settings.arguments,
            final(self).settings.no_wait == old(self).settings.no_wait,
            final(self).queue == old(self).queue,
            final(self).consumer_tag == old(self).consumer_tag,
            final(self).running == old(self).running,
    {
        self.settings.exclusive = exclusive;
    }

    pub fn set_consumer_no_wait(&mut self, no_wait: bool)
        requires
            old(self).wf(),
        ensures
            final(self).wf(),
            final(self).settings.no_wait == no_wait,
            final(self).settings.arguments == old(self).settings.arguments,
            final(self).settings.exclusive == old(self).settings.exclusive,
            final(self).queue == old(self).queue,
            final(self).consumer_tag == old(self).consumer_tag,
            final(self).running == old(self).running,
    {
        self.settings.no_wait = no_wait;
    }

    /// Starts consuming `que`: running, and `que` remembered for `resume_consume`.
    pub fn start_consume(&mut self, que: &str)
        requires
            old(self).wf(),
        ensures
            final(self).wf(),
            final(self).running,
            final(self).queue is Some && final(self).queue->0@ == que@,
            final(self).consumer_tag == old(self).consumer_tag,
            final(self).settings == old(self).settings,
    {
        self.running = true;
        self.queue = Some(que.to_owned());
    }

    /// Records the tag the broker gave the consumer.
    pub fn consumed(&mut self, tag: String)
        requires
            old(self).wf(),
        ensures
            final(self).wf(),
            final(self).consumer_tag == Some(tag),
            final(self).running == old(self).running,
            final(self).queue == old(self).queue,
            final(self).settings == old(self).settings,
    {
        self.consumer_tag = Some(tag);
    }

    /// Stops consuming: the tag to cancel, which is then forgotten; an error when there
    /// is none.
    pub fn cancel_consume(&mut self) -> (r: Result<String, SubscribeError>)
        requires
            old(self).wf(),
        ensures
            final(self).wf(),
            old(self).consumer_tag is Some ==> r == Ok::<String, SubscribeError>(
                old(self).consumer_tag->0,
            ) && !final(self).running,
            old(self).consumer_tag is None ==> r == Err::<String, SubscribeError>(
                SubscribeError::NotConsuming,
            ) && final(self).running == old(self).running,
            final(self).consumer_tag is None,
            final(self).queue == old(self).queue,
            final(self).settings == old(self).settings,
    {
        match self.consumer_tag.take() {
            Some(tag) => {
                self.running = false;
                Ok(tag)
            },
            None => Err(SubscribeError::NotConsuming),
        }
    }

    /// Consumes again the queue last consumed: that queue; an error when none was.
    pub fn resume_consume(&mut self) -> (r: Result<String, SubscribeError>)
        requires
            old(self).wf(),
        ensures
            final(self).wf(),
            old(self).queue is Some ==> r is Ok && r->Ok_0@ == old(self).queue->0@
                && final(self).running,
            old(self).queue is None ==> r == Err::<String, SubscribeError>(
                SubscribeError::NeverConsumed,
            ) && final(self).running == old(self).running,
            final(self).queue == old(self).queue,
            final(self).consumer_tag == old(self).consumer_tag,
            final(self).settings == old(self).settings,
    {
        match &self.queue {
            Some(q) => {
                let q = q.clone();
                self.running = true;
                Ok(q)
            },
            None => Err(SubscribeError::NeverConsumed),
        }
    }
}

/// Whether a stop signal releases the worker's top-level block: `false` asks to stop.
pub fn releases_block(signal: bool) -> (r: bool)
    ensures
        r == !signal,
{
    !signal
}

} // verus!
