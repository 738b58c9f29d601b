//! Publish time: one message per mailing target, its headers stamped from the
//! command's settings (seconds become milliseconds) and merged with the target's pairs.

use amqprs::FieldTable;
use vstd::prelude::*;

use crate::command::{Command, Config, MailingTarget};
use crate::headers::{
    entry_bytes, fixed_entry_bytes, short_name, table_byte_len, table_clone, table_entries,
    FieldTableBuilder, FieldVal, X_CONSUME_TTL,
    X_DELAY, X_MESSAGE_TTL, X_RETRIES,
};

verus! {

/// Milliseconds in a second.
pub const MILLIS_PER_SECOND: i64 = 1000;

/// The headers every message of a command carries, from its settings.
pub open spec fn base_entries(c: Config) -> Map<Seq<char>, FieldVal> {
    let m0 = Map::<Seq<char>, FieldVal>::empty();
    let m1 = match c.retry {
        Some(r) => m0.insert(X_RETRIES@, FieldVal::Short(r as i16)),
        None => m0,
    };
    let m2 = match c.poke {
        Some(p) => m1.insert(X_DELAY@, FieldVal::Int((p * 1000) as i32)),
        None => m1,
    };
    let m3 = match c.waiting_timeout {
        Some(t) => m2.insert(X_MESSAGE_TTL@, FieldVal::Long((t * 1000) as i64)),
        None => m2,
    };
    match c.consuming_timeout {
        Some(t) => m3.insert(X_CONSUME_TTL@, FieldVal::Long((t * 1000) as i64)),
        None => m3,
    }
}

/// `m` with the pairs of a mailing target set in order, a later pair overriding an earlier.
pub open spec fn merge_pairs(m: Map<Seq<char>, FieldVal>, pairs: Seq<(String, String)>) -> Map<
    Seq<char>,
    FieldVal,
>
    decreases pairs.len(),
{
    if pairs.len() == 0 {
        m
    } else {
        merge_pairs(m, pairs.drop_last()).insert(
            pairs.last().0@,
            FieldVal::Text(pairs.last().1@),
        )
    }
}

/// Every pair name of every target fits a header name.
pub open spec fn pairs_fit(targets: Seq<MailingTarget>) -> bool {
    forall|i: int| 0 <= i < targets.len() ==> names_fit(#[trigger] targets[i]@)
}

/// Every pair name fits a header name (an AMQP short string, 255 bytes).
pub open spec fn names_fit(pairs: Seq<(String, String)>) -> bool {
    forall|j: int| 0 <= j < pairs.len() ==> short_name(#[trigger] pairs[j].0@)
}

/// The wire bytes the pairs take as string entries of a field table.
pub open spec fn pairs_bytes(pairs: Seq<(String, String)>) -> nat
    decreases pairs.len(),
{
    if pairs.len() == 0 {
        0
    } else {
        pairs_bytes(pairs.drop_last()) + entry_bytes(
            pairs.last().0@,
            FieldVal::Text(pairs.last().1@),
        )
    }
}

/// An upper bound of the bytes of the headers that settings become.
pub open spec fn base_bytes() -> nat {
    4 * fixed_entry_bytes()
}

/// Each target's message headers fit a field table's `u32` byte count.
pub open spec fn targets_fit(targets: Seq<MailingTarget>) -> bool {
    forall|i: int| 0 <= i < targets.len() ==> base_bytes() + pairs_bytes(#[trigger] targets[i]@)
        <= u32::MAX
}

/// A prefix of the pairs takes no more bytes than all of them.
pub proof fn lemma_pairs_bytes_prefix(pairs: Seq<(String, String)>, j: int)
    requires
        0 <= j <= pairs.len(),
    ensures
        pairs_bytes(pairs.subrange(0, j)) <= pairs_bytes(pairs),
    decreases pairs.len(),
{
    if j < pairs.len() {
        assert(pairs.drop_last().subrange(0, j) =~= pairs.subrange(0, j));
        lemma_pairs_bytes_prefix(pairs.drop_last(), j);
    } else {
        assert(pairs.subrange(0, j) =~= pairs);
    }
}

/// A pair name that an AMQP short string cannot hold.
#[derive(Debug, Clone, Copy, PartialEq, Eq, Structural)]
pub struct NameTooLong;

/// The headers every message of a command carries.
pub fn base_headers(c: &Config) -> (r: FieldTable)
    ensures
        table_entries(r) == base_entries(*c),
        table_byte_len(r) <= base_bytes(),
{
    let mut ftb = FieldTableBuilder::new();
    if let Some(r) = c.retry {
        ftb.x_retries(r as i16);
    }
    if let Some(p) = c.poke {
        // seconds to milliseconds
        let ms: i32 = (p as i32) * 1000;
        ftb.x_delay(ms);
    }
    if let Some(t) = c.waiting_timeout {
        let ms: i64 = (t as i64) * MILLIS_PER_SECOND;
        ftb.x_message_ttl(ms);
    }
    if let Some(t) = c.consuming_timeout {
        let ms: i64 = (t as i64) * MILLIS_PER_SECOND;
        ftb.x_consume_ttl(ms);
    }
    ftb.finish()
}

/// The headers of the message for one mailing target: `base` with the target's pairs set;
/// an error exactly when a pair's name does not fit a header name.
pub fn target_headers(base: &FieldTable, target: &MailingTarget) -> (r: Result<
    FieldTable,
    NameTooLong,
>)
    requires
        table_byte_len(*base) + pairs_bytes(target@) <= u32::MAX,
    ensures
        r is Ok <==> names_fit(target@),
        r is Ok ==> table_entries(r->Ok_0) == merge_pairs(table_entries(*base), target@),
{
    let mut ftb = FieldTableBuilder::from_table(table_clone(base));
    let mut j: usize = 0;
    while j < target.len()
        invariant
            j <= target@.len(),
            table_byte_len(*base) + pairs_bytes(target@) <= u32::MAX,
            ftb@ == merge_pairs(table_entries(*base), target@.subrange(0, j as int)),
            ftb.byte_len() <= table_byte_len(*base) + pairs_bytes(target@.subrange(0, j as int)),
            forall|k: int| 0 <= k < j ==> short_name(#[trigger] target@[k].0@),
        decreases target@.len() - j,
    {
        proof {
            let s = target@.subrange(0, j + 1);
            assert(s.drop_last() =~= target@.subrange(0, j as int));
            assert(s.last() == target@[j as int]);
            lemma_pairs_bytes_prefix(target@, j + 1);
        }
        let ok = ftb.x_common_pair(target[j].0.as_str(), target[j].1.as_str());
        if !ok {
            return Err(NameTooLong);
        }
        j += 1;
    }
    proof {
        assert(target@.subrange(0, target@.len() as int) =~= target@);
    }
    Ok(ftb.finish())
}

impl Command {
    /// The headers of each message that publishing this command sends, one per mailing
    /// target and in order; an error exactly when a pair's name does not fit a header name.
    pub fn message_headers(&self) -> (r: Result<Vec<FieldTable>, NameTooLong>)
        requires
            targets_fit(self.mailing_to@),
        ensures
            r is Ok <==> pairs_fit(self.mailing_to@),
            r is Ok ==> r->Ok_0@.len() == self.mailing_to@.len(),
            r is Ok ==> forall|i: int|
                0 <= i < self.mailing_to@.len() ==> table_entries(#[trigger] r->Ok_0@[i])
                    == merge_pairs(base_entries(self.config), self.mailing_to@[i]@),
    {
        let base = base_headers(&self.config);
        let mut res: Vec<FieldTable> = Vec::new();
        let mut i: usize = 0;
        while i < self.mailing_to.len()
            invariant
                i <= self.mailing_to@.len(),
                targets_fit(self.mailing_to@),
                table_entries(base) == base_entries(self.config),
                table_byte_len(base) <= base_bytes(),
                res@.len() == i,
                forall|k: int| 0 <= k < i ==> names_fit(#[trigger] self.mailing_to@[k]@),
                forall|k: int|
                    0 <= k < i ==> table_entries(#[trigger] res@[k]) == merge_pairs(
                        base_entries(self.config),
                        self.mailing_to@[k]@,
                    ),
            decreases self.mailing_to@.len() - i,
        {
            let target = &self.mailing_to[i];
            assert(base_bytes() + pairs_bytes(self.mailing_to@[i as int]@) <= u32::MAX);
            match target_headers(&base, target) {
                Ok(h) => res.push(h),
                Err(e) => {
                    return Err(e);
                },
            }
            i += 1;
        }
        Ok(res)
    }
}

// ------------------------------------------------------------------------------------------------
// laws
// ------------------------------------------------------------------------------------------------

/// No pair of `pairs` is named `k`.
pub open spec fn no_pair_named(pairs: Seq<(String, String)>, k: Seq<char>) -> bool {
    forall|j: int| 0 <= j < pairs.len() ==> #[trigger] pairs[j].0@ != k
}

/// Setting pairs leaves the entries under other names as they were.
pub proof fn lemma_merge_keeps(m: Map<Seq<char>, FieldVal>, pairs: Seq<(String, String)>, k: Seq<char>)
    requires
        no_pair_named(pairs, k),
    ensures
        merge_pairs(m, pairs).contains_key(k) == m.contains_key(k),
        m.contains_key(k) ==> merge_pairs(m, pairs)[k] == m[k],
    decreases pairs.len(),
{
    if pairs.len() > 0 {
        let rest = pairs.drop_last();
        assert(pairs.last().0@ != k);
        assert forall|j: int| 0 <= j < rest.len() implies #[trigger] rest[j].0@ != k by {
            assert(rest[j] == pairs[j]);
        }
        lemma_merge_keeps(m, rest, k);
    }
}

/// The four header names that settings become differ from each other.
pub proof fn lemma_setting_names_differ()
    ensures
        X_RETRIES@ != X_DELAY@,
        X_RETRIES@ != X_MESSAGE_TTL@,
        X_RETRIES@ != X_CONSUME_TTL@,
        X_DELAY@ != X_MESSAGE_TTL@,
        X_DELAY@ != X_CONSUME_TTL@,
        X_MESSAGE_TTL@ != X_CONSUME_TTL@,
{
    reveal_strlit("x-retries");
    reveal_strlit("x-delay");
    reveal_strlit("x-message-ttl");
    reveal_strlit("x-consume-ttl");
    assert(X_RETRIES@.len() != X_DELAY@.len());
    assert(X_RETRIES@.len() != X_MESSAGE_TTL@.len());
    assert(X_RETRIES@.len() != X_CONSUME_TTL@.len());
    assert(X_DELAY@.len() != X_MESSAGE_TTL@.len());
    assert(X_DELAY@.len() != X_CONSUME_TTL@.len());
    assert(X_MESSAGE_TTL@[2] != X_CONSUME_TTL@[2]);
}

/// On the wire every setting in seconds is a thousand times as many milliseconds: `poke`
/// as `x-delay`, `waiting_timeout` as `x-message-ttl`, `consuming_timeout` as
/// `x-consume-ttl`; and `retry` is `x-retries`. This holds of every message of the command
/// whose mailing target does not itself set that name.
pub proof fn lemma_seconds_to_millis(c: Config, pairs: Seq<(String, String)>)
    ensures
        ({
            let h = merge_pairs(base_entries(c), pairs);
            &&& (c.poke is Some && no_pair_named(pairs, X_DELAY@)) ==> h.contains_key(X_DELAY@)
                && h[X_DELAY@] == FieldVal::Int((c.poke->0 * 1000) as i32)
                && c.poke->0 * 1000 <= i32::MAX
            &&& (c.waiting_timeout is Some && no_pair_named(pairs, X_MESSAGE_TTL@)) ==> h.contains_key(
                X_MESSAGE_TTL@,
            ) && h[X_MESSAGE_TTL@] == FieldVal::Long((c.waiting_timeout->0 * 1000) as i64)
                && c.waiting_timeout->0 * 1000 <= i64::MAX
            &&& (c.consuming_timeout is Some && no_pair_named(pairs, X_CONSUME_TTL@))
                ==> h.contains_key(X_CONSUME_TTL@) && h[X_CONSUME_TTL@] == FieldVal::Long(
                (c.consuming_timeout->0 * 1000) as i64,
            ) && c.consuming_timeout->0 * 1000 <= i64::MAX
            &&& (c.retry is Some && no_pair_named(pairs, X_RETRIES@)) ==> h.contains_key(X_RETRIES@)
                && h[X_RETRIES@] == FieldVal::Short(c.retry->0 as i16)
        }),
{
    lemma_setting_names_differ();
    if c.poke is Some && no_pair_named(pairs, X_DELAY@) {
        lemma_merge_keeps(base_entries(c), pairs, X_DELAY@);
    }
    if c.waiting_timeout is Some && no_pair_named(pairs, X_MESSAGE_TTL@) {
        lemma_merge_keeps(base_entries(c), pairs, X_MESSAGE_TTL@);
    }
    if c.consuming_timeout is Some && no_pair_named(pairs, X_CONSUME_TTL@) {
        lemma_merge_keeps(base_entries(c), pairs, X_CONSUME_TTL@);
    }
    if c.retry is Some && no_pair_named(pairs, X_RETRIES@) {
        lemma_merge_keeps(base_entries(c), pairs, X_RETRIES@);
    }
}

} // verus!
