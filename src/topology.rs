//! The broker topology that realises the retry pipeline: a header exchange, a
//! delayed exchange and a dead-letter exchange; header queues bound with the same
//! matching arguments to the first two and dead-lettering to the third; and the
//! dead-letter queue.

use amqprs::FieldTable;
use vstd::prelude::*;

use crate::headers::{
    fixed_entry_bytes, kind_text, match_text, short_name, table_entries, utf8_len, ExchangeKind, FieldTableBuilder,
    FieldVal, MatchType, X_DEAD_LETTER_EXCHANGE, X_DEAD_ROUTING_KEY, X_DELAYED_TYPE, X_MATCH,
    X_MESSAGE_TTL,
};
use crate::publish::{lemma_pairs_bytes_prefix, merge_pairs, names_fit, pairs_bytes, NameTooLong};

verus! {

/// A header queue and the pairs it is bound on, set in order as a mailing target's are.
pub struct HeaderQueue {
    pub queue: String,
    pub match_type: MatchType,
    pub kv: Vec<(String, String)>,
}

/// What the topology is made of.
pub struct InitiationsConfig {
    pub header_exchange: String,
    pub header_queues: Vec<HeaderQueue>,
    pub delayed_exchange: String,
    pub dead_letter_exchange: String,
    pub dead_letter_queue: String,
    /// queue-side TTL of the dead-letter queue, in milliseconds
    pub dead_letter_ttl: Option<i64>,
}

/// One declaration or binding; exchanges and queues are durable.
pub enum TopologyOp {
    DeclareExchange { name: String, kind: ExchangeKind, arguments: FieldTable },
    DeclareQueue { name: String, arguments: FieldTable },
    BindQueue { queue: String, exchange: String, routing_key: String, arguments: FieldTable },
}

// ------------------------------------------------------------------------------------------------
// arguments
// ------------------------------------------------------------------------------------------------

/// The matching arguments of a header queue's bindings: `x-match` and its pairs.
pub open spec fn binding_entries(hq: HeaderQueue) -> Map<Seq<char>, FieldVal> {
    merge_pairs(
        Map::<Seq<char>, FieldVal>::empty().insert(X_MATCH@, FieldVal::Text(match_text(hq.match_type))),
        hq.kv@,
    )
}

/// The arguments of a queue that dead-letters to `dlx` under `rout`, with an optional TTL.
pub open spec fn dlx_entries(dlx: Seq<char>, rout: Seq<char>, ttl: Option<i64>) -> Map<
    Seq<char>,
    FieldVal,
> {
    let m = Map::<Seq<char>, FieldVal>::empty().insert(X_DEAD_LETTER_EXCHANGE@, FieldVal::Text(dlx)).insert(
        X_DEAD_ROUTING_KEY@,
        FieldVal::Text(rout),
    );
    match ttl {
        Some(t) => m.insert(X_MESSAGE_TTL@, FieldVal::Long(t)),
        None => m,
    }
}

/// The TTL arguments of a queue: `x-message-ttl` when given.
pub open spec fn ttl_entries(ttl: Option<i64>) -> Map<Seq<char>, FieldVal> {
    match ttl {
        Some(t) => Map::<Seq<char>, FieldVal>::empty().insert(X_MESSAGE_TTL@, FieldVal::Long(t)),
        None => Map::empty(),
    }
}

/// The pair names of a header queue fit header names (255 bytes).
pub open spec fn kv_fits(hq: HeaderQueue) -> bool {
    names_fit(hq.kv@)
}

/// A header queue's binding arguments fit a field table's `u32` byte count.
pub open spec fn kv_values_fit(hq: HeaderQueue) -> bool {
    fixed_entry_bytes() + pairs_bytes(hq.kv@) <= u32::MAX
}

/// Binding arguments for a header queue.
pub fn binding_arguments(hq: &HeaderQueue) -> (r: Result<FieldTable, NameTooLong>)
    requires
        kv_values_fit(*hq),
    ensures
        r is Ok <==> kv_fits(*hq),
        r is Ok ==> table_entries(r->Ok_0) == binding_entries(*hq),
{
    let mut ftb = FieldTableBuilder::new();
    ftb.x_match(&hq.match_type);
    let ghost start = ftb@;
    let mut j: usize = 0;
    while j < hq.kv.len()
        invariant
            j <= hq.kv@.len(),
            kv_values_fit(*hq),
            start == Map::<Seq<char>, FieldVal>::empty().insert(X_MATCH@, FieldVal::Text(match_text(hq.match_type))),
            ftb@ == merge_pairs(start, hq.kv@.subrange(0, j as int)),
            ftb.byte_len() <= fixed_entry_bytes() + pairs_bytes(hq.kv@.subrange(0, j as int)),
            forall|k: int| 0 <= k < j ==> short_name(#[trigger] hq.kv@[k].0@),
        decreases hq.kv@.len() - j,
    {
        proof {
            let s = hq.kv@.subrange(0, j + 1);
            assert(s.drop_last() =~= hq.kv@.subrange(0, j as int));
            assert(s.last() == hq.kv@[j as int]);
            lemma_pairs_bytes_prefix(hq.kv@, j + 1);
        }
        let ok = ftb.x_common_pair(hq.kv[j].0.as_str(), hq.kv[j].1.as_str());
        if !ok {
            return Err(NameTooLong);
        }
        j += 1;
    }
    proof {
        assert(hq.kv@.subrange(0, hq.kv@.len() as int) =~= hq.kv@);
        assert(ftb@ =~= binding_entries(*hq));
    }
    Ok(ftb.finish())
}

/// Arguments of a queue that dead-letters to `dlx` under `dlx_rout`, with an optional TTL.
pub fn dlx_queue_arguments(dlx: &str, dlx_rout: &str, ttl: Option<i64>) -> (r: FieldTable)
    requires
        3 * fixed_entry_bytes() + utf8_len(dlx@) + utf8_len(dlx_rout@) <= u32::MAX,
    ensures
        table_entries(r) == dlx_entries(dlx@, dlx_rout@, ttl),
{
    let mut ftb = FieldTableBuilder::new();
    ftb.x_dead_letter_exchange(dlx, dlx_rout);
    if let Some(t) = ttl {
        ftb.x_message_ttl(t);
    }
    ftb.finish()
}

/// Arguments of a queue with an optional TTL.
pub fn ttl_arguments(ttl: Option<i64>) -> (r: FieldTable)
    ensures
        table_entries(r) == ttl_entries(ttl),
{
    let mut ftb = FieldTableBuilder::new();
    if let Some(t) = ttl {
        ftb.x_message_ttl(t);
    }
    proof {
        assert(ftb@ =~= ttl_entries(ttl));
    }
    ftb.finish()
}

/// Arguments of a delayed exchange that routes as `kind` once the delay has passed.
pub fn delayed_exchange_arguments(kind: &ExchangeKind) -> (r: FieldTable)
    ensures
        table_entries(r) == Map::<Seq<char>, FieldVal>::empty().insert(
            X_DELAYED_TYPE@,
            FieldVal::Text(kind_text(*kind)),
        ),
{
    let mut ftb = FieldTableBuilder::new();
    ftb.x_delayed_type(kind);
    ftb.finish()
}

// ------------------------------------------------------------------------------------------------
// the plan
// ------------------------------------------------------------------------------------------------

pub open spec fn declares_exchange(
    op: TopologyOp,
    name: Seq<char>,
    kind: ExchangeKind,
    args: Map<Seq<char>, FieldVal>,
) -> bool {
    match op {
        TopologyOp::DeclareExchange { name: n, kind: k, arguments } => n@ == name && k == kind
            && table_entries(arguments) == args,
        _ => false,
    }
}

pub open spec fn declares_queue(op: TopologyOp, name: Seq<char>, args: Map<Seq<char>, FieldVal>) -> bool {
    match op {
        TopologyOp::DeclareQueue { name: n, arguments } => n@ == name && table_entries(arguments)
            == args,
        _ => false,
    }
}

pub open spec fn binds_queue(
    op: TopologyOp,
    queue: Seq<char>,
    exchange: Seq<char>,
    routing_key: Seq<char>,
    args: Map<Seq<char>, FieldVal>,
) -> bool {
    match op {
        TopologyOp::BindQueue { queue: q, exchange: x, routing_key: k, arguments } => q@ == queue
            && x@ == exchange && k@ == routing_key && table_entries(arguments) == args,
        _ => false,
    }
}

/// The pair names of every header queue fit header names.
pub open spec fn queues_fit(c: InitiationsConfig) -> bool {
    forall|i: int| 0 <= i < c.header_queues@.len() ==> kv_fits(#[trigger] c.header_queues@[i])
}

/// Every header queue's binding arguments fit a field table's byte count.
pub open spec fn queue_values_fit(c: InitiationsConfig) -> bool {
    forall|i: int| 0 <= i < c.header_queues@.len() ==> kv_values_fit(#[trigger] c.header_queues@[i])
}

/// The header exchange, then each header queue: declared dead-lettering to the dead-letter
/// exchange, and bound to the header exchange on its pairs.
pub fn declare_exchange_and_queues_then_bind(config: &InitiationsConfig) -> (r: Result<
    Vec<TopologyOp>,
    NameTooLong,
>)
    requires
        queue_values_fit(*config),
        4 * fixed_entry_bytes() + utf8_len(config.dead_letter_exchange@) <= u32::MAX,
    ensures
        r is Ok <==> queues_fit(*config),
        r is Ok ==> {
            let ops = r->Ok_0@;
            let n = config.header_queues@.len();
            &&& ops.len() == 1 + 2 * n
            &&& declares_exchange(
                ops[0],
                config.header_exchange@,
                ExchangeKind::Headers,
                Map::empty(),
            )
            &&& forall|i: int|
                0 <= i < n ==> declares_queue(
                    #[trigger] ops[1 + 2 * i],
                    config.header_queues@[i].queue@,
                    dlx_entries(config.dead_letter_exchange@, ""@, None),
                )
            &&& forall|i: int|
                0 <= i < n ==> binds_queue(
                    #[trigger] ops[2 + 2 * i],
                    config.header_queues@[i].queue@,
                    config.header_exchange@,
                    ""@,
                    binding_entries(config.header_queues@[i]),
                )
        },
{
    let mut ops: Vec<TopologyOp> = Vec::new();
    ops.push(
        TopologyOp::DeclareExchange {
            name: config.header_exchange.clone(),
            kind: ExchangeKind::Headers,
            arguments: FieldTable::new(),
        },
    );
    proof {
        reveal_strlit("");
    }
    let mut i: usize = 0;
    while i < config.header_queues.len()
        invariant
            i <= config.header_queues@.len(),
            queue_values_fit(*config),
            4 * fixed_entry_bytes() + utf8_len(config.dead_letter_exchange@) <= u32::MAX,
            forall|k: int| 0 <= k < i ==> kv_fits(#[trigger] config.header_queues@[k]),
            ops@.len() == 1 + 2 * i,
            declares_exchange(ops@[0], config.header_exchange@, ExchangeKind::Headers, Map::empty()),
            forall|k: int|
                0 <= k < i ==> declares_queue(
                    #[trigger] ops@[1 + 2 * k],
                    config.header_queues@[k].queue@,
                    dlx_entries(config.dead_letter_exchange@, ""@, None),
                ),
            forall|k: int|
                0 <= k < i ==> binds_queue(
                    #[trigger] ops@[2 + 2 * k],
                    config.header_queues@[k].queue@,
                    config.header_exchange@,
                    ""@,
                    binding_entries(config.header_queues@[k]),
                ),
        decreases config.header_queues@.len() - i,
    {
        let hq = &config.header_queues[i];
        assert(kv_values_fit(config.header_queues@[i as int]));
        let args = match binding_arguments(hq) {
            Ok(a) => a,
            Err(e) => {
                return Err(e);
            },
        };
        proof {
            reveal_strlit("");
        }
        ops.push(
            TopologyOp::DeclareQueue {
                name: hq.queue.clone(),
                arguments: dlx_queue_arguments(config.dead_letter_exchange.as_str(), "", None),
            },
        );
        ops.push(
            TopologyOp::BindQueue {
                queue: hq.queue.clone(),
                exchange: config.header_exchange.clone(),
                routing_key: "".to_owned(),
                arguments: args,
            },
        );
        i += 1;
    }
    Ok(ops)
}

/// The delayed exchange, routing by headers once a delay has passed, and each header queue
/// bound to it on the same pairs as to the header exchange.
pub fn declare_delayed_exchange_and_bind_queues(config: &InitiationsConfig) -> (r: Result<
    Vec<TopologyOp>,
    NameTooLong,
>)
    requires
        queue_values_fit(*config),
    ensures
        r is Ok <==> queues_fit(*config),
        r is Ok ==> {
            let ops = r->Ok_0@;
            let n = config.header_queues@.len();
            &&& ops.len() == 1 + n
            &&& declares_exchange(
                ops[0],
                config.delayed_exchange@,
                ExchangeKind::DelayedMessage,
                Map::<Seq<char>, FieldVal>::empty().insert(
                    X_DELAYED_TYPE@,
                    FieldVal::Text(kind_text(ExchangeKind::Headers)),
                ),
            )
            &&& forall|i: int|
                0 <= i < n ==> binds_queue(
                    #[trigger] ops[1 + i],
                    config.header_queues@[i].queue@,
                    config.delayed_exchange@,
                    ""@,
                    binding_entries(config.header_queues@[i]),
                )
        },
{
    let mut ops: Vec<TopologyOp> = Vec::new();
    ops.push(
        TopologyOp::DeclareExchange {
            name: config.delayed_exchange.clone(),
            kind: ExchangeKind::DelayedMessage,
            arguments: delayed_exchange_arguments(&ExchangeKind::Headers),
        },
    );
    let mut i: usize = 0;
    while i < config.header_queues.len()
        invariant
            i <= config.header_queues@.len(),
            queue_values_fit(*config),
            forall|k: int| 0 <= k < i ==> kv_fits(#[trigger] config.header_queues@[k]),
            ops@.len() == 1 + i,
            declares_exchange(
                ops@[0],
                config.delayed_exchange@,
                ExchangeKind::DelayedMessage,
                Map::<Seq<char>, FieldVal>::empty().insert(
                    X_DELAYED_TYPE@,
                    FieldVal::Text(kind_text(ExchangeKind::Headers)),
                ),
            ),
            forall|k: int|
                0 <= k < i ==> binds_queue(
                    #[trigger] ops@[1 + k],
                    config.header_queues@[k].queue@,
                    config.delayed_exchange@,
                    ""@,
                    binding_entries(config.header_queues@[k]),
                ),
        decreases config.header_queues@.len() - i,
    {
        let hq = &config.header_queues[i];
        assert(kv_values_fit(config.header_queues@[i as int]));
        let args = match binding_arguments(hq) {
            Ok(a) => a,
            Err(e) => {
                return Err(e);
            },
        };
        ops.push(
            TopologyOp::BindQueue {
                queue: hq.queue.clone(),
                exchange: config.delayed_exchange.clone(),
                routing_key: "".to_owned(),
                arguments: args,
            },
        );
        i += 1;
    }
    Ok(ops)
}

/// The dead-letter exchange, and the dead-letter queue bound to it under the empty
/// routing key.
pub fn declare_dead_letter_exchange_and_bind_queues(config: &InitiationsConfig) -> (r: Vec<
    TopologyOp,
>)
    ensures
        r@.len() == 3,
        declares_exchange(r@[0], config.dead_letter_exchange@, ExchangeKind::Direct, Map::empty()),
        declares_queue(r@[1], config.dead_letter_queue@, ttl_entries(config.dead_letter_ttl)),
        binds_queue(r@[2], config.dead_letter_queue@, config.dead_letter_exchange@, ""@, Map::empty()),
{
    proof {
        reveal_strlit("");
    }
    let ops = vec![
        TopologyOp::DeclareExchange {
            name: config.dead_letter_exchange.clone(),
            kind: ExchangeKind::Direct,
            arguments: FieldTable::new(),
        },
        TopologyOp::DeclareQueue {
            name: config.dead_letter_queue.clone(),
            arguments: ttl_arguments(config.dead_letter_ttl),
        },
        TopologyOp::BindQueue {
            queue: config.dead_letter_queue.clone(),
            exchange: config.dead_letter_exchange.clone(),
            routing_key: "".to_owned(),
            arguments: FieldTable::new(),
        },
    ];
    ops
}

// ------------------------------------------------------------------------------------------------
// laws
// ------------------------------------------------------------------------------------------------

/// A header queue is bound to the delayed exchange on exactly the arguments it is bound on
/// to the header exchange, so a retry republished to the delayed exchange comes back to the
/// queue it left.
pub proof fn lemma_retry_preserves_routing(
    config: InitiationsConfig,
    header_ops: Seq<TopologyOp>,
    delayed_ops: Seq<TopologyOp>,
    i: int,
)
    requires
        0 <= i < config.header_queues@.len(),
        binds_queue(
            header_ops[2 + 2 * i],
            config.header_queues@[i].queue@,
            config.header_exchange@,
            ""@,
            binding_entries(config.header_queues@[i]),
        ),
        binds_queue(
            delayed_ops[1 + i],
            config.header_queues@[i].queue@,
            config.delayed_exchange@,
            ""@,
            binding_entries(config.header_queues@[i]),
        ),
    ensures
        match (header_ops[2 + 2 * i], delayed_ops[1 + i]) {
            (
                TopologyOp::BindQueue { queue: q1, routing_key: k1, arguments: a1, .. },
                TopologyOp::BindQueue { queue: q2, routing_key: k2, arguments: a2, .. },
            ) => q1@ == q2@ && k1@ == k2@ && table_entries(a1) == table_entries(a2),
            _ => false,
        },
{
}

} // verus!
