use amqprs::{FieldName, FieldTable, FieldValue};
use pqx::headers::{ExchangeKind, MatchType};
use pqx::subscriber::{releases_block, SubscribeError, Subscription};
use pqx::topology::{
    declare_dead_letter_exchange_and_bind_queues, declare_delayed_exchange_and_bind_queues,
    declare_exchange_and_queues_then_bind, dlx_queue_arguments, HeaderQueue, InitiationsConfig,
    TopologyOp,
};

fn name(s: &str) -> FieldName {
    FieldName::try_from(s).unwrap()
}

fn config() -> InitiationsConfig {
    InitiationsConfig {
        header_exchange: "hx".to_string(),
        header_queues: vec![
            HeaderQueue {
                queue: "hq_a".to_string(),
                match_type: MatchType::Any,
                kv: vec![("dept".to_string(), "finance".to_string())],
            },
            HeaderQueue {
                queue: "hq_b".to_string(),
                match_type: MatchType::All,
                kv: vec![("dept".to_string(), "ops".to_string())],
            },
        ],
        delayed_exchange: "dx".to_string(),
        dead_letter_exchange: "dlx".to_string(),
        dead_letter_queue: "dlq".to_string(),
        dead_letter_ttl: Some(60_000),
    }
}

fn bound(op: &TopologyOp) -> (&str, &str, &str, &FieldTable) {
    match op {
        TopologyOp::BindQueue { queue, exchange, routing_key, arguments } => {
            (queue.as_str(), exchange.as_str(), routing_key.as_str(), arguments)
        }
        _ => panic!("expected a binding"),
    }
}

#[test]
fn header_exchange_and_queues() {
    let ops = declare_exchange_and_queues_then_bind(&config()).unwrap();
    assert_eq!(ops.len(), 5);
    match &ops[0] {
        TopologyOp::DeclareExchange { name: n, kind, arguments } => {
            assert_eq!(n, "hx");
            assert_eq!(*kind, ExchangeKind::Headers);
            assert!(arguments.as_ref().is_empty());
        }
        _ => panic!("expected the header exchange"),
    }
    match &ops[1] {
        TopologyOp::DeclareQueue { name: n, arguments } => {
            assert_eq!(n, "hq_a");
            assert_eq!(arguments.get(&name("x-dead-letter-exchange")), Some(&FieldValue::from("dlx")));
        }
        _ => panic!("expected a queue"),
    }
    let (q, x, k, a) = bound(&ops[4]);
    assert_eq!((q, x, k), ("hq_b", "hx", ""));
    assert_eq!(a.get(&name("x-match")), Some(&FieldValue::from("all")));
    assert_eq!(a.get(&name("dept")), Some(&FieldValue::from("ops")));
}

#[test]
fn delayed_exchange_binds_like_the_header_exchange() {
    let c = config();
    let hx = declare_exchange_and_queues_then_bind(&c).unwrap();
    let dx = declare_delayed_exchange_and_bind_queues(&c).unwrap();
    assert_eq!(dx.len(), 3);
    match &dx[0] {
        TopologyOp::DeclareExchange { name: n, kind, arguments } => {
            assert_eq!(n, "dx");
            assert_eq!(*kind, ExchangeKind::DelayedMessage);
            assert_eq!(arguments.get(&name("x-delayed-type")), Some(&FieldValue::from("headers")));
        }
        _ => panic!("expected the delayed exchange"),
    }
    for i in 0..2 {
        let (q1, _, k1, a1) = bound(&hx[2 + 2 * i]);
        let (q2, x2, k2, a2) = bound(&dx[1 + i]);
        assert_eq!((q1, k1), (q2, k2));
        assert_eq!(x2, "dx");
        assert_eq!(a1, a2);
    }
}

#[test]
fn dead_letter_exchange_and_queue() {
    let ops = declare_dead_letter_exchange_and_bind_queues(&config());
    assert_eq!(ops.len(), 3);
    assert!(matches!(&ops[0], TopologyOp::DeclareExchange { kind: ExchangeKind::Direct, .. }));
    match &ops[1] {
        TopologyOp::DeclareQueue { name: n, arguments } => {
            assert_eq!(n, "dlq");
            assert_eq!(arguments.get(&name("x-message-ttl")), Some(&FieldValue::l(60_000)));
        }
        _ => panic!("expected the dead-letter queue"),
    }
    let (q, x, k, a) = bound(&ops[2]);
    assert_eq!((q, x, k), ("dlq", "dlx", ""));
    assert!(a.as_ref().is_empty());
}

#[test]
fn dlx_arguments_with_ttl() {
    let t = dlx_queue_arguments("dlx", "rk", Some(5));
    assert_eq!(t.get(&name("x-dead-letter-exchange")), Some(&FieldValue::from("dlx")));
    assert_eq!(t.get(&name("x-dead-routing-key")), Some(&FieldValue::from("rk")));
    assert_eq!(t.get(&name("x-message-ttl")), Some(&FieldValue::l(5)));
}

#[test]
fn subscription_lifecycle() {
    let mut s = Subscription::new();
    assert_eq!(s.cancel_consume(), Err(SubscribeError::NotConsuming));
    assert_eq!(s.resume_consume(), Err(SubscribeError::NeverConsumed));
    s.start_consume("hq_a");
    assert!(s.running);
    s.consumed("ctag-1".to_string());
    assert_eq!(s.cancel_consume(), Ok("ctag-1".to_string()));
    assert!(!s.running);
    assert_eq!(s.cancel_consume(), Err(SubscribeError::NotConsuming));
    assert_eq!(s.resume_consume(), Ok("hq_a".to_string()));
    assert!(s.running);
}

#[test]
fn subscription_arguments() {
    let mut s = Subscription::new();
    s.set_consumer_priorities(5);
    s.set_consumer_priorities(7);
    s.set_consumer_timeout(30_000);
    s.set_consumer_exclusive(true);
    s.set_consumer_no_wait(true);
    let a = &s.settings.arguments;
    assert_eq!(a.get(&name("x-priority")), Some(&FieldValue::s(7)));
    assert_eq!(a.get(&name("x-consumer-timeout")), Some(&FieldValue::i(30_000)));
    assert_eq!(a.as_ref().len(), 2);
    assert!(s.settings.exclusive && s.settings.no_wait);
}

#[test]
fn stop_signal_releases_block() {
    assert!(releases_block(false));
    assert!(!releases_block(true));
}

#[test]
fn topology_accepts_long_pair_names() {
    let mut c = config();
    c.header_queues[0].kv = vec![("n".repeat(200), "v".to_string())];
    assert_eq!(declare_exchange_and_queues_then_bind(&c).unwrap().len(), 5);
    assert_eq!(declare_delayed_exchange_and_bind_queues(&c).unwrap().len(), 3);
    c.header_queues[1].kv = vec![("n".repeat(256), "v".to_string())];
    assert!(declare_exchange_and_queues_then_bind(&c).is_err());
    assert!(declare_delayed_exchange_and_bind_queues(&c).is_err());
}
