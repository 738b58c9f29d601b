use amqprs::{FieldName, FieldTable, FieldValue};
use pqx::command::{CmdArg, Command, Config};
use pqx::engine::{
    consume_timeout, handle, keep_running, BrokerOp, Callback, ConsumerResult, Delivery,
};
use pqx::publish::base_headers;
use pqx::retry::{Retry, RetryDecision, DEFAULT_POKE, DEFAULT_RETRIES};

fn name(s: &str) -> FieldName {
    FieldName::try_from(s).unwrap()
}

fn pair(k: &str, v: &str) -> (String, String) {
    (k.to_string(), v.to_string())
}

fn command(retry: Option<u8>, poke: Option<u16>, targets: Vec<Vec<(String, String)>>) -> Command {
    let mut c = Command::new(CmdArg::ping("127.0.0.1".to_string()));
    c.config.retry = retry;
    c.config.poke = poke;
    c.mailing_to = targets;
    c
}

fn headers_with(retries: Option<i16>, delay: Option<i32>) -> FieldTable {
    let mut t = FieldTable::new();
    if let Some(r) = retries {
        t.insert(name("x-retries"), FieldValue::s(r));
    }
    if let Some(d) = delay {
        t.insert(name("x-delay"), FieldValue::I(d));
    }
    t
}

// ------------------------------------------------------------------------------------------------
// publishing
// ------------------------------------------------------------------------------------------------

#[test]
fn publish_one_message_per_target() {
    let c = command(
        Some(2),
        Some(3),
        vec![vec![pair("dept", "finance")], vec![pair("dept", "ops")]],
    );
    let hs = c.message_headers().unwrap();
    assert_eq!(hs.len(), 2);
    assert_eq!(hs[0].get(&name("dept")), Some(&FieldValue::from("finance")));
    assert_eq!(hs[1].get(&name("dept")), Some(&FieldValue::from("ops")));
    for h in &hs {
        assert_eq!(h.get(&name("x-retries")), Some(&FieldValue::s(2)));
        assert_eq!(h.get(&name("x-delay")), Some(&FieldValue::I(3000)));
        assert_eq!(h.as_ref().len(), 3);
    }
}

#[test]
fn publish_with_no_target_sends_nothing() {
    let c = command(Some(2), Some(3), vec![]);
    assert_eq!(c.message_headers().unwrap().len(), 0);
}

#[test]
fn publish_converts_seconds_to_milliseconds() {
    let cfg = Config {
        retry: Some(1),
        poke: Some(65535),
        waiting_timeout: Some(30),
        consuming_timeout: Some(1),
    };
    let t = base_headers(&cfg);
    assert_eq!(t.get(&name("x-delay")), Some(&FieldValue::I(65_535_000)));
    assert_eq!(t.get(&name("x-message-ttl")), Some(&FieldValue::l(30_000)));
    assert_eq!(t.get(&name("x-consume-ttl")), Some(&FieldValue::l(1_000)));
    assert_eq!(t.get(&name("x-retries")), Some(&FieldValue::s(1)));
}

#[test]
fn publish_without_settings_has_only_the_pairs() {
    let c = command(None, None, vec![vec![pair("role", "worker"), pair("role", "boss")]]);
    let hs = c.message_headers().unwrap();
    assert_eq!(hs[0].as_ref().len(), 1);
    assert_eq!(hs[0].get(&name("role")), Some(&FieldValue::from("boss")));
}

#[test]
fn publish_refuses_an_overlong_pair_name() {
    let long = "k".repeat(300);
    let c = command(None, None, vec![vec![pair(&long, "v")]]);
    assert!(c.message_headers().is_err());
}

// ------------------------------------------------------------------------------------------------
// retrying
// ------------------------------------------------------------------------------------------------

fn republished(d: RetryDecision) -> (FieldTable, String, String) {
    match d {
        RetryDecision::Republish { headers, exchange, routing_key } => (headers, exchange, routing_key),
        RetryDecision::DeadLetter => panic!("dead-lettered"),
    }
}

#[test]
fn retry_decrements_and_keeps_delay() {
    let p = Retry::new("dx", "", 10, 1);
    let h = headers_with(Some(2), Some(2000));
    let (t, x, k) = republished(p.retry(Some(&h)).unwrap());
    assert_eq!(t.get(&name("x-retries")), Some(&FieldValue::s(1)));
    assert_eq!(t.get(&name("x-delay")), Some(&FieldValue::I(2000)));
    assert_eq!((x.as_str(), k.as_str()), ("dx", ""));
}

#[test]
fn retry_fills_in_defaults() {
    let p = Retry::new("dx", "", 4, 3);
    let (t, _, _) = republished(p.retry(None).unwrap());
    assert_eq!(t.get(&name("x-delay")), Some(&FieldValue::I(4000)));
    assert_eq!(t.get(&name("x-retries")), Some(&FieldValue::s(2)));
}

#[test]
fn retry_dead_letters_when_budget_is_spent() {
    let p = Retry::new("dx", "", 10, 5);
    assert!(matches!(p.retry(Some(&headers_with(Some(1), None))), Ok(RetryDecision::DeadLetter)));
    assert!(matches!(p.retry(Some(&headers_with(Some(0), None))), Ok(RetryDecision::DeadLetter)));
    assert!(matches!(
        p.retry(Some(&headers_with(Some(i16::MIN), None))),
        Ok(RetryDecision::DeadLetter)
    ));
    let q = Retry::new("dx", "", 10, 1);
    assert!(matches!(q.retry(None), Ok(RetryDecision::DeadLetter)));
}

#[test]
fn retry_budget_runs_out_after_republishes() {
    let p = Retry::new("dx", "", 10, 1);
    let mut h = headers_with(Some(3), None);
    let mut republishes = 0;
    loop {
        match p.retry(Some(&h)).unwrap() {
            RetryDecision::Republish { headers, .. } => {
                republishes += 1;
                h = headers;
            }
            RetryDecision::DeadLetter => break,
        }
    }
    assert_eq!(republishes, 2);
}

#[test]
fn retry_refuses_a_malformed_budget() {
    let p = Retry::new("dx", "", 10, 1);
    let mut t = FieldTable::new();
    t.insert(name("x-retries"), FieldValue::from("3"));
    assert!(p.retry(Some(&t)).is_err());
}

#[test]
fn retry_policy_for_command() {
    let c = command(Some(2), Some(3), vec![]);
    let p = Retry::for_command("dx", &c);
    assert_eq!((p.exchange.as_str(), p.routing_key.as_str(), p.poke, p.retries), ("dx", "", 3, 2));
    let c = command(None, None, vec![]);
    let p = Retry::for_command("dx", &c);
    assert_eq!((p.poke, p.retries), (DEFAULT_POKE, DEFAULT_RETRIES));
    assert_eq!((p.poke, p.retries), (10, 1));
}

#[test]
fn zero_budget_dead_letters_at_once() {
    let c = command(Some(0), Some(2), vec![vec![pair("role", "worker")]]);
    let hs = c.message_headers().unwrap();
    let p = Retry::for_command("dx", &c);
    let h = handle(Delivery::Done(ConsumerResult::retry(Some(7))), Some(&hs[0]), &p);
    assert!(matches!(h.callback, Callback::Retry(Some(7))));
    assert_eq!(h.ops.len(), 1);
    assert!(matches!(h.ops[0], BrokerOp::Nack { requeue: false }));
}

// ------------------------------------------------------------------------------------------------
// the engine
// ------------------------------------------------------------------------------------------------

#[test]
fn engine_success_acks() {
    let p = Retry::new("dx", "", 10, 1);
    let h = handle(Delivery::Done(ConsumerResult::success(0)), None, &p);
    assert!(matches!(h.callback, Callback::Success(0)));
    assert_eq!(h.ops.len(), 1);
    assert!(matches!(h.ops[0], BrokerOp::Ack));
    assert!(!h.fatal);
    assert!(keep_running(h.fatal, true, true));
    assert!(!keep_running(h.fatal, false, true));
    assert!(!keep_running(h.fatal, true, false));
}

#[test]
fn engine_failure_requeues() {
    let p = Retry::new("dx", "", 10, 1);
    let h = handle(Delivery::Done(ConsumerResult::failure("r")), None, &p);
    assert!(matches!(h.callback, Callback::Requeue("r")));
    assert_eq!(h.ops.len(), 1);
    assert!(matches!(h.ops[0], BrokerOp::Nack { requeue: true }));
}

#[test]
fn engine_malformed_and_failed_discard() {
    let p = Retry::new("dx", "", 10, 1);
    for d in [Delivery::<u8>::Malformed, Delivery::<u8>::Failed] {
        let h = handle(d, None, &p);
        assert!(matches!(h.callback, Callback::Discard));
        assert_eq!(h.ops.len(), 1);
        assert!(matches!(h.ops[0], BrokerOp::Nack { requeue: false }));
    }
}

#[test]
fn engine_retry_republishes_then_acks() {
    let p = Retry::new("dx", "", 2, 2);
    let h = handle(Delivery::Done(ConsumerResult::retry(Some(1))), None, &p);
    assert!(matches!(h.callback, Callback::Retry(Some(1))));
    assert_eq!(h.ops.len(), 2);
    match &h.ops[0] {
        BrokerOp::Publish { headers, exchange, routing_key } => {
            assert_eq!(headers.get(&name("x-retries")), Some(&FieldValue::s(1)));
            assert_eq!(headers.get(&name("x-delay")), Some(&FieldValue::I(2000)));
            assert_eq!(exchange, "dx");
            assert_eq!(routing_key, "");
        }
        _ => panic!("expected a publish"),
    }
    assert!(matches!(h.ops[1], BrokerOp::Ack));
}

#[test]
fn engine_timeout_retries_without_result() {
    let p = Retry::new("dx", "", 2, 1);
    let h = handle(Delivery::<u8>::TimedOut, Some(&headers_with(Some(1), None)), &p);
    assert!(matches!(h.callback, Callback::Retry(None)));
    assert!(matches!(h.ops[0], BrokerOp::Nack { requeue: false }));
}

#[test]
fn engine_malformed_budget_stops_the_worker() {
    let p = Retry::new("dx", "", 2, 1);
    let mut t = FieldTable::new();
    t.insert(name("x-retries"), FieldValue::l(3));
    let h = handle(Delivery::<u8>::TimedOut, Some(&t), &p);
    assert!(h.fatal);
    assert!(matches!(h.ops[0], BrokerOp::Nack { requeue: false }));
    assert!(!keep_running(h.fatal, true, true));
}

#[test]
fn consume_timeout_only_when_positive() {
    assert_eq!(consume_timeout(None), None);
    let mut t = FieldTable::new();
    assert_eq!(consume_timeout(Some(&t)), None);
    t.insert(name("x-consume-ttl"), FieldValue::l(0));
    assert_eq!(consume_timeout(Some(&t)), None);
    let mut t = FieldTable::new();
    t.insert(name("x-consume-ttl"), FieldValue::l(-5));
    assert_eq!(consume_timeout(Some(&t)), None);
    let mut t = FieldTable::new();
    t.insert(name("x-consume-ttl"), FieldValue::l(1000));
    assert_eq!(consume_timeout(Some(&t)), Some(1000));
    let mut t = FieldTable::new();
    t.insert(name("x-message-ttl"), FieldValue::l(1000));
    assert_eq!(consume_timeout(Some(&t)), None);
}

#[test]
fn publish_accepts_names_up_to_255_bytes() {
    let c = command(None, None, vec![vec![pair(&"k".repeat(100), "v")]]);
    assert_eq!(c.message_headers().unwrap().len(), 1);
    let c = command(None, None, vec![vec![pair(&"k".repeat(255), "v")]]);
    assert!(c.message_headers().is_ok());
    let c = command(None, None, vec![vec![pair(&"k".repeat(256), "v")]]);
    assert!(c.message_headers().is_err());
    // two bytes per character
    let c = command(None, None, vec![vec![pair(&"é".repeat(127), "v")]]);
    assert!(c.message_headers().is_ok());
    let c = command(None, None, vec![vec![pair(&"é".repeat(128), "v")]]);
    assert!(c.message_headers().is_err());
}

#[test]
fn exit_status_classification() {
    assert!(matches!(ConsumerResult::of_exit(true, 0), ConsumerResult::Success(0)));
    assert!(matches!(ConsumerResult::of_exit(false, 3), ConsumerResult::Retry(Some(3))));
}
