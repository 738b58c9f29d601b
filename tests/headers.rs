use amqprs::{FieldName, FieldTable, FieldValue};
use pqx::headers::{
    ExchangeKind, FieldTableBuilder, FieldTableViewer, HeaderError, MatchType, X_CONSUME_TTL,
    X_DELAY, X_MESSAGE_TTL, X_RETRIES,
};

fn name(s: &str) -> FieldName {
    FieldName::try_from(s).unwrap()
}

#[test]
fn builder_writes_typed_values() {
    let mut b = FieldTableBuilder::new();
    b.x_delay(3000);
    b.x_retries(2);
    b.x_message_ttl(60_000);
    b.x_consume_ttl(1_000);
    b.x_match(&MatchType::All);
    assert!(b.x_common_pair("role", "worker"));
    let t = b.finish();
    assert_eq!(t.get(&name("x-delay")), Some(&FieldValue::I(3000)));
    assert_eq!(t.get(&name("x-retries")), Some(&FieldValue::s(2)));
    assert_eq!(t.get(&name("x-message-ttl")), Some(&FieldValue::l(60_000)));
    assert_eq!(t.get(&name("x-consume-ttl")), Some(&FieldValue::l(1_000)));
    assert_eq!(t.get(&name("x-match")), Some(&FieldValue::from("all")));
    assert_eq!(t.get(&name("role")), Some(&FieldValue::from("worker")));
}

#[test]
fn builder_overwrites_an_entry() {
    let mut b = FieldTableBuilder::new();
    b.x_delay(1000);
    b.x_delay(2000);
    let t = b.finish();
    assert_eq!(t.get(&name("x-delay")), Some(&FieldValue::I(2000)));
    assert_eq!(t.as_ref().len(), 1);
}

#[test]
fn builder_refuses_a_name_longer_than_a_short_string() {
    let mut b = FieldTableBuilder::new();
    let long = "k".repeat(256);
    assert!(!b.x_common_pair(&long, "v"));
    assert!(b.x_common_pair(&"k".repeat(255), "v"));
    assert_eq!(b.finish().as_ref().len(), 1);
}

#[test]
fn builder_delayed_type_and_dead_letter() {
    let mut b = FieldTableBuilder::new();
    b.x_delayed_type(&ExchangeKind::Headers);
    b.x_dead_letter_exchange("dlx", "");
    let t = b.finish();
    assert_eq!(t.get(&name("x-delayed-type")), Some(&FieldValue::from("headers")));
    assert_eq!(t.get(&name("x-dead-letter-exchange")), Some(&FieldValue::from("dlx")));
    assert_eq!(t.get(&name("x-dead-routing-key")), Some(&FieldValue::from("")));
}

#[test]
fn viewer_reads_what_the_builder_wrote() {
    let mut b = FieldTableBuilder::new();
    b.x_delay(2000);
    b.x_retries(1);
    b.x_match(&MatchType::Any);
    b.x_message_ttl(5);
    b.x_consume_ttl(7);
    b.x_dead_letter_exchange("dlx", "key");
    b.x_common_pair("dept", "ops");
    let t = b.finish();
    let v = FieldTableViewer::new(&t);
    assert_eq!(v.x_delay(), Ok(2000));
    assert_eq!(v.x_retries(), Ok(1));
    assert_eq!(v.x_match(), Ok(MatchType::Any));
    assert_eq!(v.x_message_ttl(), Ok(5));
    assert_eq!(v.x_consume_ttl(), Ok(7));
    assert_eq!(v.x_common_pair("dept"), Ok(String::from("ops")));
    assert_eq!(
        v.x_dead_letter_exchange(),
        Ok((String::from("dlx"), String::from("key")))
    );
}

#[test]
fn viewer_reports_missing_and_wrong_type() {
    let mut t = FieldTable::new();
    t.insert(name(X_DELAY), FieldValue::l(5));
    t.insert(name(X_RETRIES), FieldValue::from("two"));
    t.insert(name("x-match"), FieldValue::from("some"));
    let v = FieldTableViewer::new(&t);
    assert_eq!(v.x_delay(), Err(HeaderError::WrongType));
    assert_eq!(v.x_retries(), Err(HeaderError::WrongType));
    assert_eq!(v.x_match(), Err(HeaderError::WrongType));
    assert_eq!(v.x_message_ttl(), Err(HeaderError::Missing));
    assert_eq!(v.x_consume_ttl(), Err(HeaderError::Missing));
    assert_eq!(v.x_common_pair("nothing"), Err(HeaderError::Missing));
    assert_eq!(v.x_common_pair(X_DELAY), Err(HeaderError::WrongType));
    assert_eq!(v.x_dead_letter_exchange(), Err(HeaderError::Missing));
}

#[test]
fn viewer_reads_consume_ttl_not_message_ttl() {
    let mut t = FieldTable::new();
    t.insert(name(X_MESSAGE_TTL), FieldValue::l(10));
    t.insert(name(X_CONSUME_TTL), FieldValue::l(20));
    let v = FieldTableViewer::new(&t);
    assert_eq!(v.x_consume_ttl(), Ok(20));
    assert_eq!(v.x_message_ttl(), Ok(10));
}

#[test]
fn match_type_text() {
    assert_eq!(MatchType::Any.to_string(), "any");
    assert_eq!(MatchType::All.to_string(), "all");
    assert_eq!(MatchType::from_str("any"), Ok(MatchType::Any));
    assert_eq!(MatchType::from_str("all"), Ok(MatchType::All));
    assert_eq!(MatchType::from_str("ALL"), Err(HeaderError::WrongType));
    assert_eq!(MatchType::from_str(""), Err(HeaderError::WrongType));
}

#[test]
fn exchange_kind_text() {
    assert_eq!(ExchangeKind::Direct.to_string(), "direct");
    assert_eq!(ExchangeKind::Fanout.to_string(), "fanout");
    assert_eq!(ExchangeKind::Topic.to_string(), "topic");
    assert_eq!(ExchangeKind::Headers.to_string(), "headers");
    assert_eq!(ExchangeKind::DelayedMessage.to_string(), "x-delayed-message");
}
