//! Verified core of a command-execution platform built on AMQP 0-9-1:
//! the `x-*` header protocol, the message schema, the publisher's header
//! stamping, the retry republisher, the consumer engine's decisions, the
//! broker topology and the subscriber's lifecycle.

pub mod headers;
pub mod command;
pub mod publish;
pub mod retry;
pub mod engine;
pub mod topology;
pub mod subscriber;
