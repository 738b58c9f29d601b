//! The `x-*` header protocol over AMQP field tables.
//!
//! A field table is amqprs' `FieldTable`; Verus sees it through
//! `table_entries`, the map from header names to typed values that it holds.

use amqprs::{FieldName, FieldTable, FieldValue};
use vstd::prelude::*;
use vstd::utf8::{encode_utf8, is_ascii_chars, is_ascii_chars_encode_utf8};

verus! {

// ------------------------------------------------------------------------------------------------
// header names
// ------------------------------------------------------------------------------------------------

pub const X_DELAYED_TYPE: &'static str = "x-delayed-type";

pub const X_DELAY: &'static str = "x-delay";

pub const X_RETRIES: &'static str = "x-retries";

pub const X_MATCH: &'static str = "x-match";

pub const X_MESSAGE_TTL: &'static str = "x-message-ttl";

pub const X_CONSUME_TTL: &'static str = "x-consume-ttl";

pub const X_DEAD_LETTER_EXCHANGE: &'static str = "x-dead-letter-exchange";

pub const X_DEAD_ROUTING_KEY: &'static str = "x-dead-routing-key";

pub const X_PRIORITY: &'static str = "x-priority";

pub const X_CONSUMER_TIMEOUT: &'static str = "x-consumer-timeout";

// ------------------------------------------------------------------------------------------------
// header values
// ------------------------------------------------------------------------------------------------

/// What a header value is, mathematically.
pub enum FieldVal {
    Short(i16),
    Int(i32),
    UInt(u32),
    Long(i64),
    Text(Seq<char>),
    Unsupported,
}

/// A header value of one of the AMQP types that the protocol uses.
#[derive(Debug, Clone)]
pub enum HeaderValue {
    /// signed 16-bit (`s`)
    Short(i16),
    /// signed 32-bit (`I`)
    Int(i32),
    /// unsigned 32-bit (`i`)
    UInt(u32),
    /// signed 64-bit (`l`)
    Long(i64),
    /// long string (`S`)
    Text(String),
    /// any other AMQP type
    Unsupported,
}

impl View for HeaderValue {
    type V = FieldVal;

    open spec fn view(&self) -> FieldVal {
        match self {
            HeaderValue::Short(v) => FieldVal::Short(*v),
            HeaderValue::Int(v) => FieldVal::Int(*v),
            HeaderValue::UInt(v) => FieldVal::UInt(*v),
            HeaderValue::Long(v) => FieldVal::Long(*v),
            HeaderValue::Text(s) => FieldVal::Text(s@),
            HeaderValue::Unsupported => FieldVal::Unsupported,
        }
    }
}

/// The number of bytes of the UTF-8 form of `s`.
pub open spec fn utf8_len(s: Seq<char>) -> nat {
    encode_utf8(s).len()
}

/// A value that can be written into a field table: text must fit an AMQP long string.
pub open spec fn writable(v: FieldVal) -> bool {
    match v {
        FieldVal::Text(s) => utf8_len(s) <= u32::MAX,
        FieldVal::Unsupported => false,
        _ => true,
    }
}

/// A header name that fits an AMQP short string: at most 255 bytes.
pub open spec fn short_name(k: Seq<char>) -> bool {
    utf8_len(k) <= 255
}

/// A text value that fits an AMQP long string.
pub open spec fn long_text(s: Seq<char>) -> bool {
    utf8_len(s) <= u32::MAX
}

/// The bytes a value takes on the wire after its type tag.
pub open spec fn value_bytes(v: FieldVal) -> nat {
    match v {
        FieldVal::Short(_) => 2,
        FieldVal::Int(_) => 4,
        FieldVal::UInt(_) => 4,
        FieldVal::Long(_) => 8,
        FieldVal::Text(s) => 4 + utf8_len(s),
        FieldVal::Unsupported => 0,
    }
}

/// The bytes an entry takes on the wire: name length, name, type tag, value.
pub open spec fn entry_bytes(k: Seq<char>, v: FieldVal) -> nat {
    2 + utf8_len(k) + value_bytes(v)
}

/// An upper bound of `entry_bytes` for the entries of fixed shape that the `x-*` setters
/// write.
pub open spec fn fixed_entry_bytes() -> nat {
    64
}

/// A table's `u32` byte count has room for `extra` more bytes.
pub open spec fn has_room(t: FieldTable, extra: nat) -> bool {
    table_byte_len(t) + extra <= u32::MAX
}

/// An ASCII text takes one byte per character.
pub proof fn lemma_ascii_len(s: Seq<char>)
    requires
        is_ascii_chars(s),
    ensures
        utf8_len(s) == s.len(),
{
    is_ascii_chars_encode_utf8(s);
}

// ------------------------------------------------------------------------------------------------
// trusted items over amqprs' FieldTable
// ------------------------------------------------------------------------------------------------

#[verifier::external_type_specification]
#[verifier::external_body]
pub struct ExFieldTable(FieldTable);

/// The entries of a field table: header name to value.
pub uninterp spec fn table_entries(t: FieldTable) -> Map<Seq<char>, FieldVal>;

/// The table's own running byte count, the `u32` that goes on the wire before its entries.
pub uninterp spec fn table_byte_len(t: FieldTable) -> nat;

/// Relies on `FieldTable::new` (amqp_serde, re-exported by amqprs): no entries, a byte
/// count of 0.
pub assume_specification[ FieldTable::new ]() -> (r: FieldTable)
    ensures
        table_entries(r) =~= Map::empty(),
        table_byte_len(r) == 0,
;

/// Relies on `FieldTable`'s derived `Clone`, which clones its count and its map.
#[verifier::external_body]
pub(crate) fn table_clone(t: &FieldTable) -> (r: FieldTable)
    ensures
        table_entries(r) == table_entries(*t),
        table_byte_len(r) == table_byte_len(*t),
{
    t.clone()
}

/// Relies on `FieldTable::get`, a lookup in the table's map, and on `ShortStr::try_from`,
/// which refuses a name of more than 255 bytes: no table holds such a name, since its
/// keys are short strings. The value is told apart by its AMQP type.
#[verifier::external_body]
pub(crate) fn table_get(t: &FieldTable, key: &str) -> (r: Option<HeaderValue>)
    ensures
        r is None <==> !table_entries(*t).contains_key(key@),
        r is Some ==> r->0@ == table_entries(*t)[key@],
{
    let name = match FieldName::try_from(key) {
        Ok(n) => n,
        Err(_) => return None,
    };
    match t.get(&name) {
        None => None,
        Some(FieldValue::s(v)) => Some(HeaderValue::Short(*v)),
        Some(FieldValue::I(v)) => Some(HeaderValue::Int(*v)),
        Some(FieldValue::i(v)) => Some(HeaderValue::UInt(*v)),
        Some(FieldValue::l(v)) => Some(HeaderValue::Long(*v)),
        Some(FieldValue::S(s)) => Some(HeaderValue::Text(s.as_ref().clone())),
        Some(_) => Some(HeaderValue::Unsupported),
    }
}

/// Relies on `FieldTable::remove`: the entry under `key` leaves the map and its wire size
/// (`2 + name bytes + value size`, as `FieldValue::len` counts it) leaves the byte count.
/// A name of more than 255 bytes is in no table.
#[verifier::external_body]
pub(crate) fn table_remove(t: &mut FieldTable, key: &str)
    ensures
        table_entries(*final(t)) == table_entries(*old(t)).remove(key@),
        table_byte_len(*final(t)) <= table_byte_len(*old(t)),
        !table_entries(*old(t)).contains_key(key@) ==> table_byte_len(*final(t))
            == table_byte_len(*old(t)),
        (table_entries(*old(t)).contains_key(key@) && !(table_entries(*old(t))[key@] is Unsupported))
            ==> table_byte_len(*final(t)) + entry_bytes(key@, table_entries(*old(t))[key@])
            == table_byte_len(*old(t)),
{
    if let Ok(name) = FieldName::try_from(key) {
        t.remove(&name);
    }
}

/// Relies on `FieldTable::insert` and on `ShortStr::try_from`, which accepts a name of at
/// most 255 bytes: `false`, with the table unchanged, when the name is longer. `insert`
/// adds the entry's wire size to the `u32` byte count (through `LongUint::try_from(..)
/// .unwrap()` and `+=`); `requires` leaves room for it. A text value becomes a long string
/// through `From<String> for FieldValue`, which unwraps `LongStr::try_from` (at most
/// `u32::MAX` bytes): `writable` keeps it within that.
#[verifier::external_body]
pub(crate) fn table_insert(t: &mut FieldTable, key: &str, v: HeaderValue) -> (r: bool)
    requires
        writable(v@),
        has_room(*old(t), entry_bytes(key@, v@)),
    ensures
        r == short_name(key@),
        r ==> table_entries(*final(t)) == table_entries(*old(t)).insert(key@, v@),
        r ==> table_byte_len(*final(t)) == table_byte_len(*old(t)) + entry_bytes(key@, v@),
        !r ==> table_entries(*final(t)) == table_entries(*old(t)),
        !r ==> table_byte_len(*final(t)) == table_byte_len(*old(t)),
{
    let name = match FieldName::try_from(key) {
        Ok(n) => n,
        Err(_) => return false,
    };
    let value = match v {
        HeaderValue::Short(x) => FieldValue::s(x),
        HeaderValue::Int(x) => FieldValue::I(x),
        HeaderValue::UInt(x) => FieldValue::i(x),
        HeaderValue::Long(x) => FieldValue::l(x),
        HeaderValue::Text(s) => FieldValue::from(s),
        HeaderValue::Unsupported => FieldValue::V,
    };
    t.insert(name, value);
    true
}

// ------------------------------------------------------------------------------------------------
// writing one entry
// ------------------------------------------------------------------------------------------------

/// Sets `key` to `v`, removing any earlier entry first so that the table's byte count
/// stays that of its entries.
pub fn put(t: &mut FieldTable, key: &str, v: HeaderValue) -> (r: bool)
    requires
        writable(v@),
        has_room(*old(t), entry_bytes(key@, v@)),
    ensures
        r == short_name(key@),
        r ==> table_entries(*final(t)) == table_entries(*old(t)).insert(key@, v@),
        !r ==> table_entries(*final(t)) == table_entries(*old(t)).remove(key@),
        table_byte_len(*final(t)) <= table_byte_len(*old(t)) + entry_bytes(key@, v@),
        (table_entries(*old(t)).contains_key(key@) && !(table_entries(*old(t))[key@] is Unsupported))
            ==> table_byte_len(*final(t)) + entry_bytes(key@, table_entries(*old(t))[key@])
            <= table_byte_len(*old(t)) + entry_bytes(key@, v@),
        !table_entries(*old(t)).contains_key(key@) ==> table_byte_len(*final(t))
            <= table_byte_len(*old(t)) + entry_bytes(key@, v@),
{
    table_remove(t, key);
    let ok = table_insert(t, key, v);
    proof {
        if ok {
            assert(table_entries(*t) =~= table_entries(*old(t)).insert(key@, v@));
        }
    }
    ok
}

// ------------------------------------------------------------------------------------------------
// small string helpers
// ------------------------------------------------------------------------------------------------

/// Whether two strings hold the same characters.
pub fn same_text(a: &str, b: &str) -> (r: bool)
    ensures
        r == (a@ == b@),
{
    let x = a.to_owned();
    let y = b.to_owned();
    x == y
}

// ------------------------------------------------------------------------------------------------
// MatchType
// ------------------------------------------------------------------------------------------------

/// How a header exchange matches a binding's pairs: any of them, or all of them.
#[derive(Debug, Clone, Copy, PartialEq, Eq, Structural)]
pub enum MatchType {
    Any,
    All,
}

/// The wire text of a match type.
pub open spec fn match_text(t: MatchType) -> Seq<char> {
    match t {
        MatchType::Any => "any"@,
        MatchType::All => "all"@,
    }
}

/// `any` and `all` name the two match types; any other text is of the wrong kind.
pub open spec fn parse_match(s: Seq<char>) -> Result<MatchType, HeaderError> {
    if s == "any"@ {
        Ok(MatchType::Any)
    } else if s == "all"@ {
        Ok(MatchType::All)
    } else {
        Err(HeaderError::WrongType)
    }
}

impl MatchType {
    /// `"any"` or `"all"`.
    pub fn to_string(&self) -> (r: String)
        ensures
            r@ == match_text(*self),
    {
        match self {
            MatchType::Any => "any".to_owned(),
            MatchType::All => "all".to_owned(),
        }
    }

    /// Reads `"any"` or `"all"`; any other text is an error.
    pub fn from_str(s: &str) -> (r: Result<MatchType, HeaderError>)
        ensures
            r == parse_match(s@),
    {
        proof {
            reveal_strlit("any");
            reveal_strlit("all");
            assert("any"@[1] != "all"@[1]);
        }
        if same_text(s, "any") {
            Ok(MatchType::Any)
        } else if same_text(s, "all") {
            Ok(MatchType::All)
        } else {
            Err(HeaderError::WrongType)
        }
    }
}

// ------------------------------------------------------------------------------------------------
// ExchangeKind
// ------------------------------------------------------------------------------------------------

/// The kinds of exchange that the topology declares.
#[derive(Debug, Clone, Copy, PartialEq, Eq, Structural)]
pub enum ExchangeKind {
    Direct,
    Fanout,
    Topic,
    Headers,
    /// the delayed-message plugin's exchange
    DelayedMessage,
}

/// The wire name of an exchange kind.
pub open spec fn kind_text(k: ExchangeKind) -> Seq<char> {
    match k {
        ExchangeKind::Direct => "direct"@,
        ExchangeKind::Fanout => "fanout"@,
        ExchangeKind::Topic => "topic"@,
        ExchangeKind::Headers => "headers"@,
        ExchangeKind::DelayedMessage => "x-delayed-message"@,
    }
}

impl ExchangeKind {
    /// The name the broker knows this kind by.
    pub fn to_string(&self) -> (r: String)
        ensures
            r@ == kind_text(*self),
    {
        match self {
            ExchangeKind::Direct => "direct".to_owned(),
            ExchangeKind::Fanout => "fanout".to_owned(),
            ExchangeKind::Topic => "topic".to_owned(),
            ExchangeKind::Headers => "headers".to_owned(),
            ExchangeKind::DelayedMessage => "x-delayed-message".to_owned(),
        }
    }
}

// ------------------------------------------------------------------------------------------------
// HeaderError
// ------------------------------------------------------------------------------------------------

/// Why a header could not be read.
#[derive(Debug, Clone, Copy, PartialEq, Eq, Structural)]
pub enum HeaderError {
    /// no entry under the name
    Missing,
    /// an entry of another AMQP type, or text that is not one of the allowed words
    WrongType,
}

// ------------------------------------------------------------------------------------------------
// FieldTableBuilder
// ------------------------------------------------------------------------------------------------

/// Fluent writer of the `x-*` headers.
pub struct FieldTableBuilder(pub FieldTable);

impl View for FieldTableBuilder {
    type V = Map<Seq<char>, FieldVal>;

    open spec fn view(&self) -> Map<Seq<char>, FieldVal> {
        table_entries(self.0)
    }
}

/// The names the `x-*` setters write are ASCII, short, and differ from one another.
pub proof fn lemma_header_names()
    ensures
        utf8_len(X_DELAYED_TYPE@) == 14,
        utf8_len(X_DELAY@) == 7,
        utf8_len(X_RETRIES@) == 9,
        utf8_len(X_MATCH@) == 7,
        utf8_len(X_MESSAGE_TTL@) == 13,
        utf8_len(X_CONSUME_TTL@) == 13,
        utf8_len(X_DEAD_LETTER_EXCHANGE@) == 22,
        utf8_len(X_DEAD_ROUTING_KEY@) == 18,
        utf8_len(X_PRIORITY@) == 10,
        utf8_len(X_CONSUMER_TIMEOUT@) == 18,
        utf8_len("any"@) == 3,
        utf8_len("all"@) == 3,
{
    reveal_strlit("x-delayed-type");
    reveal_strlit("x-delay");
    reveal_strlit("x-retries");
    reveal_strlit("x-match");
    reveal_strlit("x-message-ttl");
    reveal_strlit("x-consume-ttl");
    reveal_strlit("x-dead-letter-exchange");
    reveal_strlit("x-dead-routing-key");
    reveal_strlit("x-priority");
    reveal_strlit("x-consumer-timeout");
    reveal_strlit("any");
    reveal_strlit("all");
    lemma_ascii_len(X_DELAYED_TYPE@);
    lemma_ascii_len(X_DELAY@);
    lemma_ascii_len(X_RETRIES@);
    lemma_ascii_len(X_MATCH@);
    lemma_ascii_len(X_MESSAGE_TTL@);
    lemma_ascii_len(X_CONSUME_TTL@);
    lemma_ascii_len(X_DEAD_LETTER_EXCHANGE@);
    lemma_ascii_len(X_DEAD_ROUTING_KEY@);
    lemma_ascii_len(X_PRIORITY@);
    lemma_ascii_len(X_CONSUMER_TIMEOUT@);
    lemma_ascii_len("any"@);
    lemma_ascii_len("all"@);
}

/// The wire names of exchange kinds are ASCII and at most 17 bytes.
pub proof fn lemma_kind_text_len(k: ExchangeKind)
    ensures
        utf8_len(kind_text(k)) <= 17,
{
    reveal_strlit("direct");
    reveal_strlit("fanout");
    reveal_strlit("topic");
    reveal_strlit("headers");
    reveal_strlit("x-delayed-message");
    lemma_ascii_len(kind_text(k));
}

impl FieldTableBuilder {
    /// The byte count of the table written so far.
    pub open spec fn byte_len(&self) -> nat {
        table_byte_len(self.0)
    }

    /// An empty table.
    pub fn new() -> (r: FieldTableBuilder)
        ensures
            r@ == Map::<Seq<char>, FieldVal>::empty(),
            r.byte_len() == 0,
    {
        FieldTableBuilder(FieldTable::new())
    }

    /// Starts from the entries of `ft`.
    pub fn from_table(ft: FieldTable) -> (r: FieldTableBuilder)
        ensures
            r@ == table_entries(ft),
            r.byte_len() == table_byte_len(ft),
    {
        FieldTableBuilder(ft)
    }

    /// Starts from a copy of `ft`, or from an empty table.
    pub fn from_optional(ft: Option<&FieldTable>) -> (r: FieldTableBuilder)
        ensures
            ft is Some ==> r@ == table_entries(*ft->0) && r.byte_len() == table_byte_len(*ft->0),
            ft is None ==> r@ == Map::<Seq<char>, FieldVal>::empty() && r.byte_len() == 0,
    {
        match ft {
            Some(t) => FieldTableBuilder(table_clone(t)),
            None => FieldTableBuilder::new(),
        }
    }

    /// The table written so far.
    pub fn finish(self) -> (r: FieldTable)
        ensures
            table_entries(r) == self@,
            table_byte_len(r) == self.byte_len(),
    {
        self.0
    }

    /// Sets the string pair `key: value`. `false`, with `key` then absent, when the name
    /// does not fit an AMQP short string (255 bytes).
    pub fn x_common_pair(&mut self, key: &str, value: &str) -> (r: bool)
        requires
            has_room(old(self).0, entry_bytes(key@, FieldVal::Text(value@))),
        ensures
            r == short_name(key@),
            r ==> final(self)@ == old(self)@.insert(key@, FieldVal::Text(value@)),
            !r ==> final(self)@ == old(self)@.remove(key@),
            final(self).byte_len() <= old(self).byte_len() + entry_bytes(
                key@,
                FieldVal::Text(value@),
            ),
    {
        put(&mut self.0, key, HeaderValue::Text(value.to_owned()))
    }

    /// `x-delayed-type`: the routing kind behind a delayed exchange.
    pub fn x_delayed_type(&mut self, kind: &ExchangeKind)
        requires
            has_room(old(self).0, fixed_entry_bytes()),
        ensures
            final(self)@ == old(self)@.insert(X_DELAYED_TYPE@, FieldVal::Text(kind_text(*kind))),
            final(self).byte_len() <= old(self).byte_len() + fixed_entry_bytes(),
    {
        proof {
            lemma_header_names();
            lemma_kind_text_len(*kind);
        }
        let text = kind.to_string();
        put(&mut self.0, X_DELAYED_TYPE, HeaderValue::Text(text));
    }

    /// `x-delay`, in milliseconds.
    pub fn x_delay(&mut self, delay: i32)
        requires
            has_room(old(self).0, fixed_entry_bytes()),
        ensures
            final(self)@ == old(self)@.insert(X_DELAY@, FieldVal::Int(delay)),
            final(self).byte_len() <= old(self).byte_len() + fixed_entry_bytes(),
    {
        proof {
            lemma_header_names();
        }
        put(&mut self.0, X_DELAY, HeaderValue::Int(delay));
    }

    /// `x-retries`: the remaining retry budget.
    pub fn x_retries(&mut self, retries: i16)
        requires
            has_room(old(self).0, fixed_entry_bytes()),
        ensures
            final(self)@ == old(self)@.insert(X_RETRIES@, FieldVal::Short(retries)),
            final(self).byte_len() <= old(self).byte_len() + fixed_entry_bytes(),
            (old(self)@.contains_key(X_RETRIES@) && old(self)@[X_RETRIES@] is Short)
                ==> final(self).byte_len() <= old(self).byte_len(),
    {
        proof {
            lemma_header_names();
        }
        put(&mut self.0, X_RETRIES, HeaderValue::Short(retries));
    }

    /// `x-match`: `any` or `all`.
    pub fn x_match(&mut self, t: &MatchType)
        requires
            has_room(old(self).0, fixed_entry_bytes()),
        ensures
            final(self)@ == old(self)@.insert(X_MATCH@, FieldVal::Text(match_text(*t))),
            final(self).byte_len() <= old(self).byte_len() + fixed_entry_bytes(),
    {
        proof {
            lemma_header_names();
        }
        let text = t.to_string();
        put(&mut self.0, X_MATCH, HeaderValue::Text(text));
    }

    /// `x-message-ttl`, in milliseconds.
    pub fn x_message_ttl(&mut self, ttl: i64)
        requires
            has_room(old(self).0, fixed_entry_bytes()),
        ensures
            final(self)@ == old(self)@.insert(X_MESSAGE_TTL@, FieldVal::Long(ttl)),
            final(self).byte_len() <= old(self).byte_len() + fixed_entry_bytes(),
    {
        proof {
            lemma_header_names();
        }
        put(&mut self.0, X_MESSAGE_TTL, HeaderValue::Long(ttl));
    }

    /// `x-consume-ttl`, in milliseconds.
    pub fn x_consume_ttl(&mut self, ttl: i64)
        requires
            has_room(old(self).0, fixed_entry_bytes()),
        ensures
            final(self)@ == old(self)@.insert(X_CONSUME_TTL@, FieldVal::Long(ttl)),
            final(self).byte_len() <= old(self).byte_len() + fixed_entry_bytes(),
    {
        proof {
            lemma_header_names();
        }
        put(&mut self.0, X_CONSUME_TTL, HeaderValue::Long(ttl));
    }

    /// `x-dead-letter-exchange` and `x-dead-routing-key`.
    pub fn x_dead_letter_exchange(&mut self, exchange_name: &str, routing_key: &str)
        requires
            has_room(
                old(self).0,
                2 * fixed_entry_bytes() + utf8_len(exchange_name@) + utf8_len(routing_key@),
            ),
        ensures
            final(self)@ == old(self)@.insert(
                X_DEAD_LETTER_EXCHANGE@,
                FieldVal::Text(exchange_name@),
            ).insert(X_DEAD_ROUTING_KEY@, FieldVal::Text(routing_key@)),
            final(self).byte_len() <= old(self).byte_len() + 2 * fixed_entry_bytes() + utf8_len(
                exchange_name@,
            ) + utf8_len(routing_key@),
    {
        proof {
            lemma_header_names();
        }
        put(&mut self.0, X_DEAD_LETTER_EXCHANGE, HeaderValue::Text(exchange_name.to_owned()));
        put(&mut self.0, X_DEAD_ROUTING_KEY, HeaderValue::Text(routing_key.to_owned()));
    }
}

// ------------------------------------------------------------------------------------------------
// FieldTableViewer
// ------------------------------------------------------------------------------------------------

/// What reading `key` as a value of the kind that `pick` selects gives.
pub open spec fn read_entry<T>(
    m: Map<Seq<char>, FieldVal>,
    key: Seq<char>,
    pick: spec_fn(FieldVal) -> Option<T>,
) -> Result<T, HeaderError> {
    if !m.contains_key(key) {
        Err(HeaderError::Missing)
    } else {
        match pick(m[key]) {
            Some(v) => Ok(v),
            None => Err(HeaderError::WrongType),
        }
    }
}

pub open spec fn as_short(v: FieldVal) -> Option<i16> {
    match v {
        FieldVal::Short(x) => Some(x),
        _ => None,
    }
}

pub open spec fn as_int(v: FieldVal) -> Option<i32> {
    match v {
        FieldVal::Int(x) => Some(x),
        _ => None,
    }
}

pub open spec fn as_long(v: FieldVal) -> Option<i64> {
    match v {
        FieldVal::Long(x) => Some(x),
        _ => None,
    }
}

pub open spec fn as_text(v: FieldVal) -> Option<Seq<char>> {
    match v {
        FieldVal::Text(s) => Some(s),
        _ => None,
    }
}

pub open spec fn as_match(v: FieldVal) -> Option<MatchType> {
    match v {
        FieldVal::Text(s) => match parse_match(s) {
            Ok(t) => Some(t),
            Err(_) => None,
        },
        _ => None,
    }
}

/// Typed reader of the `x-*` headers.
pub struct FieldTableViewer<'a>(pub &'a FieldTable);

impl<'a> View for FieldTableViewer<'a> {
    type V = Map<Seq<char>, FieldVal>;

    open spec fn view(&self) -> Map<Seq<char>, FieldVal> {
        table_entries(*self.0)
    }
}

impl<'a> FieldTableViewer<'a> {
    pub fn new(ft: &'a FieldTable) -> (r: FieldTableViewer<'a>)
        ensures
            r@ == table_entries(*ft),
    {
        FieldTableViewer(ft)
    }

    /// The string under `key`.
    pub fn x_common_pair(&self, key: &str) -> (r: Result<String, HeaderError>)
        ensures
            r is Ok <==> read_entry(self@, key@, |v| as_text(v)) is Ok,
            r is Ok ==> Ok::<Seq<char>, HeaderError>(r->Ok_0@) == read_entry(self@, key@, |v| as_text(v)),
            r is Err ==> r->Err_0 == read_entry(self@, key@, |v| as_text(v))->Err_0,
    {
        match table_get(self.0, key) {
            None => Err(HeaderError::Missing),
            Some(HeaderValue::Text(s)) => Ok(s),
            Some(_) => Err(HeaderError::WrongType),
        }
    }

    /// `x-delay`, in milliseconds.
    pub fn x_delay(&self) -> (r: Result<i32, HeaderError>)
        ensures
            r == read_entry(self@, X_DELAY@, |v| as_int(v)),
    {
        match table_get(self.0, X_DELAY) {
            None => Err(HeaderError::Missing),
            Some(HeaderValue::Int(d)) => Ok(d),
            Some(_) => Err(HeaderError::WrongType),
        }
    }

    /// `x-retries`.
    pub fn x_retries(&self) -> (r: Result<i16, HeaderError>)
        ensures
            r == read_entry(self@, X_RETRIES@, |v| as_short(v)),
    {
        match table_get(self.0, X_RETRIES) {
            None => Err(HeaderError::Missing),
            Some(HeaderValue::Short(n)) => Ok(n),
            Some(_) => Err(HeaderError::WrongType),
        }
    }

    /// `x-match`, which must read `any` or `all`.
    pub fn x_match(&self) -> (r: Result<MatchType, HeaderError>)
        ensures
            r == read_entry(self@, X_MATCH@, |v| as_match(v)),
    {
        match table_get(self.0, X_MATCH) {
            None => Err(HeaderError::Missing),
            Some(HeaderValue::Text(s)) => MatchType::from_str(s.as_str()),
            Some(_) => Err(HeaderError::WrongType),
        }
    }

    /// `x-message-ttl`, in milliseconds.
    pub fn x_message_ttl(&self) -> (r: Result<i64, HeaderError>)
        ensures
            r == read_entry(self@, X_MESSAGE_TTL@, |v| as_long(v)),
    {
        match table_get(self.0, X_MESSAGE_TTL) {
            None => Err(HeaderError::Missing),
            Some(HeaderValue::Long(t)) => Ok(t),
            Some(_) => Err(HeaderError::WrongType),
        }
    }

    /// `x-consume-ttl`, in milliseconds.
    pub fn x_consume_ttl(&self) -> (r: Result<i64, HeaderError>)
        ensures
            r == read_entry(self@, X_CONSUME_TTL@, |v| as_long(v)),
    {
        match table_get(self.0, X_CONSUME_TTL) {
            None => Err(HeaderError::Missing),
            Some(HeaderValue::Long(t)) => Ok(t),
            Some(_) => Err(HeaderError::WrongType),
        }
    }

    /// `x-dead-letter-exchange` and `x-dead-routing-key`; the first failure wins.
    pub fn x_dead_letter_exchange(&self) -> (r: Result<(String, String), HeaderError>)
        ensures
            ({
                let e = read_entry(self@, X_DEAD_LETTER_EXCHANGE@, |v| as_text(v));
                let k = read_entry(self@, X_DEAD_ROUTING_KEY@, |v| as_text(v));
                &&& r is Ok <==> (e is Ok && k is Ok)
                &&& r is Ok ==> (r->Ok_0.0@ == e->Ok_0 && r->Ok_0.1@ == k->Ok_0)
                &&& e is Err ==> r == Err::<(String, String), HeaderError>(e->Err_0)
                &&& (e is Ok && k is Err) ==> r == Err::<(String, String), HeaderError>(k->Err_0)
            }),
    {
        let exchange_name = match self.x_common_pair(X_DEAD_LETTER_EXCHANGE) {
            Ok(s) => s,
            Err(e) => return Err(e),
        };
        let routing_key = match self.x_common_pair(X_DEAD_ROUTING_KEY) {
            Ok(s) => s,
            Err(e) => return Err(e),
        };
        Ok((exchange_name, routing_key))
    }
}

} // verus!
