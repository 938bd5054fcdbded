//! The complete record delivered to application code and its timestamp and
//! header views.

use vstd::prelude::*;
use vstd::string::StringExecFns;

use crate::text::{push_decimal, push_signed_decimal, push_str_debug};

verus! {

// ---------------------------------------------------------------------------
// Timestamp
// ---------------------------------------------------------------------------

/// A record's timestamp and how it was set: one enum carries the instant and
/// its kind, so there is no separate "type" field to juggle. Milliseconds
/// since the Unix epoch (the Kafka wire resolution); the named `millis` field
/// keeps the unit visible at match sites.
#[derive(Debug, Clone, Copy, PartialEq, Eq)]
pub enum Timestamp {
    /// The record carried no usable timestamp.
    NotAvailable,
    /// Producer-assigned event time.
    CreateTime {
        /// Milliseconds since the Unix epoch.
        millis: i64,
    },
    /// Broker-assigned ingestion time.
    LogAppendTime {
        /// Milliseconds since the Unix epoch.
        millis: i64,
    },
}

impl Timestamp {
    /// The millisecond value if either kind is present, else `None`.
    pub fn millis(self) -> (m: Option<i64>)
        ensures
            m == match self {
                Timestamp::NotAvailable => None::<i64>,
                Timestamp::CreateTime { millis } => Some(millis),
                Timestamp::LogAppendTime { millis } => Some(millis),
            },
    {
        match self {
            Timestamp::NotAvailable => None,
            Timestamp::CreateTime { millis } => Some(millis),
            Timestamp::LogAppendTime { millis } => Some(millis),
        }
    }
}

// ---------------------------------------------------------------------------
// Headers: an ordered, borrowed view. Kafka headers are a LIST, not a map:
// keys may repeat and order is preserved (tracing systems depend on it), and
// values are nullable. So they are never collapsed into a map.
// ---------------------------------------------------------------------------

/// One header: a UTF-8 key and an optional (nullable) byte value.
#[derive(Debug, Clone, Copy)]
pub struct Header<'a> {
    /// Header key.
    pub key: &'a str,
    /// Header value, or `None` for a null-valued header.
    pub value: Option<&'a [u8]>,
}

/// The first header in `entries` whose key is `key`, if any.
pub open spec fn first_with_key<'a>(entries: Seq<Header<'a>>, key: Seq<char>) -> Option<Header<'a>>
    decreases entries.len(),
{
    if entries.len() == 0 {
        None
    } else if entries[0].key@ == key {
        Some(entries[0])
    } else {
        first_with_key(entries.drop_first(), key)
    }
}

/// `str` equality: true exactly when both strings hold the same characters.
#[verifier::external_body]
fn str_eq(a: &str, b: &str) -> (eq: bool)
    ensures
        eq == (a@ == b@),
{
    a == b
}

/// Ordered, borrowed view over a record's headers.
#[derive(Clone, Copy)]
pub struct Headers<'a> {
    entries: &'a [Header<'a>],
}

impl<'a> View for Headers<'a> {
    type V = Seq<Header<'a>>;

    /// The headers in wire order, duplicates included.
    closed spec fn view(&self) -> Seq<Header<'a>> {
        self.entries@
    }
}

impl<'a> Headers<'a> {
    /// Wrap a borrowed header slice (the binding assembles this per message).
    pub fn from_slice(entries: &'a [Header<'a>]) -> (h: Self)
        ensures
            h@ == entries@,
    {
        Headers { entries }
    }

    /// Number of headers (duplicates counted separately).
    pub fn len(&self) -> (n: usize)
        ensures
            n == self@.len(),
    {
        self.entries.len()
    }

    /// Whether there are no headers.
    pub fn is_empty(&self) -> (b: bool)
        ensures
            b == (self@.len() == 0),
    {
        self.entries.len() == 0
    }

    /// The header at `index` in wire order.
    pub fn get(&self, index: usize) -> (h: Option<Header<'a>>)
        ensures
            h == if index < self@.len() {
                Some(self@[index as int])
            } else {
                None::<Header<'a>>
            },
    {
        if index < self.entries.len() {
            Some(self.entries[index])
        } else {
            None
        }
    }

    /// The first header matching `key` (headers may repeat; matches the usual
    /// Kafka-client "first wins" convention).
    pub fn find(&self, key: &str) -> (h: Option<Header<'a>>)
        ensures
            h == first_with_key(self@, key@),
    {
        let n = self.entries.len();
        let mut i: usize = 0;
        assert(self.entries@.subrange(0, n as int) =~= self.entries@);
        while i < n
            invariant
                n == self.entries@.len(),
                i <= n,
                first_with_key(self.entries@, key@) == first_with_key(
                    self.entries@.subrange(i as int, n as int),
                    key@,
                ),
            decreases n - i,
        {
            let ghost rest = self.entries@.subrange(i as int, n as int);
            assert(rest.drop_first() =~= self.entries@.subrange(i + 1, n as int));
            let h = self.entries[i];
            if str_eq(h.key, key) {
                return Some(h);
            }
            i = i + 1;
        }
        assert(self.entries@.subrange(n as int, n as int).len() == 0);
        None
    }

    /// Iterate headers in wire order, each header by value.
    pub fn iter(&self) -> (it: std::vec::IntoIter<Header<'a>>)
        ensures
            vstd::std_specs::iter::IteratorSpec::remaining(&it) == self@,
    {
        let n = self.entries.len();
        let mut copies: Vec<Header<'a>> = Vec::new();
        let mut i: usize = 0;
        while i < n
            invariant
                n == self.entries@.len(),
                i <= n,
                copies@ == self.entries@.subrange(0, i as int),
            decreases n - i,
        {
            copies.push(self.entries[i]);
            i = i + 1;
            assert(copies@ =~= self.entries@.subrange(0, i as int));
        }
        assert(copies@ =~= self.entries@);
        proof {
            vstd::std_specs::vec::axiom_spec_into_iter(copies);
        }
        copies.into_iter()
    }
}

/// "First wins": when the header at `i` has the key and no earlier header
/// does, the lookup yields exactly that header; and the lookup finds nothing
/// exactly when no header has the key.
pub proof fn lemma_find_first_wins<'a>(entries: Seq<Header<'a>>, key: Seq<char>, i: int)
    ensures
        0 <= i < entries.len() && entries[i].key@ == key && (forall|j: int|
            0 <= j < i ==> entries[j].key@ != key) ==> first_with_key(entries, key) == Some(
            entries[i],
        ),
        first_with_key(entries, key) is None <==> (forall|j: int|
            0 <= j < entries.len() ==> entries[j].key@ != key),
        first_with_key(entries, key) matches Some(h) ==> h.key@ == key,
    decreases entries.len(),
{
    if entries.len() > 0 {
        let rest = entries.drop_first();
        lemma_find_first_wins(rest, key, i - 1);
        if 0 <= i < entries.len() && entries[i].key@ == key && (forall|j: int|
            0 <= j < i ==> entries[j].key@ != key) && i > 0 {
            assert(entries[0].key@ != key);
            assert(rest[i - 1] == entries[i]);
            assert forall|j: int| 0 <= j < i - 1 implies rest[j].key@ != key by {
                assert(rest[j] == entries[j + 1]);
            }
        }
        if first_with_key(entries, key) is None {
            assert forall|j: int| 0 <= j < entries.len() implies entries[j].key@ != key by {
                if j > 0 {
                    assert(rest[j - 1] == entries[j]);
                }
            }
        }
        if (forall|j: int| 0 <= j < entries.len() ==> entries[j].key@ != key) {
            assert(entries[0].key@ != key);
            assert forall|j: int| 0 <= j < rest.len() implies rest[j].key@ != key by {
                assert(rest[j] == entries[j + 1]);
            }
        }
    }
}

// ---------------------------------------------------------------------------
// Message
//
// Fields are declared hot to cold: key/value/headers/offset/partition first,
// timestamp and topic last. No C layout is requested, so the compiler is free
// to reorder them: the declaration order documents intent and does not pin
// which fields share a cache line. Fields are private so the layout stays an
// implementation detail.
// ---------------------------------------------------------------------------

/// `std::str::from_utf8`, keeping only success: the bytes read as a string
/// exactly when they are valid UTF-8, and the string then spans those very
/// bytes.
#[verifier::external_body]
fn utf8_str<'b>(bytes: &'b [u8]) -> (s: Option<&'b str>)
    ensures
        s is Some <==> vstd::utf8::valid_utf8(bytes@),
        s matches Some(t) ==> t@ == vstd::utf8::decode_utf8(bytes@) && vstd::string::StringSliceAdditionalSpecFns::spec_bytes(t) == bytes@,
{
    std::str::from_utf8(bytes).ok()
}

/// What a checked UTF-8 reading of optional bytes answers: `None` for absent
/// bytes or bytes that are not UTF-8, else the decoded text.
pub open spec fn utf8_reading(bytes: Option<&[u8]>, s: Option<&str>) -> bool {
    match bytes {
        None => s is None,
        Some(b) => (s is Some <==> vstd::utf8::valid_utf8(b@)) && (s matches Some(t) ==> t@ == vstd::utf8::decode_utf8(
            b@,
        ) && vstd::string::StringSliceAdditionalSpecFns::spec_bytes(t) == b@),
    }
}

/// The length of optional bytes, `None` when absent.
pub open spec fn opt_len(bytes: Option<&[u8]>) -> Option<usize> {
    match bytes {
        None => None,
        Some(b) => Some(b@.len() as usize),
    }
}

/// The `{:?}` rendering of an optional length: `None` or `Some(n)`.
pub open spec fn opt_len_text(len: Option<usize>) -> Seq<char> {
    match len {
        None => "None"@,
        Some(n) => "Some("@ + crate::text::decimal_text(n as nat) + ")"@,
    }
}

/// The `{:?}` rendering of a timestamp: the variant name, followed by its
/// `millis` field in braces when it has one.
pub open spec fn timestamp_text(t: Timestamp) -> Seq<char> {
    match t {
        Timestamp::NotAvailable => "NotAvailable"@,
        Timestamp::CreateTime { millis } => "CreateTime { millis: "@ + crate::text::signed_decimal_text(
            millis as int,
        ) + " }"@,
        Timestamp::LogAppendTime { millis } => "LogAppendTime { millis: "@ + crate::text::signed_decimal_text(
            millis as int,
        ) + " }"@,
    }
}

/// The redacted rendering of a message from its lengths and coordinates: a
/// struct named `Message` with these fields, in this order, each in its
/// `{:?}` form.
pub open spec fn message_debug_text(
    key_len: Option<usize>,
    value_len: Option<usize>,
    partition: i32,
    offset: i64,
    timestamp: Timestamp,
    header_count: usize,
    topic: Seq<char>,
) -> Seq<char> {
    "Message { key_len: "@ + opt_len_text(key_len) + ", value_len: "@ + opt_len_text(value_len)
        + ", partition: "@ + crate::text::signed_decimal_text(partition as int) + ", offset: "@
        + crate::text::signed_decimal_text(offset as int) + ", timestamp: "@ + timestamp_text(timestamp)
        + ", header_count: "@ + crate::text::decimal_text(header_count as nat) + ", topic: "@ + crate::text::quoted_text(
        topic,
    ) + " }"@
}

/// Appends the `{:?}` rendering of an optional length to `out`.
fn push_opt_len(out: &mut String, len: Option<usize>)
    ensures
        final(out)@ == old(out)@ + opt_len_text(len),
{
    match len {
        None => out.append("None"),
        Some(n) => {
            out.append("Some(");
            push_decimal(out, n as u64);
            out.append(")");
        },
    }
}

/// Appends the `{:?}` rendering of a timestamp to `out`.
fn push_timestamp(out: &mut String, t: Timestamp)
    ensures
        final(out)@ == old(out)@ + timestamp_text(t),
{
    match t {
        Timestamp::NotAvailable => out.append("NotAvailable"),
        Timestamp::CreateTime { millis } => {
            out.append("CreateTime { millis: ");
            push_signed_decimal(out, millis);
            out.append(" }");
        },
        Timestamp::LogAppendTime { millis } => {
            out.append("LogAppendTime { millis: ");
            push_signed_decimal(out, millis);
            out.append(" }");
        },
    }
}

/// The part of `s` between `prefix` and `suffix`, when `s` starts with the one
/// and ends with the other.
pub open spec fn between(s: Seq<char>, prefix: Seq<char>, suffix: Seq<char>) -> Option<Seq<char>> {
    if s.len() >= prefix.len() + suffix.len() && s.take(prefix.len() as int) == prefix && s.skip(
        s.len() - suffix.len(),
    ) == suffix {
        Some(s.subrange(prefix.len() as int, s.len() - suffix.len()))
    } else {
        None
    }
}

/// Reads a rendered optional length back: "None", or "Some(" and canonical
/// decimal digits and ")".
pub open spec fn read_opt_len(s: Seq<char>) -> Option<Option<nat>> {
    if s == "None"@ {
        Some(None)
    } else {
        match between(s, "Some("@, ")"@) {
            Some(digits) => match crate::text::read_decimal(digits) {
                Some(n) => Some(Some(n)),
                None => None,
            },
            None => None,
        }
    }
}

/// Reads a rendered millisecond field back, keeping it only when it fits the
/// field's type.
pub open spec fn read_millis(s: Seq<char>) -> Option<i64> {
    match crate::text::read_signed_decimal(s) {
        Some(v) => if i64::MIN <= v <= i64::MAX {
            Some(v as i64)
        } else {
            None
        },
        None => None,
    }
}

/// Reads a rendered timestamp back: "NotAvailable", or the kind's name with
/// its millisecond value in braces.
pub open spec fn read_timestamp(s: Seq<char>) -> Option<Timestamp> {
    if s == "NotAvailable"@ {
        Some(Timestamp::NotAvailable)
    } else if let Some(inner) = between(s, "CreateTime { millis: "@, " }"@) {
        match read_millis(inner) {
            Some(m) => Some(Timestamp::CreateTime { millis: m }),
            None => None,
        }
    } else if let Some(inner) = between(s, "LogAppendTime { millis: "@, " }"@) {
        match read_millis(inner) {
            Some(m) => Some(Timestamp::LogAppendTime { millis: m }),
            None => None,
        }
    } else {
        None
    }
}

proof fn lemma_between_concat(prefix: Seq<char>, mid: Seq<char>, suffix: Seq<char>)
    ensures
        between(prefix + mid + suffix, prefix, suffix) == Some(mid),
{
    let s = prefix + mid + suffix;
    assert(s.take(prefix.len() as int) =~= prefix);
    assert(s.skip(s.len() - suffix.len()) =~= suffix);
    assert(s.subrange(prefix.len() as int, s.len() - suffix.len()) =~= mid);
}

/// A rendered optional length reads back as the length it was rendered
/// from: the number between the parentheses is the full length.
pub proof fn lemma_opt_len_reads_back(len: Option<usize>)
    ensures
        read_opt_len(opt_len_text(len)) == match len {
            None => Some(None::<nat>),
            Some(n) => Some(Some(n as nat)),
        },
{
    reveal_strlit("None");
    reveal_strlit("Some(");
    reveal_strlit(")");
    if let Some(n) = len {
        let digits = crate::text::decimal_text(n as nat);
        crate::text::lemma_decimal_reads_back(n as nat);
        lemma_between_concat("Some("@, digits, ")"@);
        assert(opt_len_text(len).len() != 4);
    }
}

/// A rendered timestamp reads back as the timestamp it was rendered from:
/// same kind, same millisecond value.
pub proof fn lemma_timestamp_reads_back(t: Timestamp)
    ensures
        read_timestamp(timestamp_text(t)) == Some(t),
{
    reveal_strlit("NotAvailable");
    reveal_strlit("CreateTime { millis: ");
    reveal_strlit("LogAppendTime { millis: ");
    reveal_strlit(" }");
    match t {
        Timestamp::NotAvailable => {},
        Timestamp::CreateTime { millis } => {
            let digits = crate::text::signed_decimal_text(millis as int);
            crate::text::lemma_signed_decimal_reads_back(millis as int);
            lemma_between_concat("CreateTime { millis: "@, digits, " }"@);
            assert(timestamp_text(t) != "NotAvailable"@) by {
                assert(timestamp_text(t)[0] != "NotAvailable"@[0]);
            }
        },
        Timestamp::LogAppendTime { millis } => {
            let digits = crate::text::signed_decimal_text(millis as int);
            crate::text::lemma_signed_decimal_reads_back(millis as int);
            lemma_between_concat("LogAppendTime { millis: "@, digits, " }"@);
            assert(timestamp_text(t) != "NotAvailable"@) by {
                assert(timestamp_text(t)[0] != "NotAvailable"@[0]);
            }
            assert(between(timestamp_text(t), "CreateTime { millis: "@, " }"@) is None) by {
                assert(timestamp_text(t).take(21)[0] != "CreateTime { millis: "@[0]);
            }
        },
    }
}

/// A complete record delivered to the process callback.
///
/// Borrows all its data from the FFI boundary: valid only for the duration of
/// the callback invocation. Do not store references to the key, value, or
/// header slices beyond the callback return; copy out anything you keep
/// longer.
pub struct Message<'a> {
    key: Option<&'a [u8]>,
    value: Option<&'a [u8]>,
    headers: Headers<'a>,
    offset: i64,
    partition: i32,
    timestamp: Timestamp,
    topic: &'a str,
}

impl<'a> Message<'a> {
    /// The partition key bytes the message was built with.
    pub closed spec fn stored_key(&self) -> Option<&'a [u8]> {
        self.key
    }

    /// The value bytes the message was built with.
    pub closed spec fn stored_value(&self) -> Option<&'a [u8]> {
        self.value
    }

    /// The topic the message was built with.
    pub closed spec fn stored_topic(&self) -> &'a str {
        self.topic
    }

    /// The partition the message was built with.
    pub closed spec fn stored_partition(&self) -> i32 {
        self.partition
    }

    /// The offset the message was built with.
    pub closed spec fn stored_offset(&self) -> i64 {
        self.offset
    }

    /// The timestamp the message was built with.
    pub closed spec fn stored_timestamp(&self) -> Timestamp {
        self.timestamp
    }

    /// The headers the message was built with.
    pub closed spec fn stored_headers(&self) -> Headers<'a> {
        self.headers
    }

    /// The redacted debug text: lengths and coordinates, never contents.
    pub open spec fn debug_text(&self) -> Seq<char> {
        message_debug_text(
            opt_len(self.stored_key()),
            opt_len(self.stored_value()),
            self.stored_partition(),
            self.stored_offset(),
            self.stored_timestamp(),
            self.stored_headers()@.len() as usize,
            self.stored_topic()@,
        )
    }

    /// Assemble a message from its borrowed parts (binding layer, not app code).
    ///
    /// `key`/`value` are byte slices, so there is no UTF-8 precondition;
    /// [`key_str`](Self::key_str) does a checked conversion on demand.
    pub fn new(
        key: Option<&'a [u8]>,
        value: Option<&'a [u8]>,
        topic: &'a str,
        partition: i32,
        offset: i64,
        timestamp: Timestamp,
        headers: Headers<'a>,
    ) -> (m: Self)
        ensures
            m.stored_key() == key,
            m.stored_value() == value,
            m.stored_topic() == topic,
            m.stored_partition() == partition,
            m.stored_offset() == offset,
            m.stored_timestamp() == timestamp,
            m.stored_headers() == headers,
    {
        Message { key, value, headers, offset, partition, timestamp, topic }
    }

    /// Partition key bytes, or `None` for a keyless record.
    pub fn key(&self) -> (k: Option<&'a [u8]>)
        ensures
            k == self.stored_key(),
    {
        self.key
    }

    /// Partition key as a UTF-8 string, or `None` for a keyless or (in
    /// principle) non-UTF-8 key. The broker adapters deliver UTF-8-safe keys,
    /// so on adapter-delivered records this is always `Some`;
    /// [`key`](Self::key) has the raw bytes.
    pub fn key_str(&self) -> (s: Option<&'a str>)
        ensures
            utf8_reading(self.stored_key(), s),
    {
        match self.key {
            Some(k) => utf8_str(k),
            None => None,
        }
    }

    /// Record value (also called the payload), or `None` for a null value
    /// such as a tombstone.
    pub fn payload(&self) -> (v: Option<&'a [u8]>)
        ensures
            v == self.stored_value(),
    {
        self.value
    }

    /// Alias for [`payload`](Self::payload), matching the engine's naming.
    pub fn value(&self) -> (v: Option<&'a [u8]>)
        ensures
            v == self.stored_value(),
    {
        self.value
    }

    /// The value as a UTF-8 string, or `None` when it is null or not valid
    /// UTF-8 (values are frequently binary; use [`value`](Self::value) for the
    /// raw bytes).
    pub fn value_str(&self) -> (s: Option<&'a str>)
        ensures
            utf8_reading(self.stored_value(), s),
    {
        match self.value {
            Some(v) => utf8_str(v),
            None => None,
        }
    }

    /// The topic this record came from.
    pub fn topic(&self) -> (t: &'a str)
        ensures
            t == self.stored_topic(),
    {
        self.topic
    }

    /// Partition number.
    pub fn partition(&self) -> (p: i32)
        ensures
            p == self.stored_partition(),
    {
        self.partition
    }

    /// Offset within the partition.
    pub fn offset(&self) -> (o: i64)
        ensures
            o == self.stored_offset(),
    {
        self.offset
    }

    /// Record timestamp and its kind.
    pub fn timestamp(&self) -> (t: Timestamp)
        ensures
            t == self.stored_timestamp(),
    {
        self.timestamp
    }

    /// The record's headers, in wire order.
    pub fn headers(&self) -> (h: Headers<'a>)
        ensures
            h == self.stored_headers(),
    {
        self.headers
    }

    /// Redacted debug rendering: lengths and coordinates only. Keys are
    /// frequently PII and values can be large or binary, so contents are
    /// never printed.
    pub fn debug_string(&self) -> (s: String)
        ensures
            s@ == self.debug_text(),
    {
        let key_len = match self.key {
            Some(k) => Some(k.len()),
            None => None,
        };
        let value_len = match self.value {
            Some(v) => Some(v.len()),
            None => None,
        };
        let mut s = <String as StringExecFns>::from_str("Message { key_len: ");
        push_opt_len(&mut s, key_len);
        s.append(", value_len: ");
        push_opt_len(&mut s, value_len);
        s.append(", partition: ");
        push_signed_decimal(&mut s, self.partition as i64);
        s.append(", offset: ");
        push_signed_decimal(&mut s, self.offset);
        s.append(", timestamp: ");
        push_timestamp(&mut s, self.timestamp);
        s.append(", header_count: ");
        push_decimal(&mut s, self.headers.len() as u64);
        s.append(", topic: ");
        push_str_debug(&mut s, self.topic);
        s.append(" }");
        s
    }
}

/// Redaction: the debug text of a message depends on the lengths of its key
/// and value, never on their bytes. Two messages that differ only in the
/// contents of equally long keys and values render identically.
pub proof fn lemma_debug_ignores_contents<'a, 'b>(m1: Message<'a>, m2: Message<'b>)
    requires
        opt_len(m1.stored_key()) == opt_len(m2.stored_key()),
        opt_len(m1.stored_value()) == opt_len(m2.stored_value()),
        m1.stored_partition() == m2.stored_partition(),
        m1.stored_offset() == m2.stored_offset(),
        m1.stored_timestamp() == m2.stored_timestamp(),
        m1.stored_headers()@.len() == m2.stored_headers()@.len(),
        m1.stored_topic()@ == m2.stored_topic()@,
    ensures
        m1.debug_text() == m2.debug_text(),
{
}

/// The redacted debug text reads back field by field: it is the literal
/// frame `Message { key_len: .., value_len: .., partition: .., offset: ..,
/// timestamp: .., header_count: .., topic: .. }`, and the text in each slot
/// reads back as exactly what the message holds: the full byte length of the
/// key and of the value (or their absence), the partition, the offset, the
/// timestamp with its kind and milliseconds, and the number of headers. The
/// topic stands in double quotes, verbatim when it is plain printable ASCII
/// and in its `{:?}` form otherwise.
pub proof fn lemma_debug_text_reads_back<'a>(m: Message<'a>) -> (slots: (
    Seq<char>,
    Seq<char>,
    Seq<char>,
    Seq<char>,
    Seq<char>,
    Seq<char>,
    Seq<char>,
))
    ensures
        m.debug_text() == "Message { key_len: "@ + slots.0 + ", value_len: "@ + slots.1
            + ", partition: "@ + slots.2 + ", offset: "@ + slots.3 + ", timestamp: "@ + slots.4
            + ", header_count: "@ + slots.5 + ", topic: "@ + slots.6 + " }"@,
        read_opt_len(slots.0) == match m.stored_key() {
            None => Some(None::<nat>),
            Some(k) => Some(Some(k@.len())),
        },
        read_opt_len(slots.1) == match m.stored_value() {
            None => Some(None::<nat>),
            Some(v) => Some(Some(v@.len())),
        },
        crate::text::read_signed_decimal(slots.2) == Some(m.stored_partition() as int),
        crate::text::read_signed_decimal(slots.3) == Some(m.stored_offset() as int),
        read_timestamp(slots.4) == Some(m.stored_timestamp()),
        crate::text::read_decimal(slots.5) == Some(m.stored_headers()@.len()),
        (forall|i: int|
            0 <= i < m.stored_topic()@.len() ==> crate::text::plain_debug_char(
                #[trigger] m.stored_topic()@[i],
            )) ==> slots.6 == seq!['"'] + m.stored_topic()@ + seq!['"'],
        !(forall|i: int|
            0 <= i < m.stored_topic()@.len() ==> crate::text::plain_debug_char(
                #[trigger] m.stored_topic()@[i],
            )) ==> slots.6 == crate::text::str_debug_text(m.stored_topic()@),
{
    let key_len = opt_len(m.stored_key());
    let value_len = opt_len(m.stored_value());
    let count = m.stored_headers()@.len() as usize;
    if let Some(k) = m.stored_key() {
        vstd::slice::axiom_spec_len(k);
    }
    if let Some(v) = m.stored_value() {
        vstd::slice::axiom_spec_len(v);
    }
    vstd::slice::axiom_spec_len(m.headers.entries);
    lemma_opt_len_reads_back(key_len);
    lemma_opt_len_reads_back(value_len);
    crate::text::lemma_signed_decimal_reads_back(m.stored_partition() as int);
    crate::text::lemma_signed_decimal_reads_back(m.stored_offset() as int);
    lemma_timestamp_reads_back(m.stored_timestamp());
    crate::text::lemma_decimal_reads_back(count as nat);
    (
        opt_len_text(key_len),
        opt_len_text(value_len),
        crate::text::signed_decimal_text(m.stored_partition() as int),
        crate::text::signed_decimal_text(m.stored_offset() as int),
        timestamp_text(m.stored_timestamp()),
        crate::text::decimal_text(count as nat),
        crate::text::quoted_text(m.stored_topic()@),
    )
}

/// Empty is not absent: the checked string reading of present bytes is
/// present exactly when they are UTF-8, so an empty key or value reads as
/// `Some("")`, while absent bytes always read as `None`.
pub proof fn lemma_empty_is_not_absent(b: &[u8], s: Option<&str>, t: Option<&str>)
    requires
        b@.len() == 0,
        utf8_reading(Some(b), s),
        utf8_reading(None, t),
    ensures
        s matches Some(x) && x@.len() == 0,
        t is None,
{
    assert(vstd::utf8::valid_utf8(b@));
    assert(vstd::utf8::decode_utf8(b@) =~= Seq::<char>::empty());
}

} // verus!
