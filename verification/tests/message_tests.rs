use llingr_nexus::{Header, Headers, Message, Timestamp};

/// Size and alignment of a message: two cache lines, pointer-aligned.
#[test]
fn message_cache_line_layout() {
    assert_eq!(std::mem::size_of::<Message>(), 96);
    assert_eq!(std::mem::align_of::<Message>(), 8);
}

/// Every accessor returns what new() was given, and the debug rendering
/// prints lengths and coordinates only: keys are frequently PII, values can
/// be binary.
#[test]
fn accessors_and_redacted_debug() {
    let headers = [
        Header {
            key: "trace-id",
            value: Some(b"abc123"),
        },
        Header {
            key: "content-type",
            value: Some(b"application/json"),
        },
    ];
    let msg = Message::new(
        Some(b"user-42"),
        Some(b"{\"amount\":100}"),
        "payments",
        3,
        9001,
        Timestamp::CreateTime {
            millis: 1_700_000_000_000,
        },
        Headers::from_slice(&headers),
    );

    assert_eq!(msg.key(), Some(&b"user-42"[..]));
    assert_eq!(msg.key_str(), Some("user-42"));
    assert_eq!(msg.payload(), msg.value());
    assert_eq!(msg.value_str(), Some("{\"amount\":100}"));
    assert_eq!(msg.topic(), "payments");
    assert_eq!(msg.partition(), 3);
    assert_eq!(msg.offset(), 9001);
    assert_eq!(msg.timestamp().millis(), Some(1_700_000_000_000));
    assert_eq!(msg.headers().len(), 2);
    assert_eq!(
        msg.headers().find("trace-id").unwrap().value,
        Some(&b"abc123"[..])
    );
    assert!(msg.headers().find("absent").is_none());

    // The debug rendering exposes lengths, never contents.
    let debug = msg.debug_string();
    assert!(!debug.contains("user-42"), "key leaked: {debug}");
    assert!(!debug.contains("amount"), "value leaked: {debug}");
    assert!(debug.contains("header_count"));
}

/// The all-None record (keyless, null value, no timestamp, no headers):
/// every accessor answers None or empty, nothing panics.
#[test]
fn null_key_and_value() {
    let msg = Message::new(
        None,
        None,
        "t",
        0,
        0,
        Timestamp::NotAvailable,
        Headers::from_slice(&[]),
    );
    assert_eq!(msg.key(), None);
    assert_eq!(msg.key_str(), None);
    assert_eq!(msg.value(), None);
    assert_eq!(msg.value_str(), None);
    assert_eq!(msg.timestamp().millis(), None);
    assert!(msg.headers().is_empty());
}

/// Kafka headers are a LIST: keys repeat, order is wire order, values are
/// nullable. `find` returns the FIRST match (the usual client convention),
/// `len` counts duplicates separately, `get`/`iter` preserve wire order.
#[test]
fn headers_are_an_ordered_list_with_duplicates_and_null_values() {
    let entries = [
        Header {
            key: "retry",
            value: Some(b"1"),
        },
        Header {
            key: "tombstone-marker",
            value: None,
        },
        Header {
            key: "retry",
            value: Some(b"2"),
        },
    ];
    let headers = Headers::from_slice(&entries);

    assert_eq!(headers.len(), 3, "duplicates counted separately");
    assert_eq!(
        headers.find("retry").unwrap().value,
        Some(&b"1"[..]),
        "find returns the FIRST match, not the last"
    );
    assert_eq!(
        headers.find("tombstone-marker").unwrap().value,
        None,
        "null-valued header"
    );

    // get: wire order, out-of-bounds is None.
    assert_eq!(headers.get(0).unwrap().key, "retry");
    assert_eq!(headers.get(1).unwrap().key, "tombstone-marker");
    assert_eq!(headers.get(2).unwrap().value, Some(&b"2"[..]));
    assert!(headers.get(3).is_none());

    // iter: wire order, all entries.
    let keys: Vec<&str> = headers.iter().map(|h| h.key).collect();
    assert_eq!(keys, ["retry", "tombstone-marker", "retry"]);
}

/// Empty is not absent: a zero-length key or value is `Some` (and the
/// _str accessors give `Some("")`), distinct from the `None` of a keyless
/// record or a null (tombstone) value.
#[test]
fn empty_key_and_value_stay_some_distinct_from_none() {
    let msg = Message::new(
        Some(b""),
        Some(b""),
        "t",
        0,
        0,
        Timestamp::NotAvailable,
        Headers::from_slice(&[]),
    );
    assert_eq!(msg.key(), Some(&b""[..]), "empty key is Some, not None");
    assert_eq!(msg.key_str(), Some(""), "empty key decodes to empty str");
    assert_eq!(msg.value(), Some(&b""[..]), "empty value is Some, not None");
    assert_eq!(msg.value_str(), Some(""));
    assert_ne!(
        msg.value(),
        None::<&[u8]>,
        "empty and null must not collapse"
    );
}

/// `find` returns the FIRST duplicate even when it is null-valued: a
/// caller doing `find(k).and_then(|h| h.value)` gets `None` although a
/// later duplicate carries a value.
#[test]
fn find_first_wins_even_when_first_duplicate_is_null() {
    let entries = [
        Header {
            key: "retry",
            value: None,
        },
        Header {
            key: "retry",
            value: Some(b"2"),
        },
    ];
    let headers = Headers::from_slice(&entries);
    let first = headers.find("retry").expect("key present");
    assert_eq!(first.value, None, "the null-valued FIRST entry wins");
    assert_eq!(
        headers.get(1).unwrap().value,
        Some(&b"2"[..]),
        "the valued duplicate is still reachable by position"
    );
}

/// The redacted rendering must also render a null-key/null-value message
/// cleanly (lengths show as None, nothing to leak, no panic).
#[test]
fn redacted_debug_renders_null_message() {
    let msg = Message::new(
        None,
        None,
        "t",
        0,
        0,
        Timestamp::NotAvailable,
        Headers::from_slice(&[]),
    );
    let debug = msg.debug_string();
    assert!(debug.contains("key_len: None"), "{debug}");
    assert!(debug.contains("value_len: None"), "{debug}");
    assert!(debug.contains("header_count: 0"), "{debug}");
}

/// Broker-assigned LogAppendTime is a distinct kind from CreateTime, and
/// non-UTF-8 key/value bytes answer None from the _str accessors while
/// staying readable as raw bytes.
#[test]
fn log_append_time_kind_and_non_utf8_bytes() {
    let invalid = [0xFFu8, 0xFE, b'x'];
    let msg = Message::new(
        Some(&invalid),
        Some(&invalid),
        "t",
        0,
        0,
        Timestamp::LogAppendTime { millis: 42 },
        Headers::from_slice(&[]),
    );

    assert_eq!(
        msg.timestamp(),
        Timestamp::LogAppendTime { millis: 42 },
        "kind preserved, not collapsed to CreateTime"
    );
    assert_eq!(msg.timestamp().millis(), Some(42));

    assert_eq!(msg.key_str(), None, "non-UTF-8 key is None, not lossy");
    assert_eq!(msg.value_str(), None, "non-UTF-8 value is None, not lossy");
    assert_eq!(msg.key(), Some(&invalid[..]), "raw bytes still readable");
    assert_eq!(msg.value(), Some(&invalid[..]));
}

/// The full redacted rendering, field by field, in declaration order.
#[test]
fn redacted_debug_exact_text() {
    let headers = [Header {
        key: "k",
        value: None,
    }];
    let msg = Message::new(
        Some(b"secret"),
        Some(b"payload!"),
        "orders",
        -1,
        i64::MAX,
        Timestamp::LogAppendTime { millis: 7 },
        Headers::from_slice(&headers),
    );
    assert_eq!(
        msg.debug_string(),
        "Message { key_len: Some(6), value_len: Some(8), partition: -1, offset: 9223372036854775807, timestamp: LogAppendTime { millis: 7 }, header_count: 1, topic: \"orders\" }"
    );
}

/// Redaction: messages differing only in the bytes of equally long keys
/// and values render identically.
#[test]
fn redacted_debug_ignores_contents() {
    let a = Message::new(
        Some(b"alice"),
        Some(b"1234"),
        "t",
        1,
        2,
        Timestamp::CreateTime { millis: 3 },
        Headers::from_slice(&[]),
    );
    let b = Message::new(
        Some(b"bobby"),
        Some(b"wxyz"),
        "t",
        1,
        2,
        Timestamp::CreateTime { millis: 3 },
        Headers::from_slice(&[]),
    );
    assert_eq!(a.debug_string(), b.debug_string());
}

/// Multi-byte UTF-8 decodes to the same text; a truncated sequence does
/// not decode at all.
#[test]
fn utf8_multibyte_and_truncated() {
    let text = "zürich-€";
    let truncated = &text.as_bytes()[..text.len() - 1];
    let msg = Message::new(
        Some(text.as_bytes()),
        Some(truncated),
        "t",
        0,
        0,
        Timestamp::NotAvailable,
        Headers::from_slice(&[]),
    );
    assert_eq!(msg.key_str(), Some(text));
    assert_eq!(msg.value_str(), None);
}

/// Timestamps carry their millisecond value for both kinds.
#[test]
fn timestamp_millis_per_kind() {
    assert_eq!(Timestamp::NotAvailable.millis(), None);
    assert_eq!(Timestamp::CreateTime { millis: -5 }.millis(), Some(-5));
    assert_eq!(Timestamp::LogAppendTime { millis: i64::MIN }.millis(), Some(i64::MIN));
    assert_ne!(
        Timestamp::CreateTime { millis: 1 },
        Timestamp::LogAppendTime { millis: 1 }
    );
}

/// `find` agrees with `get` at the first matching position, matches keys
/// exactly (no prefix matching), and finds nothing in an empty list.
#[test]
fn find_matches_exact_keys_at_first_position() {
    let entries = [
        Header {
            key: "a",
            value: Some(b"x"),
        },
        Header {
            key: "ab",
            value: Some(b"y"),
        },
        Header {
            key: "b",
            value: Some(b"z"),
        },
    ];
    let headers = Headers::from_slice(&entries);
    assert_eq!(headers.find("ab").unwrap().value, headers.get(1).unwrap().value);
    assert_eq!(headers.find("b").unwrap().value, Some(&b"z"[..]));
    assert!(headers.find("").is_none());
    assert!(headers.find("abc").is_none());
    assert!(Headers::from_slice(&[]).find("a").is_none());
    assert_eq!(headers.iter().count(), headers.len());
    assert!(!headers.is_empty());
}

/// Numbers render in decimal with a sign only when negative, and the
/// extremes of each field type render in full.
#[test]
fn redacted_debug_number_extremes() {
    let msg = Message::new(
        Some(b""),
        None,
        "t",
        i32::MIN,
        i64::MIN,
        Timestamp::CreateTime { millis: 0 },
        Headers::from_slice(&[]),
    );
    assert_eq!(
        msg.debug_string(),
        "Message { key_len: Some(0), value_len: None, partition: -2147483648, offset: -9223372036854775808, timestamp: CreateTime { millis: 0 }, header_count: 0, topic: \"t\" }"
    );
}

/// The topic renders as `{:?}` renders a string: quotes and backslashes
/// are escaped, and the text is the same as `format!("{:?}")` gives.
#[test]
fn redacted_debug_escapes_topic() {
    let topic = "a\"b\\c\nd-ü";
    let msg = Message::new(
        None,
        None,
        topic,
        1,
        2,
        Timestamp::LogAppendTime { millis: -3 },
        Headers::from_slice(&[]),
    );
    let expected = format!(
        "Message {{ key_len: None, value_len: None, partition: 1, offset: 2, timestamp: LogAppendTime {{ millis: -3 }}, header_count: 0, topic: {:?} }}",
        topic
    );
    assert_eq!(msg.debug_string(), expected);
    assert!(msg.debug_string().contains("topic: \"a\\\"b\\\\c\\nd-ü\""));
}

/// `iter` yields each header by value, in wire order, duplicates included.
#[test]
fn iter_yields_headers_by_value() {
    let entries = [
        Header {
            key: "a",
            value: Some(b"1"),
        },
        Header {
            key: "a",
            value: None,
        },
    ];
    let headers = Headers::from_slice(&entries);
    let copies: Vec<Header> = headers.iter().collect();
    assert_eq!(copies.len(), 2);
    assert_eq!(copies[0].key, "a");
    assert_eq!(copies[0].value, Some(&b"1"[..]));
    assert_eq!(copies[1].value, None);
    assert_eq!(Headers::from_slice(&[]).iter().count(), 0);
}
