//! Adapter selection and options vocabulary.

use vstd::prelude::*;

verus! {

/// Broker adapter compiled into the engine's shared library.
#[derive(Debug, Clone, Copy, PartialEq, Eq)]
pub enum Adapter {
    /// franz-go: pure Go Kafka client, no librdkafka. The default.
    Franz,
    /// confluent-kafka-go: librdkafka (statically linked into the shared
    /// library). Exposes the full librdkafka configuration surface.
    Kafka,
}

/// The adapter name understood by the bridge's config JSON.
pub open spec fn adapter_name(adapter: Adapter) -> Seq<char> {
    match adapter {
        Adapter::Franz => "franz"@,
        Adapter::Kafka => "kafka"@,
    }
}

/// franz is the default adapter.
impl Default for Adapter {
    fn default() -> (a: Adapter)
        ensures
            a == Adapter::Franz,
    {
        Adapter::Franz
    }
}

impl Adapter {
    /// The adapter name understood by the bridge's config JSON.
    pub fn as_str(&self) -> (s: &'static str)
        ensures
            s@ == adapter_name(*self),
    {
        match self {
            Adapter::Franz => "franz",
            Adapter::Kafka => "kafka",
        }
    }
}

/// How the consumer starts when no committed offset exists for a partition
/// (both adapters' `auto.offset.reset` option).
///
/// librdkafka's third value `error` (fail instead of resetting) has no
/// franz-go equivalent, so it is not typed here; on the kafka adapter pass
/// the raw option pair instead.
#[derive(Debug, Clone, Copy, PartialEq, Eq)]
pub enum AutoOffsetReset {
    /// Start from the oldest available offset.
    Earliest,
    /// Start from the next offset produced.
    Latest,
}

/// The option value understood by both adapters.
pub open spec fn offset_reset_name(reset: AutoOffsetReset) -> Seq<char> {
    match reset {
        AutoOffsetReset::Earliest => "earliest"@,
        AutoOffsetReset::Latest => "latest"@,
    }
}

impl AutoOffsetReset {
    /// The option value understood by both adapters.
    pub fn as_str(&self) -> (s: &'static str)
        ensures
            s@ == offset_reset_name(*self),
    {
        match self {
            AutoOffsetReset::Earliest => "earliest",
            AutoOffsetReset::Latest => "latest",
        }
    }
}

/// The two adapters have different wire names, and so do the two reset
/// policies: the bridge can always tell them apart.
pub proof fn lemma_wire_names_distinct(a: Adapter, b: Adapter, r: AutoOffsetReset, q: AutoOffsetReset)
    ensures
        adapter_name(a) == adapter_name(b) <==> a == b,
        offset_reset_name(r) == offset_reset_name(q) <==> r == q,
{
    reveal_strlit("franz");
    reveal_strlit("kafka");
    reveal_strlit("earliest");
    reveal_strlit("latest");
    if a != b {
        assert(adapter_name(a)[0] != adapter_name(b)[0]);
    }
    if r != q {
        assert(offset_reset_name(r).len() != offset_reset_name(q).len());
    }
}

/// Typed, adapter-specific Kafka client options.
///
/// Implemented by the adapter crates' option builders; applied together with
/// the adapter they target so the two cannot be mismatched.
pub trait AdapterOptions {
    /// The adapter these options target.
    fn adapter(&self) -> Adapter;

    /// The option entries as Kafka-style key/value pairs.
    fn entries(&self) -> Vec<(String, String)>;

    /// Configuration errors detectable client-side, such as the same
    /// security key arriving from both a typed setter and a raw pair;
    /// surfaced as a clean error at engine build time. Accepts by default.
    fn validate(&self) -> (r: Result<(), String>)
        default_ensures
            r is Ok,
    {
        Ok(())
    }
}

/// References to options are options: lets a builder take
/// `impl AdapterOptions` by value while `&Options` / `&dyn AdapterOptions`
/// call sites keep working.
impl<T: AdapterOptions + ?Sized> AdapterOptions for &T {
    /// The adapter the referenced options report.
    fn adapter(&self) -> (a: Adapter)
        ensures
            call_ensures(T::adapter, (&**self,), a),
    {
        (**self).adapter()
    }

    /// The entries the referenced options report.
    fn entries(&self) -> (e: Vec<(String, String)>)
        ensures
            call_ensures(T::entries, (&**self,), e),
    {
        (**self).entries()
    }

    /// The verdict of the referenced options' own `validate`.
    fn validate(&self) -> (r: Result<(), String>)
        ensures
            call_ensures(T::validate, (&**self,), r),
    {
        (**self).validate()
    }
}

/// Whole milliseconds covering `nanos` nanoseconds: the quotient by one
/// million, rounded up.
pub open spec fn ms_ceil(nanos: int) -> int {
    (nanos + 999_999) / 1_000_000
}

/// The total number of nanoseconds a duration spans.
pub uninterp spec fn duration_nanos(d: core::time::Duration) -> u128;

/// `Duration::as_nanos`: the whole duration counted in nanoseconds. The
/// contract names that count; it is a function of the duration alone.
#[verifier::external_body]
fn duration_as_nanos(d: &core::time::Duration) -> (n: u128)
    ensures
        n == duration_nanos(*d),
{
    d.as_nanos()
}

/// Whole milliseconds for a nanosecond count, rounding a sub-millisecond
/// remainder UP so a non-zero count never becomes zero.
pub fn nanos_ms_ceil(nanos: u128) -> (ms: u128)
    ensures
        ms == ms_ceil(nanos as int),
{
    let q = nanos / 1_000_000;
    if nanos % 1_000_000 == 0 {
        q
    } else {
        q + 1
    }
}

/// Whole milliseconds for the wire format, rounding a sub-millisecond
/// remainder UP so a non-zero `Duration` never silently becomes zero
/// (downstream, zero means "use the engine default"). Public only for the
/// config and adapter builders.
pub fn duration_ms_ceil(d: core::time::Duration) -> (ms: u128)
    ensures
        ms == ms_ceil(duration_nanos(d) as int),
{
    nanos_ms_ceil(duration_as_nanos(&d))
}

/// The rounding is a true ceiling: the result covers the whole span, misses
/// by less than one millisecond, and is zero only for a zero span.
pub proof fn lemma_ms_ceil_is_ceiling(nanos: int)
    requires
        nanos >= 0,
    ensures
        ms_ceil(nanos) * 1_000_000 >= nanos,
        (ms_ceil(nanos) - 1) * 1_000_000 < nanos || nanos == 0,
        ms_ceil(nanos) == 0 <==> nanos == 0,
        nanos % 1_000_000 == 0 ==> ms_ceil(nanos) * 1_000_000 == nanos,
{
}

} // verus!
