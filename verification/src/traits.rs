//! The 64-bit trait bit field.

use vstd::prelude::*;

verus! {

/// Mask covering framework-reserved bits 0-9.
pub const FRAMEWORK_RESERVED: u64 = 0x3FF;

/// Whether `bit` is an application bit position (10-63), the only positions
/// that `with_bit` and `set` write.
pub open spec fn is_app_bit(bit: u32) -> bool {
    10 <= bit <= 63
}

/// Whether bit position `bit` is set in `v`; positions above 63 are never set.
pub open spec fn bit_is_set(v: u64, bit: u32) -> bool {
    bit <= 63 && v & (1u64 << bit) != 0
}

/// `v` with application bit `bit` set; `v` unchanged for any other position.
pub open spec fn with_app_bit(v: u64, bit: u32) -> u64 {
    if is_app_bit(bit) {
        v | (1u64 << bit)
    } else {
        v
    }
}


/// Reading back a bit after `set`/`with_bit`: the written application bit
/// reads as set, and every other position reads as it did before.
pub proof fn lemma_set_then_has(v: u64, bit: u32, probe: u32)
    ensures
        bit_is_set(with_app_bit(v, bit), probe) == (bit_is_set(v, probe) || (is_app_bit(bit)
            && probe == bit)),
{
    if is_app_bit(bit) && probe <= 63 {
        assert((v | (1u64 << bit)) & (1u64 << probe) != 0 <==> (v & (1u64 << probe) != 0 || probe
            == bit)) by (bit_vector)
            requires
                bit <= 63,
                probe <= 63,
        ;
    }
}

/// `with_bit(b)` reads back exactly bit `b` when `b` is an application
/// position, and nothing at all otherwise.
pub proof fn lemma_with_bit_has(bit: u32, probe: u32)
    ensures
        bit_is_set(with_app_bit(0, bit), probe) == (is_app_bit(bit) && probe == bit),
{
    lemma_set_then_has(0, bit, probe);
    if probe <= 63 {
        assert(0u64 & (1u64 << probe) == 0) by (bit_vector);
    }
}

/// Setting application bits never changes the framework-reserved bits 0-9.
pub proof fn lemma_set_keeps_framework_bits(v: u64, bit: u32)
    ensures
        with_app_bit(v, bit) & FRAMEWORK_RESERVED == v & FRAMEWORK_RESERVED,
{
    if is_app_bit(bit) {
        assert((v | (1u64 << bit)) & 0x3FFu64 == v & 0x3FFu64) by (bit_vector)
            requires
                10 <= bit <= 63,
        ;
    }
}

/// The masked value that `raw` returns carries no framework bit, keeps every
/// application bit, and together with the framework bits gives back the
/// whole value.
pub proof fn lemma_raw_masks_framework(v: u64, probe: u32)
    ensures
        (v & !FRAMEWORK_RESERVED) & FRAMEWORK_RESERVED == 0,
        bit_is_set(v & !FRAMEWORK_RESERVED, probe) == (bit_is_set(v, probe) && probe >= 10),
        (v & !FRAMEWORK_RESERVED) | (v & FRAMEWORK_RESERVED) == v,
{
    assert((v & !0x3FFu64) & 0x3FFu64 == 0) by (bit_vector);
    assert((v & !0x3FFu64) | (v & 0x3FFu64) == v) by (bit_vector);
    if probe <= 63 {
        assert((v & !0x3FFu64) & (1u64 << probe) != 0 <==> (v & (1u64 << probe) != 0 && probe
            >= 10)) by (bit_vector)
            requires
                probe <= 63,
        ;
    }
}

/// Combining two trait fields with `|` sets exactly the bits set in either.
pub proof fn lemma_union_has(a: u64, b: u64, probe: u32)
    ensures
        bit_is_set(a | b, probe) == (bit_is_set(a, probe) || bit_is_set(b, probe)),
{
    if probe <= 63 {
        assert((a | b) & (1u64 << probe) != 0 <==> (a & (1u64 << probe) != 0 || b & (1u64
            << probe) != 0)) by (bit_vector)
            requires
                probe <= 63,
        ;
    }
}

/// The order in which application bits are set does not matter, and setting
/// a bit twice is the same as setting it once.
pub proof fn lemma_set_order_irrelevant(v: u64, a: u32, b: u32)
    ensures
        with_app_bit(with_app_bit(v, a), b) == with_app_bit(with_app_bit(v, b), a),
        with_app_bit(with_app_bit(v, a), a) == with_app_bit(v, a),
{
    if is_app_bit(a) && is_app_bit(b) {
        assert((v | (1u64 << a)) | (1u64 << b) == (v | (1u64 << b)) | (1u64 << a))
            by (bit_vector);
    }
    if is_app_bit(a) {
        assert((v | (1u64 << a)) | (1u64 << a) == v | (1u64 << a)) by (bit_vector);
    }
}

/// A value built from `none`/`with_bit` by any chain of `set` calls carries
/// no framework bit: application code cannot forge engine flags.
pub proof fn lemma_app_built_has_no_framework_bits(v: u64, bit: u32)
    requires
        v & FRAMEWORK_RESERVED == 0,
    ensures
        with_app_bit(v, bit) & FRAMEWORK_RESERVED == 0,
        with_app_bit(0, bit) & FRAMEWORK_RESERVED == 0,
{
    lemma_set_keeps_framework_bits(v, bit);
    lemma_set_keeps_framework_bits(0, bit);
    assert(0u64 & 0x3FFu64 == 0) by (bit_vector);
}

/// The 64-bit trait bit field.
///
/// Bits 0-9 are framework-reserved (read via the `has_*` getters); bits
/// 10-63 are application flags. Attempts to set reserved bits are silently
/// masked, not errors.
#[derive(Debug, Clone, Copy, PartialEq, Eq)]
pub struct Traits(u64);

impl View for Traits {
    type V = u64;

    /// The raw 64-bit value, framework bits included.
    closed spec fn view(&self) -> u64 {
        self.0
    }
}

impl Traits {
    /// No application traits set.
    pub fn none() -> (t: Self)
        ensures
            t@ == 0,
    {
        Traits(0)
    }

    /// Reconstruct from a raw value received over the FFI boundary.
    /// Intended for the binding layer, not application code.
    pub fn from_raw(raw: u64) -> (t: Self)
        ensures
            t@ == raw,
    {
        Traits(raw)
    }

    /// Create traits with the given bit position set (must be >= 10).
    /// Positions below 10, and above 63, are silently ignored.
    pub fn with_bit(bit: u32) -> (t: Self)
        ensures
            t@ == with_app_bit(0, bit),
    {
        if !(10 <= bit && bit <= 63) {
            return Traits(0);
        }
        assert(0u64 | (1u64 << bit) == (1u64 << bit)) by (bit_vector);
        Traits(1u64 << bit)
    }

    /// Set a bit position (must be >= 10). Returns self for chaining.
    pub fn set(self, bit: u32) -> (t: Self)
        ensures
            t@ == with_app_bit(self@, bit),
    {
        let mut v = self.0;
        if 10 <= bit && bit <= 63 {
            v = v | (1u64 << bit);
        }
        Traits(v)
    }

    /// Check whether a bit position is set.
    pub fn has(&self, bit: u32) -> (b: bool)
        ensures
            b == bit_is_set(self@, bit),
    {
        if bit > 63 {
            return false;
        }
        self.0 & (1u64 << bit) != 0
    }

    /// The raw u64 value with framework bits masked out.
    pub fn raw(&self) -> (r: u64)
        ensures
            r == self@ & !FRAMEWORK_RESERVED,
    {
        self.0 & !FRAMEWORK_RESERVED
    }

    /// The raw u64 including framework bits (for metrics inspection).
    pub fn raw_with_framework(&self) -> (r: u64)
        ensures
            r == self@,
    {
        self.0
    }

    /// Whether the ProcessError flag is set (bit 0): the process handler
    /// returned an error.
    pub fn has_process_error(&self) -> (b: bool)
        ensures
            b == bit_is_set(self@, 0),
    {
        self.0 & (1u64 << 0u32) != 0
    }

    /// Whether the ProcessPanic flag is set (bit 1): the engine recovered
    /// a panic from its process callback.
    pub fn has_process_panic(&self) -> (b: bool)
        ensures
            b == bit_is_set(self@, 1),
    {
        self.0 & (1u64 << 1u32) != 0
    }

    /// Whether the DeadLetter flag is set (bit 2): the message was routed to
    /// the dead-letter handler.
    pub fn has_dead_letter(&self) -> (b: bool)
        ensures
            b == bit_is_set(self@, 2),
    {
        self.0 & (1u64 << 2u32) != 0
    }

    /// Whether the CommitBuffered flag is set (bit 3): the offset was buffered
    /// by the gap-buffer committer rather than committed immediately.
    pub fn has_commit_buffered(&self) -> (b: bool)
        ensures
            b == bit_is_set(self@, 3),
    {
        self.0 & (1u64 << 3u32) != 0
    }

    /// Whether the Duplicate flag is set (bit 4): the message was redelivered.
    pub fn has_duplicate(&self) -> (b: bool)
        ensures
            b == bit_is_set(self@, 4),
    {
        self.0 & (1u64 << 4u32) != 0
    }

    /// Whether the UsedOverflow flag is set (bit 5).
    pub fn has_used_overflow(&self) -> (b: bool)
        ensures
            b == bit_is_set(self@, 5),
    {
        self.0 & (1u64 << 5u32) != 0
    }

    /// Whether the Orphaned flag is set (bit 6): the work item was orphaned by
    /// a rebalance.
    pub fn has_orphaned(&self) -> (b: bool)
        ensures
            b == bit_is_set(self@, 6),
    {
        self.0 & (1u64 << 6u32) != 0
    }

    /// Whether the FirstAfterRebalance flag is set (bit 7): the first message
    /// processed on its partition after a rebalance assignment.
    pub fn has_first_after_rebalance(&self) -> (b: bool)
        ensures
            b == bit_is_set(self@, 7),
    {
        self.0 & (1u64 << 7u32) != 0
    }
}

/// The default trait field is empty, like [`Traits::none`].
impl Default for Traits {
    fn default() -> (t: Traits)
        ensures
            t@ == 0,
    {
        Traits(0)
    }
}

impl core::ops::BitOr for Traits {
    type Output = Traits;

    /// The union of both bit sets, framework bits included.
    fn bitor(self, rhs: Traits) -> (t: Traits)
        ensures
            t@ == self@ | rhs@,
    {
        Traits(self.0 | rhs.0)
    }
}

impl vstd::std_specs::ops::BitOrSpecImpl for Traits {
    open spec fn obeys_bitor_spec() -> bool {
        true
    }

    open spec fn bitor_req(self, rhs: Traits) -> bool {
        true
    }

    closed spec fn bitor_spec(self, rhs: Traits) -> Traits {
        Traits(self.0 | rhs.0)
    }
}

} // verus!
