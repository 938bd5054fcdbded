use llingr_nexus::Traits;

/// Bits set via with_bit/set/BitOr read back with has; raw() strips the
/// framework range; positions outside 10-63 are ignored.
#[test]
fn traits_round_trip() {
    let t = Traits::with_bit(10).set(20).set(63);
    assert!(t.has(10));
    assert!(t.has(20));
    assert!(t.has(63));
    assert!(!t.has(9));
    assert!(!t.has(11));

    let raw = t.raw();
    assert_eq!(raw & 0x3FF, 0, "framework bits masked in raw()");
    assert_ne!(raw, 0);

    assert_eq!(t.raw_with_framework() & !0x3FF, raw);

    let none = Traits::none();
    assert_eq!(none.raw(), 0);
    assert_eq!(none.raw_with_framework(), 0);

    let combined = Traits::with_bit(10) | Traits::with_bit(20);
    assert!(combined.has(10));
    assert!(combined.has(20));

    assert_eq!(Traits::with_bit(64).raw(), 0, "out of range ignored");
    assert_eq!(Traits::with_bit(5).raw(), 0, "framework range ignored");
}

/// `has` guards bit positions above 63: without the guard the shift
/// overflows. Must answer false, never panic.
#[test]
fn has_out_of_range_bit_is_false_not_panic() {
    let t = Traits::from_raw(u64::MAX);
    assert!(!t.has(64));
    assert!(!t.has(u32::MAX));
    assert!(t.has(63), "in-range top bit still readable");
}

/// `set` has its own range guard, separate from `with_bit`: framework
/// bits (0-9) and out-of-range bits are silently ignored.
#[test]
fn set_ignores_framework_and_out_of_range_bits() {
    let t = Traits::none().set(9).set(64);
    assert_eq!(t.raw_with_framework(), 0, "set(9)/set(64) must be no-ops");
    assert_eq!(
        Traits::with_bit(9).raw_with_framework(),
        0,
        "with_bit(9) below app range"
    );
    let boundary = Traits::none().set(10);
    assert!(boundary.has(10), "bit 10 is the first application bit");
}

/// raw() masks framework bits back OUT of a value that arrived over the
/// FFI with them present.
#[test]
fn raw_masks_framework_bits_from_raw_values() {
    let t = Traits::from_raw(0x3FF | (1 << 10));
    assert_eq!(t.raw(), 1 << 10, "framework bits stripped");
    assert_eq!(t.raw_with_framework(), 0x3FF | (1 << 10));
}

/// Each framework-flag getter reads its own bit (0-7) from an FFI-origin
/// raw value: a shifted getter would misreport every engine flag.
#[test]
fn framework_flags_from_raw() {
    let t = Traits::from_raw(0b1111_1111);
    assert!(t.has_process_error());
    assert!(t.has_process_panic());
    assert!(t.has_dead_letter());
    assert!(t.has_commit_buffered());
    assert!(t.has_duplicate());
    assert!(t.has_used_overflow());
    assert!(t.has_orphaned());
    assert!(t.has_first_after_rebalance());

    let none = Traits::none();
    assert!(!none.has_process_error());
    assert!(!none.has_first_after_rebalance());
}

/// Each framework getter reads exactly its own bit: a value with only bit k
/// set answers true from getter k and false from all the others.
#[test]
fn framework_getters_read_one_bit_each() {
    for k in 0..8u32 {
        let t = Traits::from_raw(1u64 << k);
        let flags = [
            t.has_process_error(),
            t.has_process_panic(),
            t.has_dead_letter(),
            t.has_commit_buffered(),
            t.has_duplicate(),
            t.has_used_overflow(),
            t.has_orphaned(),
            t.has_first_after_rebalance(),
        ];
        for (i, f) in flags.iter().enumerate() {
            assert_eq!(*f, i as u32 == k);
            assert_eq!(t.has(i as u32), i as u32 == k);
        }
    }
}

/// Setting leaves every other bit as it was; the order of `set` calls does
/// not matter and setting twice equals setting once.
#[test]
fn set_preserves_other_bits_and_commutes() {
    let base = Traits::from_raw(0b101 | (1 << 40));
    let t = base.set(12);
    for probe in 0..70u32 {
        assert_eq!(t.has(probe), base.has(probe) || probe == 12);
    }
    assert_eq!(base.set(12).set(30), base.set(30).set(12));
    assert_eq!(base.set(12).set(12), base.set(12));
    assert_eq!(base.set(3).raw_with_framework(), base.raw_with_framework());
}

/// Values built only from `none`, `with_bit` and `set` never carry a
/// framework bit, so `raw` and `raw_with_framework` agree on them.
#[test]
fn app_built_values_have_no_framework_bits() {
    let t = Traits::with_bit(0).set(1).set(9).set(10).set(63).set(100);
    assert_eq!(t.raw_with_framework() & 0x3FF, 0);
    assert_eq!(t.raw(), t.raw_with_framework());
    assert_eq!(t.raw(), (1u64 << 10) | (1u64 << 63));
}

/// `|` sets exactly the bits set in either operand, framework bits included.
#[test]
fn bitor_is_union() {
    let a = Traits::from_raw(0b0011 | (1 << 20));
    let b = Traits::from_raw(0b0110 | (1 << 50));
    let c = a | b;
    assert_eq!(c.raw_with_framework(), 0b0111 | (1 << 20) | (1 << 50));
    for probe in 0..64u32 {
        assert_eq!(c.has(probe), a.has(probe) || b.has(probe));
    }
    assert_eq!(Traits::default(), Traits::none());
}
