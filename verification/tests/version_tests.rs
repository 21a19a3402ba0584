use backup_store::{SaturatingFileVersion, WrappingFileVersion};

#[test]
fn new_counters_start_at_one() {
    assert_eq!(WrappingFileVersion::new().get(), 1);
    assert_eq!(SaturatingFileVersion::new().get(), 1);
    assert_eq!(SaturatingFileVersion::new().value(), 1);
    assert!(WrappingFileVersion::new().is_valid());
    assert!(SaturatingFileVersion::new().is_valid());
}

#[test]
fn invalid_counters_report_invalid() {
    // The zero counter is the invalid one; incrementing it is excluded
    // by contract, so a caller must check validity first.
    assert_eq!(WrappingFileVersion::new_invalid().get(), 0);
    assert_eq!(SaturatingFileVersion::new_invalid().get(), 0);
    assert!(!WrappingFileVersion::new_invalid().is_valid());
    assert!(!SaturatingFileVersion::new_invalid().is_valid());
}

#[test]
fn increment_steps_by_one() {
    let mut w = WrappingFileVersion::new();
    w.increment();
    w.increment();
    assert_eq!(w.get(), 3);
    let mut s = SaturatingFileVersion::new();
    s.increment();
    s.increment();
    assert_eq!(s.get(), 3);
}

#[test]
fn wrapping_counter_rolls_over_to_one() {
    let mut w = WrappingFileVersion::new();
    w.increment_n(u32::MAX - 1);
    assert_eq!(w.get(), u32::MAX);
    w.increment();
    assert_eq!(w.get(), 1);

    // A wrapped raw value of zero is coerced to 1 as well.
    let mut w = WrappingFileVersion::new();
    w.increment_n(u32::MAX - 1);
    w.increment_n(1);
    assert_eq!(w.get(), 1);

    // Wrapping past zero lands past 1.
    let mut w = WrappingFileVersion::new();
    w.increment_n(u32::MAX - 1);
    w.increment_n(5);
    assert_eq!(w.get(), 4);
}

#[test]
fn saturating_counter_clamps_at_max() {
    let mut s = SaturatingFileVersion::new();
    s.increment_n(u32::MAX - 1);
    assert_eq!(s.get(), u32::MAX);
    s.increment();
    assert_eq!(s.get(), u32::MAX);
    s.increment_n(100);
    assert_eq!(s.get(), u32::MAX);
}

#[test]
fn decrement_clamps_at_one() {
    // Decrementing saturates at 1 and never produces the invalid zero.
    let mut w = WrappingFileVersion::new();
    w.increment_n(4);
    w.decrement();
    assert_eq!(w.get(), 4);
    w.decrement_n(10);
    assert_eq!(w.get(), 1);
    w.decrement();
    assert_eq!(w.get(), 1);

    let mut s = SaturatingFileVersion::new();
    s.increment_n(4);
    s.decrement_n(2);
    assert_eq!(s.get(), 3);
    s.decrement_n(100);
    assert_eq!(s.get(), 1);
    s.decrement();
    assert_eq!(s.get(), 1);

    // A saturating counter that is invalid stays untouched.
    let mut invalid = SaturatingFileVersion::new_invalid();
    invalid.decrement();
    assert_eq!(invalid.get(), 0);
    // A wrapping counter has no invalid guard on subtraction: it lands
    // on 1.
    let mut invalid = WrappingFileVersion::new_invalid();
    invalid.decrement();
    assert_eq!(invalid.get(), 1);
}

#[test]
fn counters_compare_by_value() {
    let a = SaturatingFileVersion::new();
    let mut b = SaturatingFileVersion::new();
    assert_eq!(a, b);
    b.increment();
    assert_ne!(a, b);
    assert!(a < b);
}
