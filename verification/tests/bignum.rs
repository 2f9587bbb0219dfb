use rbignum::{Fixnum, ProtectState, RBignum, Value, ValueKind, FIXNUM_MAX, FIXNUM_MIN};

#[test]
fn max_i64_round_trips_through_big_integer() {
    let b = RBignum::from_i64(9223372036854775807).expect("max i64 needs the heap encoding");
    assert_eq!(b.to_i64(), Ok(9223372036854775807));
}

#[test]
fn small_integer_yields_fixnum_not_big_integer() {
    match RBignum::from_i64(5) {
        Ok(_) => panic!("5 fits the immediate encoding"),
        Err(f) => assert_eq!(f.to_i64(), 5),
    }
}

#[test]
fn max_u64_extracts_unsigned_and_faults_signed() {
    let b = RBignum::from_u64(18446744073709551615).expect("max u64 needs the heap encoding");
    assert_eq!(b.to_u64(), Ok(18446744073709551615));
    assert_eq!(b.to_i64(), Err(ProtectState));
}

#[test]
fn round_trip_signed_just_past_fixnum_range() {
    let above = RBignum::from_i64(FIXNUM_MAX + 1).expect("first value past the range");
    assert_eq!(above.to_i64(), Ok(FIXNUM_MAX + 1));
    let below = RBignum::from_i64(FIXNUM_MIN - 1).expect("first value below the range");
    assert_eq!(below.to_i64(), Ok(FIXNUM_MIN - 1));
}

#[test]
fn round_trip_signed_min_i64() {
    let b = RBignum::from_i64(i64::MIN).expect("min i64 needs the heap encoding");
    assert_eq!(b.to_i64(), Ok(i64::MIN));
}

#[test]
fn round_trip_unsigned_just_past_fixnum_range() {
    let n = FIXNUM_MAX as u64 + 1;
    let b = RBignum::from_u64(n).expect("first value past the range");
    assert_eq!(b.to_u64(), Ok(n));
    assert_eq!(b.to_i64(), Ok(n as i64));
}

#[test]
fn fixnum_range_boundaries_use_immediate_encoding() {
    match RBignum::from_i64(FIXNUM_MAX) {
        Ok(_) => panic!("the largest fixnum fits the immediate encoding"),
        Err(f) => assert_eq!(f.to_i64(), FIXNUM_MAX),
    }
    match RBignum::from_i64(FIXNUM_MIN) {
        Ok(_) => panic!("the smallest fixnum fits the immediate encoding"),
        Err(f) => assert_eq!(f.to_i64(), FIXNUM_MIN),
    }
    match RBignum::from_u64(FIXNUM_MAX as u64) {
        Ok(_) => panic!("the largest fixnum fits the immediate encoding"),
        Err(f) => assert_eq!(f.to_i64(), FIXNUM_MAX),
    }
}

#[test]
fn zero_and_small_negatives_use_immediate_encoding() {
    match RBignum::from_i64(0) {
        Ok(_) => panic!("0 fits the immediate encoding"),
        Err(f) => assert_eq!(f.to_i64(), 0),
    }
    match RBignum::from_i64(-5) {
        Ok(_) => panic!("-5 fits the immediate encoding"),
        Err(f) => assert_eq!(f.to_i64(), -5),
    }
    match RBignum::from_u64(0) {
        Ok(_) => panic!("0 fits the immediate encoding"),
        Err(f) => assert_eq!(f.to_i64(), 0),
    }
}

#[test]
fn classification_follows_the_tag() {
    let nil = Value::nil();
    assert_eq!(nil.kind(), ValueKind::Nil);
    assert!(RBignum::from_value(&nil).is_none());
    assert!(Fixnum::from_value(&nil).is_none());

    let small = Value::integer_from_i64(42);
    assert_eq!(small.kind(), ValueKind::Fixnum);
    assert!(RBignum::from_value(&small).is_none());
    let f = Fixnum::from_value(&small).expect("a fixnum handle classifies as fixnum");
    assert_eq!(f.to_i64(), 42);

    let big = Value::integer_from_i64(i64::MAX);
    assert_eq!(big.kind(), ValueKind::Bignum);
    assert!(Fixnum::from_value(&big).is_none());
    let b = RBignum::from_value(&big).expect("a big-integer handle classifies as big integer");
    assert_eq!(b.to_i64(), Ok(i64::MAX));
}

#[test]
fn negative_big_integer_faults_unsigned_extraction() {
    let b = RBignum::from_i64(FIXNUM_MIN - 1).expect("below the range");
    assert_eq!(b.to_u64(), Err(ProtectState));
    let min = RBignum::from_i64(i64::MIN).expect("min i64 needs the heap encoding");
    assert_eq!(min.to_u64(), Err(ProtectState));
}

#[test]
fn signed_extraction_faults_just_past_i64_range() {
    let n = i64::MAX as u64 + 1;
    let b = RBignum::from_u64(n).expect("past the fixnum range");
    assert_eq!(b.to_i64(), Err(ProtectState));
    assert_eq!(b.to_u64(), Ok(n));
}

#[test]
fn projected_handle_reclassifies_as_the_same_big_integer() {
    let b = RBignum::from_u64(u64::MAX).expect("max u64 needs the heap encoding");
    let handle = b.as_value();
    assert_eq!(handle.kind(), ValueKind::Bignum);
    let again = RBignum::from_value(handle).expect("the projected handle keeps its tag");
    assert_eq!(again.to_u64(), Ok(u64::MAX));
}

#[test]
fn protected_conversion_faults_on_non_integer_handle() {
    let nil = Value::nil();
    assert_eq!(nil.protected_to_i64(), Err(ProtectState));
    assert_eq!(nil.protected_to_u64(), Err(ProtectState));
}

#[test]
fn protected_conversion_reads_fixnum_handles_too() {
    let small = Value::integer_from_i64(-7);
    assert_eq!(small.protected_to_i64(), Ok(-7));
    assert_eq!(small.protected_to_u64(), Err(ProtectState));
    let pos = Value::integer_from_u64(7);
    assert_eq!(pos.protected_to_u64(), Ok(7));
}

#[test]
fn duplicated_handle_denotes_the_same_value() {
    let big = Value::integer_from_u64(u64::MAX);
    let copy = big.clone();
    assert_eq!(copy.kind(), ValueKind::Bignum);
    assert_eq!(copy.protected_to_u64(), Ok(u64::MAX));
}
