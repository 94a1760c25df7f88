use plonkish::field::Felt;
use plonkish::value::Value;

#[test]
fn from_u64_is_little_endian_canonical() {
    let f = Felt::from_u64(35);
    let bytes = f.to_bytes();
    assert_eq!(bytes.len(), 32);
    assert_eq!(bytes[0], 35);
    assert!(bytes[1..].iter().all(|&b| b == 0));
}

#[test]
fn felt_equality_goes_by_value() {
    let a = Felt::from_u64(5);
    let b = Felt::from_u64(5);
    let c = Felt::from_u64(6);
    assert!(a.eq_felt(&b));
    assert!(!a.eq_felt(&c));
}

#[test]
fn known_multiplication_computes_the_field_product() {
    let three = Value::known(Felt::from_u64(3));
    let nine = three.mul(&three);
    match nine {
        Value::Known(f) => assert_eq!(f.to_bytes(), Felt::from_u64(9).to_bytes()),
        Value::Unknown => panic!("product of known values must be known"),
    }
}

#[test]
fn known_addition_computes_the_field_sum() {
    let two = Value::known(Felt::from_u64(2));
    let three = Value::known(Felt::from_u64(3));
    let five = two.add(&three);
    match five {
        Value::Known(f) => assert_eq!(f.to_bytes(), Felt::from_u64(5).to_bytes()),
        Value::Unknown => panic!("sum of known values must be known"),
    }
}

#[test]
fn unknown_propagates_through_mul_and_add() {
    let known = Value::known(Felt::from_u64(3));
    let unknown = Value::unknown();
    assert!(!known.mul(&unknown).is_known());
    assert!(!unknown.mul(&known).is_known());
    assert!(!unknown.mul(&unknown).is_known());
    assert!(!known.add(&unknown).is_known());
    assert!(!unknown.add(&known).is_known());
    assert!(!unknown.add(&unknown).is_known());
}

#[test]
fn map_never_evaluates_on_unknown() {
    let unknown = Value::unknown();
    // if `map` evaluated its operation on an unknown value, this would panic
    let mapped = unknown.map(|_f: Felt| -> Felt { panic!("evaluated on unknown") });
    assert!(!mapped.is_known());
}

#[test]
fn map_applies_on_known() {
    let three = Value::known(Felt::from_u64(3));
    let replaced = three.map(|_f: Felt| -> Felt { Felt::from_u64(7) });
    match replaced {
        Value::Known(f) => assert_eq!(f.to_bytes(), Felt::from_u64(7).to_bytes()),
        Value::Unknown => panic!("map of a known value must be known"),
    }
}

#[test]
fn combine_never_evaluates_on_unknown() {
    let known = Value::known(Felt::from_u64(3));
    let unknown = Value::unknown();
    let combined = known.combine(unknown, |_a: Felt, _b: Felt| -> Felt {
        panic!("evaluated on unknown")
    });
    assert!(!combined.is_known());
}
