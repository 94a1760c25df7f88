use plonkish::circuit::MyCircuit;
use plonkish::layout::{Cell, Error, Layouter};
use plonkish::chip::MyChip;
use plonkish::field::Felt;
use plonkish::system::{Column, ColumnKind, ConstraintSystem, Expr, Rotation, Selector};
use plonkish::value::Value;

#[test]
fn configure_allocates_the_expected_layout() {
    let mut meta = ConstraintSystem::new();
    let config = MyCircuit::configure(&mut meta);
    assert_eq!(meta.num_advice, 2);
    assert_eq!(meta.num_fixed, 1);
    assert_eq!(meta.num_instance, 1);
    assert_eq!(meta.num_selectors, 2);
    assert_eq!(config.advice[0], Column { kind: ColumnKind::Advice, index: 0 });
    assert_eq!(config.advice[1], Column { kind: ColumnKind::Advice, index: 1 });
    assert_eq!(config.instance, Column { kind: ColumnKind::Instance, index: 0 });
    assert_eq!(config.s_mul, Selector { index: 0 });
    assert_eq!(config.s_add, Selector { index: 1 });
    // equality: instance, the constants column, and both advice columns
    assert_eq!(
        meta.equality,
        vec![
            Column { kind: ColumnKind::Instance, index: 0 },
            Column { kind: ColumnKind::Fixed, index: 0 },
            Column { kind: ColumnKind::Advice, index: 0 },
            Column { kind: ColumnKind::Advice, index: 1 },
        ]
    );
    assert_eq!(meta.constants, vec![Column { kind: ColumnKind::Fixed, index: 0 }]);
}

#[test]
fn the_gate_has_the_two_gated_equations() {
    let mut meta = ConstraintSystem::new();
    let config = MyCircuit::configure(&mut meta);
    assert_eq!(meta.gates.len(), 1);
    let gate = &meta.gates[0];
    assert_eq!(gate.name, "mul/add");
    assert_eq!(gate.constraints.len(), 2);

    let mul = &gate.constraints[0];
    assert_eq!(mul.selector, config.s_mul);
    match &mul.lhs {
        Expr::Product(l, r) => {
            assert!(matches!(**l, Expr::Advice { column: 0, rotation: Rotation::Cur }));
            assert!(matches!(**r, Expr::Advice { column: 1, rotation: Rotation::Cur }));
        },
        other => panic!("mul lhs should be a product, got {other:?}"),
    }
    assert!(matches!(mul.rhs, Expr::Advice { column: 0, rotation: Rotation::Next }));

    let add = &gate.constraints[1];
    assert_eq!(add.selector, config.s_add);
    match &add.lhs {
        Expr::Sum(l, r) => {
            assert!(matches!(**l, Expr::Advice { column: 0, rotation: Rotation::Cur }));
            assert!(matches!(**r, Expr::Advice { column: 1, rotation: Rotation::Cur }));
        },
        other => panic!("add lhs should be a sum, got {other:?}"),
    }
    assert!(matches!(add.rhs, Expr::Advice { column: 0, rotation: Rotation::Next }));
}

#[test]
fn load_constant_needs_constants_enabled() {
    // a configuration that forgot enable_constant
    let mut meta = ConstraintSystem::new();
    let a0 = meta.advice_column();
    let a1 = meta.advice_column();
    let instance = meta.instance_column();
    let _fixed = meta.fixed_column();
    meta.enable_equality(instance);
    meta.enable_equality(a0);
    meta.enable_equality(a1);
    let s_mul = meta.selector();
    let s_add = meta.selector();
    let config = plonkish::chip::MyConfig { advice: [a0, a1], instance, s_mul, s_add };
    let chip = MyChip::new(config);
    let mut layouter = Layouter::new(meta);
    let r = chip.load_constant(&mut layouter, Felt::from_u64(5));
    assert_eq!(r.unwrap_err(), Error::ConstantsDisabled);
}

#[test]
fn copy_needs_equality_enabled() {
    let mut meta = ConstraintSystem::new();
    let a0 = meta.advice_column();
    let _a1 = meta.advice_column();
    let mut layouter = Layouter::new(meta);
    let left = Cell { region: 0, column: a0, row: 0 };
    let right = Cell { region: 0, column: a0, row: 1 };
    assert_eq!(layouter.copy(left, right).unwrap_err(), Error::EqualityDisabled);
}

#[test]
fn assignment_needs_an_open_region() {
    let mut meta = ConstraintSystem::new();
    let a0 = meta.advice_column();
    let mut layouter = Layouter::new(meta);
    let r = layouter.assign_advice(a0, 0, Value::known(Felt::from_u64(1)));
    assert_eq!(r.unwrap_err(), Error::NoRegion);
}

#[test]
fn unknown_selector_is_unconfigured() {
    let mut meta = ConstraintSystem::new();
    let _a0 = meta.advice_column();
    let mut layouter = Layouter::new(meta);
    layouter.open_region("stray");
    let r = layouter.enable_selector(Selector { index: 7 }, 0);
    assert_eq!(r.unwrap_err(), Error::Unconfigured);
}

#[test]
fn unallocated_column_is_unconfigured() {
    let meta = ConstraintSystem::new();
    let mut layouter = Layouter::new(meta);
    layouter.open_region("stray");
    let bad = Column { kind: ColumnKind::Advice, index: 0 };
    let r = layouter.assign_advice(bad, 0, Value::unknown());
    assert_eq!(r.unwrap_err(), Error::Unconfigured);
}

#[test]
fn expose_public_needs_instance_equality() {
    // everything enabled except equality on the instance column
    let mut meta = ConstraintSystem::new();
    let a0 = meta.advice_column();
    let a1 = meta.advice_column();
    let instance = meta.instance_column();
    let fixed = meta.fixed_column();
    meta.enable_constant(fixed);
    meta.enable_equality(a0);
    meta.enable_equality(a1);
    let s_mul = meta.selector();
    let s_add = meta.selector();
    let config = plonkish::chip::MyConfig { advice: [a0, a1], instance, s_mul, s_add };
    let chip = MyChip::new(config);
    let mut layouter = Layouter::new(meta);
    let circuit = MyCircuit { x: Value::known(Felt::from_u64(3)), constant: Felt::from_u64(5) };
    let r = circuit.synthesize(config, &mut layouter);
    assert_eq!(r.unwrap_err(), Error::EqualityDisabled);
    let _ = chip;
}

#[test]
fn default_circuit_has_no_witness_and_zero_constant() {
    let circuit = MyCircuit::default();
    assert!(!circuit.x.is_known());
    assert_eq!(circuit.constant.to_bytes(), Felt::from_u64(0).to_bytes());
}
