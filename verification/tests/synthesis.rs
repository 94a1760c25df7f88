use plonkish::chip::MyChip;
use plonkish::checker::{accepts, copies_satisfied, gates_satisfied, public_inputs_accepted};
use plonkish::circuit::{run_synthesis, MyCircuit};
use plonkish::field::Felt;
use plonkish::layout::{AssignedCell, Cell};
use plonkish::value::Value;

fn circuit_3_5() -> MyCircuit {
    MyCircuit { x: Value::known(Felt::from_u64(3)), constant: Felt::from_u64(5) }
}

#[test]
fn scenario_a_public_35_accepted() {
    let circuit = circuit_3_5();
    let (_config, trace) = run_synthesis(&circuit);
    let public = vec![Felt::from_u64(35)];
    assert!(accepts(&trace, &public));
}

#[test]
fn scenario_b_public_34_rejected() {
    let circuit = circuit_3_5();
    let (_config, trace) = run_synthesis(&circuit);
    // synthesis itself succeeded and the structure is intact ...
    assert!(gates_satisfied(&trace));
    assert!(copies_satisfied(&trace));
    // ... only the wrong public input is rejected
    let public = vec![Felt::from_u64(34)];
    assert!(!public_inputs_accepted(&trace, &public));
    assert!(!accepts(&trace, &public));
}

#[test]
fn scenario_c_unknown_witness_synthesizes() {
    let circuit = circuit_3_5();
    let keygen = circuit.without_witnesses();
    assert!(!keygen.x.is_known());
    let (_config, trace) = run_synthesis(&keygen);
    assert_eq!(trace.assigned.len(), 15);
    for (i, entry) in trace.assigned.iter().enumerate() {
        // only the constant region's two cells hold a value
        let expect_known = i == 1 || i == 2 || i == 13;
        assert_eq!(entry.value.is_known(), expect_known, "entry {i}");
    }
    // gate and copy checks have nothing to flag on unknown values
    assert!(gates_satisfied(&trace));
    assert!(copies_satisfied(&trace));
    // but an unknown result cell matches no concrete public input
    let public = vec![Felt::from_u64(0)];
    assert!(!public_inputs_accepted(&trace, &public));
}

#[test]
fn scenario_d_row_reuse_is_a_conflict() {
    let circuit = circuit_3_5();
    let (config, mut trace) = run_synthesis(&circuit);
    let chip = MyChip::new(config);
    // bind a second, different cell to the same instance row
    let other = AssignedCell {
        cell: Cell { region: 0, column: config.advice[0], row: 0 },
        value: Value::known(Felt::from_u64(3)),
    };
    chip.expose_public(&mut trace, other, 0).unwrap();
    assert_eq!(trace.instance_uses.len(), 2);
    let public = vec![Felt::from_u64(35)];
    assert!(!public_inputs_accepted(&trace, &public));
    assert!(!accepts(&trace, &public));
}

#[test]
fn wrong_public_arity_rejected() {
    let circuit = circuit_3_5();
    let (_config, trace) = run_synthesis(&circuit);
    // an extra public input row that nothing binds
    let public = vec![Felt::from_u64(35), Felt::from_u64(0)];
    assert!(!public_inputs_accepted(&trace, &public));
    // and no public input at all leaves the binding out of range
    let none: Vec<Felt> = Vec::new();
    assert!(!public_inputs_accepted(&trace, &none));
}

#[test]
fn structures_match_between_proving_and_keygen() {
    let proving = circuit_3_5();
    let keygen = proving.without_witnesses();
    let (_c1, t1) = run_synthesis(&proving);
    let (_c2, t2) = run_synthesis(&keygen);

    assert_eq!(t1.regions.len(), t2.regions.len());
    for (r1, r2) in t1.regions.iter().zip(t2.regions.iter()) {
        assert_eq!(r1.name, r2.name);
        assert_eq!(r1.height, r2.height);
    }
    assert_eq!(t1.copies, t2.copies);
    assert_eq!(t1.enabled, t2.enabled);
    assert_eq!(t1.instance_uses, t2.instance_uses);
    assert_eq!(t1.assigned.len(), t2.assigned.len());
    for (a1, a2) in t1.assigned.iter().zip(t2.assigned.iter()) {
        assert_eq!(a1.cell, a2.cell);
    }
    // the values themselves differ: proving knows them, keygen does not
    assert!(t1.assigned[0].value.is_known());
    assert!(!t2.assigned[0].value.is_known());
}

#[test]
fn region_names_and_heights() {
    let (_config, trace) = run_synthesis(&circuit_3_5());
    let names: Vec<&str> = trace.regions.iter().map(|r| r.name.as_str()).collect();
    assert_eq!(names, vec!["load private", "load constant", "mul", "mul", "add", "add"]);
    let heights: Vec<usize> = trace.regions.iter().map(|r| r.height).collect();
    assert_eq!(heights, vec![1, 1, 2, 2, 2, 2]);
}

#[test]
fn result_cell_value_is_35() {
    let (config, trace) = run_synthesis(&circuit_3_5());
    // the last assignment is the result cell, bound to instance row 0
    let last = trace.assigned.last().unwrap();
    assert_eq!(last.cell, Cell { region: 5, column: config.advice[0], row: 1 });
    assert_eq!(trace.instance_uses[0].cell, last.cell);
    assert_eq!(trace.instance_uses[0].row, 0);
    match last.value {
        Value::Known(f) => assert_eq!(f.to_bytes(), Felt::from_u64(35).to_bytes()),
        Value::Unknown => panic!("result should be known"),
    }
}

#[test]
fn tampered_output_cell_violates_a_gate() {
    let circuit = circuit_3_5();
    let (config, mut trace) = run_synthesis(&circuit);
    assert!(gates_satisfied(&trace));
    // overwrite the result cell (row 1 of the last region) with a wrong
    // value: the addition gate of that region now sees 35 = 36
    trace
        .assign_advice(config.advice[0], 1, Value::known(Felt::from_u64(36)))
        .unwrap();
    assert!(!gates_satisfied(&trace));
    let public = vec![Felt::from_u64(35)];
    assert!(!accepts(&trace, &public));
}

#[test]
fn unequal_cells_violate_a_copy_constraint() {
    let circuit = circuit_3_5();
    let (config, mut trace) = run_synthesis(&circuit);
    assert!(copies_satisfied(&trace));
    // constrain the x cell (3) to the constant cell (5)
    let x_cell = Cell { region: 0, column: config.advice[0], row: 0 };
    let c_cell = Cell { region: 1, column: config.advice[0], row: 0 };
    trace.copy(x_cell, c_cell).unwrap();
    assert!(!copies_satisfied(&trace));
    let public = vec![Felt::from_u64(35)];
    assert!(!accepts(&trace, &public));
}
