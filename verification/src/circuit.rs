//! The example circuit for `x^3 + x + c` and its synthesis engine: a fixed
//! sequence of chip operations, one region each, in dependency order, with
//! the result bound to row 0 of the instance column.
use vstd::prelude::*;

use crate::system::{Column, ColumnKind, ConstraintSystem, Selector, column_allocated,
    equality_enabled};
use crate::layout::{Cell, CopyPair, Error, InstanceUse, Layouter, SelectorUse, can_assign_advice,
    can_assign_constant, entry_views, region_views};
use crate::chip::{MyChip, MyConfig, is_mul_add_constraints, mul_add_ok};
use crate::value::{Value, spec_add_value, spec_mul_value};
use crate::field::{Felt, pasta_add, pasta_from_u64, pasta_mul};

verus! {

/// The circuit: a private input `x` and a fixed constant `c`, computing
/// `x^3 + x + c` and exposing the result as the one public input.
#[derive(Clone, Copy, Debug)]
pub struct MyCircuit {
    pub x: Value,
    pub constant: Felt,
}

impl Default for MyCircuit {
    /// The witness-free shape of the circuit: an unknown private input and
    /// the zero constant.
    fn default() -> (r: MyCircuit)
        ensures
            r.x@ is None,
            r.constant@ == pasta_from_u64(0),
    {
        MyCircuit { x: Value::unknown(), constant: Felt::from_u64(0) }
    }
}

/// `x^3 + x + c` over the backend's field, on byte representations.
pub open spec fn cubic_formula(x: Seq<u8>, c: Seq<u8>) -> Seq<u8> {
    pasta_add(pasta_add(pasta_mul(pasta_mul(x, x), x), x), c)
}

/// The configuration this circuit's `configure` produces on a fresh
/// constraint system.
pub open spec fn is_expected_config(cfg: MyConfig) -> bool {
    &&& cfg.advice@[0] == (Column { kind: ColumnKind::Advice, index: 0 })
    &&& cfg.advice@[1] == (Column { kind: ColumnKind::Advice, index: 1 })
    &&& cfg.instance == (Column { kind: ColumnKind::Instance, index: 0 })
    &&& cfg.s_mul == (Selector { index: 0 })
    &&& cfg.s_add == (Selector { index: 1 })
}

/// The constraint system this circuit's `configure` leaves behind on a
/// fresh one: two advice columns, one instance column, one fixed column,
/// two selectors, equality on instance and advice, constants on the fixed
/// column, and the one shared mul/add gate.
pub open spec fn is_expected_cs(cs: ConstraintSystem) -> bool {
    &&& cs.num_advice == 2
    &&& cs.num_fixed == 1
    &&& cs.num_instance == 1
    &&& cs.num_selectors == 2
    &&& cs.equality@ == seq![
        Column { kind: ColumnKind::Instance, index: 0 },
        Column { kind: ColumnKind::Fixed, index: 0 },
        Column { kind: ColumnKind::Advice, index: 0 },
        Column { kind: ColumnKind::Advice, index: 1 },
    ]
    &&& cs.constants@ == seq![Column { kind: ColumnKind::Fixed, index: 0 }]
    &&& cs.gates@.len() == 1
    &&& cs.gates@[0].name@ == "mul/add"@
    &&& is_mul_add_constraints(
        cs.gates@[0].constraints@,
        0,
        1,
        Selector { index: 0 },
        Selector { index: 1 },
    )
}

/// Everything synthesis needs from the configuration to go through without
/// a configuration error.
pub open spec fn synth_ok(config: MyConfig, cs: ConstraintSystem) -> bool {
    &&& can_assign_advice(cs, config.advice@[0])
    &&& can_assign_advice(cs, config.advice@[1])
    &&& can_assign_constant(cs, config.advice@[0])
    &&& config.s_mul.index < cs.num_selectors
    &&& config.s_add.index < cs.num_selectors
    &&& equality_enabled(cs, config.advice@[1])
    &&& config.instance.kind == ColumnKind::Instance
    &&& column_allocated(cs, config.instance)
    &&& equality_enabled(cs, config.instance)
}

/// The full record a successful synthesis leaves in a fresh layouter:
/// six regions in order, every cell assignment with its lazily combined
/// value, every copy constraint, the four selector activations, and the
/// binding of the result cell to instance row 0.
pub open spec fn is_synth_trace(
    l: Layouter,
    config: MyConfig,
    x: Option<Seq<u8>>,
    c: Seq<u8>,
) -> bool {
    let a0 = config.advice@[0];
    let a1 = config.advice@[1];
    let fixed = l.cs.constants@[0];
    let cv = Some(c);
    let x2 = spec_mul_value(x, x);
    let x3 = spec_mul_value(x2, x);
    let x3x = spec_add_value(x3, x);
    let res = spec_add_value(x3x, cv);
    &&& region_views(l.regions@) == seq![
        ("load private"@, 1int),
        ("load constant"@, 1int),
        ("mul"@, 2int),
        ("mul"@, 2int),
        ("add"@, 2int),
        ("add"@, 2int),
    ]
    &&& entry_views(l.assigned@) == seq![
        (Cell { region: 0, column: a0, row: 0 }, x),
        (Cell { region: 1, column: fixed, row: 0 }, cv),
        (Cell { region: 1, column: a0, row: 0 }, cv),
        (Cell { region: 2, column: a0, row: 0 }, x),
        (Cell { region: 2, column: a1, row: 0 }, x),
        (Cell { region: 2, column: a0, row: 1 }, x2),
        (Cell { region: 3, column: a0, row: 0 }, x2),
        (Cell { region: 3, column: a1, row: 0 }, x),
        (Cell { region: 3, column: a0, row: 1 }, x3),
        (Cell { region: 4, column: a0, row: 0 }, x3),
        (Cell { region: 4, column: a1, row: 0 }, x),
        (Cell { region: 4, column: a0, row: 1 }, x3x),
        (Cell { region: 5, column: a0, row: 0 }, x3x),
        (Cell { region: 5, column: a1, row: 0 }, cv),
        (Cell { region: 5, column: a0, row: 1 }, res),
    ]
    &&& l.copies@ == seq![
        CopyPair {
            left: Cell { region: 1, column: a0, row: 0 },
            right: Cell { region: 1, column: fixed, row: 0 },
        },
        CopyPair {
            left: Cell { region: 0, column: a0, row: 0 },
            right: Cell { region: 2, column: a0, row: 0 },
        },
        CopyPair {
            left: Cell { region: 0, column: a0, row: 0 },
            right: Cell { region: 2, column: a1, row: 0 },
        },
        CopyPair {
            left: Cell { region: 2, column: a0, row: 1 },
            right: Cell { region: 3, column: a0, row: 0 },
        },
        CopyPair {
            left: Cell { region: 0, column: a0, row: 0 },
            right: Cell { region: 3, column: a1, row: 0 },
        },
        CopyPair {
            left: Cell { region: 3, column: a0, row: 1 },
            right: Cell { region: 4, column: a0, row: 0 },
        },
        CopyPair {
            left: Cell { region: 0, column: a0, row: 0 },
            right: Cell { region: 4, column: a1, row: 0 },
        },
        CopyPair {
            left: Cell { region: 4, column: a0, row: 1 },
            right: Cell { region: 5, column: a0, row: 0 },
        },
        CopyPair {
            left: Cell { region: 1, column: a0, row: 0 },
            right: Cell { region: 5, column: a1, row: 0 },
        },
    ]
    &&& l.enabled@ == seq![
        SelectorUse { selector: config.s_mul, region: 2, row: 0 },
        SelectorUse { selector: config.s_mul, region: 3, row: 0 },
        SelectorUse { selector: config.s_add, region: 4, row: 0 },
        SelectorUse { selector: config.s_add, region: 5, row: 0 },
    ]
    &&& l.instance_uses@ == seq![
        InstanceUse {
            cell: Cell { region: 5, column: a0, row: 1 },
            column: config.instance,
            row: 0,
        },
    ]
}

impl MyCircuit {
    /// The same circuit with the witness removed, as used during key
    /// generation: synthesis must produce the same structure from it.
    pub fn without_witnesses(&self) -> (r: MyCircuit)
        ensures
            r.x@ is None,
            r.constant@ == pasta_from_u64(0),
    {
        MyCircuit::default()
    }

    /// Allocates the circuit's columns on a fresh constraint system — two
    /// advice, one instance, one fixed — and hands them to the chip.
    pub fn configure(meta: &mut ConstraintSystem) -> (cfg: MyConfig)
        requires
            old(meta).is_fresh(),
        ensures
            is_expected_config(cfg),
            is_expected_cs(*final(meta)),
    {
        let a0 = meta.advice_column();
        let a1 = meta.advice_column();
        let advice = [a0, a1];
        let instance = meta.instance_column();
        let constant = meta.fixed_column();
        let cfg = MyChip::configure(meta, advice, instance, constant);
        proof {
            assert(meta.equality@ =~= seq![
                Column { kind: ColumnKind::Instance, index: 0 },
                Column { kind: ColumnKind::Fixed, index: 0 },
                Column { kind: ColumnKind::Advice, index: 0 },
                Column { kind: ColumnKind::Advice, index: 1 },
            ]);
            assert(meta.constants@ =~= seq![Column { kind: ColumnKind::Fixed, index: 0 }]);
        }
        cfg
    }

    /// Executes the chip operations in dependency order, each in a region
    /// of its own: load `x`, load `c`, square, cube, add `x`, add `c`, and
    /// expose the result at instance row 0. Succeeds exactly when the
    /// configuration supports all of them, and then leaves the full record
    /// described by `is_synth_trace`.
    #[verifier::rlimit(50)]
    pub fn synthesize(&self, config: MyConfig, layouter: &mut Layouter) -> (r: Result<(), Error>)
        requires
            old(layouter).is_fresh(),
        ensures
            final(layouter).cs == old(layouter).cs,
            r is Ok <==> synth_ok(config, old(layouter).cs),
            r is Ok ==> is_synth_trace(*final(layouter), config, self.x@, self.constant@),
    {
        let chip = MyChip::new(config);
        let x = match chip.load_private(layouter, self.x) {
            Ok(c) => c,
            Err(e) => {
                return Err(e);
            },
        };
        let constant = match chip.load_constant(layouter, self.constant) {
            Ok(c) => c,
            Err(e) => {
                return Err(e);
            },
        };
        let x2 = match chip.mul(layouter, x, x) {
            Ok(c) => c,
            Err(e) => {
                return Err(e);
            },
        };
        let x3 = match chip.mul(layouter, x2, x) {
            Ok(c) => c,
            Err(e) => {
                return Err(e);
            },
        };
        let x3_x = match chip.add(layouter, x3, x) {
            Ok(c) => c,
            Err(e) => {
                return Err(e);
            },
        };
        let x3_x_5 = match chip.add(layouter, x3_x, constant) {
            Ok(c) => c,
            Err(e) => {
                return Err(e);
            },
        };
        let r = chip.expose_public(layouter, x3_x_5, 0);
        proof {
            if r is Ok {
                assert(region_views(layouter.regions@) =~= seq![
                    ("load private"@, 1int),
                    ("load constant"@, 1int),
                    ("mul"@, 2int),
                    ("mul"@, 2int),
                    ("add"@, 2int),
                    ("add"@, 2int),
                ]);
                assert(entry_views(layouter.assigned@) =~= is_synth_trace_entries(
                    *layouter,
                    config,
                    self.x@,
                    self.constant@,
                ));
                assert(layouter.copies@ =~= is_synth_trace_copies(*layouter, config));
                assert(layouter.enabled@ =~= seq![
                    SelectorUse { selector: config.s_mul, region: 2, row: 0 },
                    SelectorUse { selector: config.s_mul, region: 3, row: 0 },
                    SelectorUse { selector: config.s_add, region: 4, row: 0 },
                    SelectorUse { selector: config.s_add, region: 5, row: 0 },
                ]);
                assert(layouter.instance_uses@ =~= seq![
                    InstanceUse {
                        cell: Cell { region: 5, column: config.advice@[0], row: 1 },
                        column: config.instance,
                        row: 0,
                    },
                ]);
            }
        }
        r
    }
}

/// The assignment list of `is_synth_trace`, named so the synthesis proof
/// can assert it piecewise.
pub open spec fn is_synth_trace_entries(
    l: Layouter,
    config: MyConfig,
    x: Option<Seq<u8>>,
    c: Seq<u8>,
) -> Seq<(Cell, Option<Seq<u8>>)> {
    let a0 = config.advice@[0];
    let a1 = config.advice@[1];
    let fixed = l.cs.constants@[0];
    let cv = Some(c);
    let x2 = spec_mul_value(x, x);
    let x3 = spec_mul_value(x2, x);
    let x3x = spec_add_value(x3, x);
    let res = spec_add_value(x3x, cv);
    seq![
        (Cell { region: 0, column: a0, row: 0 }, x),
        (Cell { region: 1, column: fixed, row: 0 }, cv),
        (Cell { region: 1, column: a0, row: 0 }, cv),
        (Cell { region: 2, column: a0, row: 0 }, x),
        (Cell { region: 2, column: a1, row: 0 }, x),
        (Cell { region: 2, column: a0, row: 1 }, x2),
        (Cell { region: 3, column: a0, row: 0 }, x2),
        (Cell { region: 3, column: a1, row: 0 }, x),
        (Cell { region: 3, column: a0, row: 1 }, x3),
        (Cell { region: 4, column: a0, row: 0 }, x3),
        (Cell { region: 4, column: a1, row: 0 }, x),
        (Cell { region: 4, column: a0, row: 1 }, x3x),
        (Cell { region: 5, column: a0, row: 0 }, x3x),
        (Cell { region: 5, column: a1, row: 0 }, cv),
        (Cell { region: 5, column: a0, row: 1 }, res),
    ]
}

/// The copy-constraint list of `is_synth_trace`, named so the synthesis
/// proof can assert it piecewise.
pub open spec fn is_synth_trace_copies(l: Layouter, config: MyConfig) -> Seq<CopyPair> {
    let a0 = config.advice@[0];
    let a1 = config.advice@[1];
    let fixed = l.cs.constants@[0];
    seq![
        CopyPair {
            left: Cell { region: 1, column: a0, row: 0 },
            right: Cell { region: 1, column: fixed, row: 0 },
        },
        CopyPair {
            left: Cell { region: 0, column: a0, row: 0 },
            right: Cell { region: 2, column: a0, row: 0 },
        },
        CopyPair {
            left: Cell { region: 0, column: a0, row: 0 },
            right: Cell { region: 2, column: a1, row: 0 },
        },
        CopyPair {
            left: Cell { region: 2, column: a0, row: 1 },
            right: Cell { region: 3, column: a0, row: 0 },
        },
        CopyPair {
            left: Cell { region: 0, column: a0, row: 0 },
            right: Cell { region: 3, column: a1, row: 0 },
        },
        CopyPair {
            left: Cell { region: 3, column: a0, row: 1 },
            right: Cell { region: 4, column: a0, row: 0 },
        },
        CopyPair {
            left: Cell { region: 0, column: a0, row: 0 },
            right: Cell { region: 4, column: a1, row: 0 },
        },
        CopyPair {
            left: Cell { region: 4, column: a0, row: 1 },
            right: Cell { region: 5, column: a0, row: 0 },
        },
        CopyPair {
            left: Cell { region: 1, column: a0, row: 0 },
            right: Cell { region: 5, column: a1, row: 0 },
        },
    ]
}

/// Configures a fresh constraint system, then synthesizes `circuit` into a
/// fresh layouter. A correctly configured run cannot fail, so this returns
/// the configuration and the finished record directly.
pub fn run_synthesis(circuit: &MyCircuit) -> (r: (MyConfig, Layouter))
    ensures
        is_expected_config(r.0),
        is_expected_cs(r.1.cs),
        is_synth_trace(r.1, r.0, circuit.x@, circuit.constant@),
        crate::checker::trace_wf(r.1),
        crate::checker::spec_gates_ok(r.1),
        crate::checker::spec_copies_ok(r.1),
        circuit.x@ matches Some(xv) ==> crate::checker::spec_accepts(
            r.1,
            seq![cubic_formula(xv, circuit.constant@)],
        ),
{
    let mut meta = ConstraintSystem::new();
    let config = MyCircuit::configure(&mut meta);
    let mut layouter = Layouter::new(meta);
    proof {
        assert(equality_enabled(layouter.cs, config.advice@[0])) by {
            assert(layouter.cs.equality@[2] == config.advice@[0]);
        }
        assert(equality_enabled(layouter.cs, config.advice@[1])) by {
            assert(layouter.cs.equality@[3] == config.advice@[1]);
        }
        assert(equality_enabled(layouter.cs, config.instance)) by {
            assert(layouter.cs.equality@[0] == config.instance);
        }
        assert(equality_enabled(layouter.cs, layouter.cs.constants@[0])) by {
            assert(layouter.cs.equality@[1] == layouter.cs.constants@[0]);
        }
        assert(synth_ok(config, layouter.cs));
    }
    let result = circuit.synthesize(config, &mut layouter);
    proof {
        crate::laws::lemma_constraints_hold(layouter, config, circuit.x@, circuit.constant@);
        if circuit.x@ is Some {
            crate::laws::lemma_synthesis_accepted(
                layouter,
                config,
                circuit.x@.unwrap(),
                circuit.constant@,
            );
        }
    }
    match result {
        Ok(_) => (config, layouter),
        Err(_) => {
            proof {
                assert(false);
            }
            (config, layouter)
        },
    }
}

} // verus!
