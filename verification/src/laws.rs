//! The laws this library states about itself: synthesis satisfies every
//! recorded constraint, the exposed cell carries `x^3 + x + c`, structure
//! does not depend on the witness, every operation input is copy-linked,
//! and unknown values propagate without evaluation.
use vstd::prelude::*;

use crate::layout::{AssignedCell, Cell, CopyPair, Layouter, entry_views, region_views};
use crate::chip::MyConfig;
use crate::circuit::{cubic_formula, is_expected_config, is_expected_cs, is_synth_trace};
use crate::checker::{cell_in_range, find_value, spec_accepts, spec_binding_ok,
    spec_cell_row, spec_constraint_ok, spec_copies_ok, spec_copy_ok, spec_eval, spec_gates_ok,
    spec_no_row_conflict, spec_public_ok, spec_region_start, spec_row_bound, spec_rows_covered,
    spec_selector_active, spec_total_rows, spec_value_at, trace_wf};
use crate::value::{spec_add_value, spec_mul_value};

verus! {

/// The cells of an assignment list, without the values.
pub open spec fn entry_cells(s: Seq<AssignedCell>) -> Seq<Cell> {
    s.map_values(|e: AssignedCell| e.cell)
}

/// The region starts of the expected trace: 0, 1, 2, 4, 6, 8, and 10 rows
/// in all.
proof fn lemma_expected_starts(l: Layouter, config: MyConfig, x: Option<Seq<u8>>, c: Seq<u8>)
    requires
        is_synth_trace(l, config, x, c),
    ensures
        region_views(l.regions@).len() == 6,
        spec_region_start(region_views(l.regions@), 0) == 0,
        spec_region_start(region_views(l.regions@), 1) == 1,
        spec_region_start(region_views(l.regions@), 2) == 2,
        spec_region_start(region_views(l.regions@), 3) == 4,
        spec_region_start(region_views(l.regions@), 4) == 6,
        spec_region_start(region_views(l.regions@), 5) == 8,
        spec_region_start(region_views(l.regions@), 6) == 10,
        spec_total_rows(region_views(l.regions@)) == 10,
{
    let v = region_views(l.regions@);
    assert(spec_region_start(v, 1) == spec_region_start(v, 0) + v[0].1);
    assert(spec_region_start(v, 2) == spec_region_start(v, 1) + v[1].1);
    assert(spec_region_start(v, 3) == spec_region_start(v, 2) + v[2].1);
    assert(spec_region_start(v, 4) == spec_region_start(v, 3) + v[3].1);
    assert(spec_region_start(v, 5) == spec_region_start(v, 4) + v[4].1);
    assert(spec_region_start(v, 6) == spec_region_start(v, 5) + v[5].1);
}

/// Every value the expected trace holds, resolved to global rows.
proof fn lemma_expected_values(l: Layouter, config: MyConfig, x: Option<Seq<u8>>, c: Seq<u8>)
    requires
        is_expected_config(config),
        is_synth_trace(l, config, x, c),
    ensures
        spec_value_at(l, config.advice@[0], 0) == Some(x),
        spec_value_at(l, config.advice@[0], 1) == Some(Some(c)),
        spec_value_at(l, config.advice@[0], 2) == Some(x),
        spec_value_at(l, config.advice@[0], 3) == Some(spec_mul_value(x, x)),
        spec_value_at(l, config.advice@[0], 4) == Some(spec_mul_value(x, x)),
        spec_value_at(l, config.advice@[0], 5) == Some(
            spec_mul_value(spec_mul_value(x, x), x),
        ),
        spec_value_at(l, config.advice@[0], 6) == Some(
            spec_mul_value(spec_mul_value(x, x), x),
        ),
        spec_value_at(l, config.advice@[0], 7) == Some(
            spec_add_value(spec_mul_value(spec_mul_value(x, x), x), x),
        ),
        spec_value_at(l, config.advice@[0], 8) == Some(
            spec_add_value(spec_mul_value(spec_mul_value(x, x), x), x),
        ),
        spec_value_at(l, config.advice@[0], 9) == Some(
            spec_add_value(
                spec_add_value(spec_mul_value(spec_mul_value(x, x), x), x),
                Some(c),
            ),
        ),
        spec_value_at(l, config.advice@[1], 2) == Some(x),
        spec_value_at(l, config.advice@[1], 4) == Some(x),
        spec_value_at(l, config.advice@[1], 6) == Some(x),
        spec_value_at(l, config.advice@[1], 8) == Some(Some(c)),
        spec_value_at(l, l.cs.constants@[0], 1) == Some(Some(c)),
{
    lemma_expected_starts(l, config, x, c);
    reveal_with_fuel(find_value, 17);
    let v = region_views(l.regions@);
    let e = entry_views(l.assigned@);
    assert(e.len() == 15);
    assert forall|i: int| 0 <= i < 15 implies (#[trigger] e.drop_last().take(i)) == e.take(i) by {
        assert(e.drop_last().take(i) =~= e.take(i));
    }
}

/// Well-formedness of the expected trace: every recorded cell lies inside
/// its region and the ten rows fit the machine.
pub proof fn lemma_expected_trace_wf(l: Layouter, config: MyConfig, x: Option<Seq<u8>>, c: Seq<u8>)
    requires
        is_expected_config(config),
        is_synth_trace(l, config, x, c),
    ensures
        trace_wf(l),
{
    lemma_expected_starts(l, config, x, c);
    let v = region_views(l.regions@);
    assert forall|i: int| 0 <= i < l.assigned@.len() implies cell_in_range(
        v,
        (#[trigger] l.assigned@[i]).cell,
    ) by {
        assert(entry_views(l.assigned@).len() == l.assigned@.len());
        assert(l.assigned@.len() == 15);
        assert(entry_views(l.assigned@)[i] == (l.assigned@[i].cell, l.assigned@[i].value@));
        if i == 0 {
            assert(cell_in_range(v, entry_views(l.assigned@)[0].0));
        } else if i == 1 {
            assert(cell_in_range(v, entry_views(l.assigned@)[1].0));
        } else if i == 2 {
            assert(cell_in_range(v, entry_views(l.assigned@)[2].0));
        } else if i == 3 {
            assert(cell_in_range(v, entry_views(l.assigned@)[3].0));
        } else if i == 4 {
            assert(cell_in_range(v, entry_views(l.assigned@)[4].0));
        } else if i == 5 {
            assert(cell_in_range(v, entry_views(l.assigned@)[5].0));
        } else if i == 6 {
            assert(cell_in_range(v, entry_views(l.assigned@)[6].0));
        } else if i == 7 {
            assert(cell_in_range(v, entry_views(l.assigned@)[7].0));
        } else if i == 8 {
            assert(cell_in_range(v, entry_views(l.assigned@)[8].0));
        } else if i == 9 {
            assert(cell_in_range(v, entry_views(l.assigned@)[9].0));
        } else if i == 10 {
            assert(cell_in_range(v, entry_views(l.assigned@)[10].0));
        } else if i == 11 {
            assert(cell_in_range(v, entry_views(l.assigned@)[11].0));
        } else if i == 12 {
            assert(cell_in_range(v, entry_views(l.assigned@)[12].0));
        } else if i == 13 {
            assert(cell_in_range(v, entry_views(l.assigned@)[13].0));
        } else if i == 14 {
            assert(cell_in_range(v, entry_views(l.assigned@)[14].0));
        }
    }
    assert forall|i: int| 0 <= i < l.instance_uses@.len() implies cell_in_range(
        v,
        (#[trigger] l.instance_uses@[i]).cell,
    ) by {
        assert(l.instance_uses@[i] == l.instance_uses@[0]);
    }
}

/// Correctness: after a synthesis with a known witness `x` and constant
/// `c`, every recorded gate equation holds on every row with an active
/// selector, every copy constraint relates equal values, and the one cell
/// bound to instance row 0 holds exactly `x^3 + x + c` — so the backend
/// accepts precisely the public input vector `[x^3 + x + c]`.
pub proof fn lemma_synthesis_accepted(l: Layouter, config: MyConfig, x: Seq<u8>, c: Seq<u8>)
    requires
        is_expected_config(config),
        is_expected_cs(l.cs),
        is_synth_trace(l, config, Some(x), c),
    ensures
        spec_accepts(l, seq![cubic_formula(x, c)]),
        spec_value_at(l, config.advice@[0], 9) == Some(Some(cubic_formula(x, c))),
{
    lemma_constraints_hold(l, config, Some(x), c);
    lemma_expected_values(l, config, Some(x), c);
    let public = seq![cubic_formula(x, c)];
    let u = l.instance_uses@[0];
    assert(spec_cell_row(region_views(l.regions@), u.cell) == 9) by {
        lemma_expected_starts(l, config, Some(x), c);
    }
    assert(spec_binding_ok(l, u, public));
    assert forall|i: int| 0 <= i < l.instance_uses@.len() implies spec_binding_ok(
        l,
        l.instance_uses@[i],
        public,
    ) by {
        assert(l.instance_uses@[i] == u);
    }
    assert(spec_row_bound(l, 0)) by {
        assert(l.instance_uses@[0].row == 0);
    }
    assert(spec_rows_covered(l, public));
    assert(spec_no_row_conflict(l));
}

/// Constraint closure for any witness, known or not: all gate equations
/// and copy constraints of the trace hold — an unknown side is never a
/// violation, and every known side agrees by construction.
pub proof fn lemma_constraints_hold(l: Layouter, config: MyConfig, x: Option<Seq<u8>>, c: Seq<u8>)
    requires
        is_expected_config(config),
        is_expected_cs(l.cs),
        is_synth_trace(l, config, x, c),
    ensures
        trace_wf(l),
        spec_gates_ok(l),
        spec_copies_ok(l),
{
    lemma_expected_trace_wf(l, config, x, c);
    lemma_expected_starts(l, config, x, c);
    lemma_expected_values(l, config, x, c);
    let v = region_views(l.regions@);
    let s_mul = config.s_mul;
    let s_add = config.s_add;

    assert forall|g: int| spec_selector_active(l, s_mul, g) implies g == 2 || g == 4 by {
        let i = choose|i: int|
            0 <= i < l.enabled@.len() && l.enabled@[i].selector == s_mul && spec_region_start(
                v,
                l.enabled@[i].region as int,
            ) + l.enabled@[i].row == g;
    }
    assert forall|g: int| spec_selector_active(l, s_add, g) implies g == 6 || g == 8 by {
        let i = choose|i: int|
            0 <= i < l.enabled@.len() && l.enabled@[i].selector == s_add && spec_region_start(
                v,
                l.enabled@[i].region as int,
            ) + l.enabled@[i].row == g;
    }

    let c0 = l.cs.gates@[0].constraints@[0];
    let c1 = l.cs.gates@[0].constraints@[1];
    assert(c0.selector == s_mul);
    assert(c1.selector == s_add);

    let x2 = spec_mul_value(x, x);
    let x3 = spec_mul_value(x2, x);
    let x3x = spec_add_value(x3, x);
    let res = spec_add_value(x3x, Some(c));

    reveal_with_fuel(spec_eval, 3);
    assert(spec_eval(c0.lhs, l, 2) == x2);
    assert(spec_eval(c0.rhs, l, 2) == x2);
    assert(spec_eval(c0.lhs, l, 4) == x3);
    assert(spec_eval(c0.rhs, l, 4) == x3);
    assert(spec_eval(c1.lhs, l, 6) == x3x);
    assert(spec_eval(c1.rhs, l, 6) == x3x);
    assert(spec_eval(c1.lhs, l, 8) == res);
    assert(spec_eval(c1.rhs, l, 8) == res);

    assert forall|gi: int, ci: int, row: int|
        0 <= gi < l.cs.gates@.len() && 0 <= ci < l.cs.gates@[gi].constraints@.len() && 0 <= row
            < spec_total_rows(region_views(l.regions@)) implies spec_constraint_ok(
        l,
        l.cs.gates@[gi].constraints@[ci],
        row,
    ) by {
        assert(gi == 0);
        assert(ci == 0 || ci == 1);
        if ci == 0 {
            if spec_selector_active(l, c0.selector, row) {
                assert(row == 2 || row == 4);
            }
        } else {
            if spec_selector_active(l, c1.selector, row) {
                assert(row == 6 || row == 8);
            }
        }
    }

    assert forall|i: int| 0 <= i < l.copies@.len() implies spec_copy_ok(
        l,
        #[trigger] l.copies@[i],
    ) by {
        let p = l.copies@[i];
        assert(0 <= i < 9);
    }
}

/// Structural determinism: two syntheses of the circuit — whatever their
/// witnesses and constants, known or unknown — produce the same regions,
/// the same assigned cells, the same copy constraints, the same selector
/// activations and the same instance bindings; only the values differ.
pub proof fn lemma_structural_determinism(
    l1: Layouter,
    l2: Layouter,
    config1: MyConfig,
    config2: MyConfig,
    x1: Option<Seq<u8>>,
    c1: Seq<u8>,
    x2: Option<Seq<u8>>,
    c2: Seq<u8>,
)
    requires
        is_expected_config(config1),
        is_expected_config(config2),
        is_expected_cs(l1.cs),
        is_expected_cs(l2.cs),
        is_synth_trace(l1, config1, x1, c1),
        is_synth_trace(l2, config2, x2, c2),
    ensures
        region_views(l1.regions@) == region_views(l2.regions@),
        entry_cells(l1.assigned@) == entry_cells(l2.assigned@),
        l1.copies@ == l2.copies@,
        l1.enabled@ == l2.enabled@,
        l1.instance_uses@ == l2.instance_uses@,
        l1.cs.num_advice == l2.cs.num_advice,
        l1.cs.num_fixed == l2.cs.num_fixed,
        l1.cs.num_instance == l2.cs.num_instance,
        l1.cs.num_selectors == l2.cs.num_selectors,
        l1.cs.equality@ == l2.cs.equality@,
        l1.cs.constants@ == l2.cs.constants@,
{
    assert(entry_cells(l1.assigned@) =~= entry_cells(l2.assigned@)) by {
        assert(entry_views(l1.assigned@).len() == 15);
        assert(entry_views(l2.assigned@).len() == 15);
        assert forall|i: int| 0 <= i < 15 implies entry_cells(l1.assigned@)[i] == entry_cells(
            l2.assigned@,
        )[i] by {
            assert(entry_cells(l1.assigned@)[i] == entry_views(l1.assigned@)[i].0);
            assert(entry_cells(l2.assigned@)[i] == entry_views(l2.assigned@)[i].0);
        }
    }
}

/// Copy-constraint closure: every cell handed to a multiply or add step is
/// copy-linked to the region-local cell its gate reads, the constant is
/// copy-linked from the fixed column, and the result cell is the one bound
/// to instance row 0. No operation duplicates a value unconstrained.
pub proof fn lemma_copy_closure(l: Layouter, config: MyConfig, x: Option<Seq<u8>>, c: Seq<u8>)
    requires
        is_expected_config(config),
        is_synth_trace(l, config, x, c),
    ensures
        ({
            let a0 = config.advice@[0];
            let a1 = config.advice@[1];
            let x_cell = Cell { region: 0, column: a0, row: 0 };
            let c_cell = Cell { region: 1, column: a0, row: 0 };
            let x2_cell = Cell { region: 2, column: a0, row: 1 };
            let x3_cell = Cell { region: 3, column: a0, row: 1 };
            let x3x_cell = Cell { region: 4, column: a0, row: 1 };
            let res_cell = Cell { region: 5, column: a0, row: 1 };
            // the square: both inputs are x
            &&& l.copies@.contains(
                CopyPair { left: x_cell, right: Cell { region: 2, column: a0, row: 0 } },
            )
            &&& l.copies@.contains(
                CopyPair { left: x_cell, right: Cell { region: 2, column: a1, row: 0 } },
            )
            // the cube: x^2 and x
            &&& l.copies@.contains(
                CopyPair { left: x2_cell, right: Cell { region: 3, column: a0, row: 0 } },
            )
            &&& l.copies@.contains(
                CopyPair { left: x_cell, right: Cell { region: 3, column: a1, row: 0 } },
            )
            // x^3 + x
            &&& l.copies@.contains(
                CopyPair { left: x3_cell, right: Cell { region: 4, column: a0, row: 0 } },
            )
            &&& l.copies@.contains(
                CopyPair { left: x_cell, right: Cell { region: 4, column: a1, row: 0 } },
            )
            // + c, with c itself bound from the fixed column
            &&& l.copies@.contains(
                CopyPair { left: x3x_cell, right: Cell { region: 5, column: a0, row: 0 } },
            )
            &&& l.copies@.contains(
                CopyPair { left: c_cell, right: Cell { region: 5, column: a1, row: 0 } },
            )
            &&& l.copies@.contains(
                CopyPair { left: c_cell, right: Cell { region: 1, column: l.cs.constants@[0], row: 0 } },
            )
            // and the result is what reaches the public input
            &&& l.instance_uses@[0].cell == res_cell
            &&& l.instance_uses@[0].row == 0
        }),
{
    assert(l.copies@.contains(l.copies@[0]));
    assert(l.copies@.contains(l.copies@[1]));
    assert(l.copies@.contains(l.copies@[2]));
    assert(l.copies@.contains(l.copies@[3]));
    assert(l.copies@.contains(l.copies@[4]));
    assert(l.copies@.contains(l.copies@[5]));
    assert(l.copies@.contains(l.copies@[6]));
    assert(l.copies@.contains(l.copies@[7]));
    assert(l.copies@.contains(l.copies@[8]));
}

/// Lazy-value propagation: combining values is unknown exactly when a side
/// is unknown — the field operation contributes only when both sides are
/// known, so it is never evaluated on an unknown value.
pub proof fn lemma_lazy_propagation(a: Option<Seq<u8>>, b: Option<Seq<u8>>)
    ensures
        (a is None || b is None) <==> spec_mul_value(a, b) is None,
        (a is None || b is None) <==> spec_add_value(a, b) is None,
        a is Some && b is Some ==> spec_mul_value(a, b) == Some(
            crate::field::pasta_mul(a.unwrap(), b.unwrap()),
        ),
        a is Some && b is Some ==> spec_add_value(a, b) == Some(
            crate::field::pasta_add(a.unwrap(), b.unwrap()),
        ),
{
}

/// A witness-free synthesis leaves every derived cell unknown: only the
/// two cells of the constant region hold a value.
pub proof fn lemma_unknown_witness(l: Layouter, config: MyConfig, c: Seq<u8>)
    requires
        is_expected_config(config),
        is_synth_trace(l, config, None, c),
    ensures
        entry_views(l.assigned@).len() == 15,
        forall|i: int|
            0 <= i < 15 ==> ((#[trigger] entry_views(l.assigned@)[i]).1 is Some <==> (i == 1 || i
                == 2 || i == 13)),
        forall|i: int|
            i == 1 || i == 2 || i == 13 ==> (#[trigger] entry_views(l.assigned@)[i]).1 == Some(c),
{
}

} // verus!
