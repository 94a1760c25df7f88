//! Evaluation of a finished synthesis record: resolves region-local cells
//! to global rows, evaluates the recorded gate polynomials over the
//! assignments, and checks copy constraints and public-input bindings —
//! the checks the proof backend runs on the record this layer hands it.
use vstd::prelude::*;

use crate::system::{Column, ColumnKind, Constraint, Expr, Selector, rotation_offset};
use crate::layout::{Cell, CopyPair, InstanceUse, Layouter, entry_views, region_views};
use crate::value::{Value, spec_add_value, spec_mul_value};
use crate::field::Felt;

verus! {

/// The global row on which region `r` starts: regions are stacked in order
/// of opening, so it is the sum of the heights of the regions before it.
pub open spec fn spec_region_start(regions: Seq<(Seq<char>, int)>, r: int) -> int
    decreases r,
{
    if r <= 0 {
        0
    } else {
        spec_region_start(regions, r - 1) + regions[r - 1].1
    }
}

/// The number of global rows the record occupies.
pub open spec fn spec_total_rows(regions: Seq<(Seq<char>, int)>) -> int {
    spec_region_start(regions, regions.len() as int)
}

/// The global row of a region-local cell.
pub open spec fn spec_cell_row(regions: Seq<(Seq<char>, int)>, cell: Cell) -> int {
    spec_region_start(regions, cell.region as int) + cell.row
}

/// The value of the last assignment to `column` at global row `grow`:
/// `None` if the position was never assigned, otherwise `Some` of the
/// assigned lazy value.
pub open spec fn find_value(
    regions: Seq<(Seq<char>, int)>,
    entries: Seq<(Cell, Option<Seq<u8>>)>,
    column: Column,
    grow: int,
) -> Option<Option<Seq<u8>>>
    decreases entries.len(),
{
    if entries.len() == 0 {
        None
    } else if entries.last().0.column == column && spec_cell_row(regions, entries.last().0)
        == grow {
        Some(entries.last().1)
    } else {
        find_value(regions, entries.drop_last(), column, grow)
    }
}

pub open spec fn spec_value_at(l: Layouter, column: Column, grow: int) -> Option<Option<Seq<u8>>> {
    find_value(region_views(l.regions@), entry_views(l.assigned@), column, grow)
}

/// The value of a polynomial expression at global row `grow`: advice
/// queries read the grid (an unassigned position reads as unknown), and
/// sums and products combine lazily, unknown as soon as a leaf is.
pub open spec fn spec_eval(e: Expr, l: Layouter, grow: int) -> Option<Seq<u8>>
    decreases e,
{
    match e {
        Expr::Advice { column, rotation } => match spec_value_at(
            l,
            Column { kind: ColumnKind::Advice, index: column },
            grow + rotation_offset(rotation),
        ) {
            Some(v) => v,
            None => None,
        },
        Expr::Sum(a, b) => spec_add_value(spec_eval(*a, l, grow), spec_eval(*b, l, grow)),
        Expr::Product(a, b) => spec_mul_value(spec_eval(*a, l, grow), spec_eval(*b, l, grow)),
    }
}

/// Whether `s` was activated at global row `grow`.
pub open spec fn spec_selector_active(l: Layouter, s: Selector, grow: int) -> bool {
    exists|i: int|
        0 <= i < l.enabled@.len() && l.enabled@[i].selector == s && spec_region_start(
            region_views(l.regions@),
            l.enabled@[i].region as int,
        ) + l.enabled@[i].row == grow
}

/// One gated equation at one row: if its selector is active there, the two
/// sides must not evaluate to distinct known values. A side that is unknown
/// is not a violation; witness-free synthesis leaves nothing to check.
pub open spec fn spec_constraint_ok(l: Layouter, c: Constraint, grow: int) -> bool {
    spec_selector_active(l, c.selector, grow) ==> match (
        spec_eval(c.lhs, l, grow),
        spec_eval(c.rhs, l, grow),
    ) {
        (Some(a), Some(b)) => a == b,
        _ => true,
    }
}

/// Every equation of every gate holds on every global row of the record.
pub open spec fn spec_gates_ok(l: Layouter) -> bool {
    forall|gi: int, ci: int, row: int|
        0 <= gi < l.cs.gates@.len() && 0 <= ci < l.cs.gates@[gi].constraints@.len() && 0 <= row
            < spec_total_rows(region_views(l.regions@)) ==> spec_constraint_ok(
            l,
            l.cs.gates@[gi].constraints@[ci],
            row,
        )
}

/// One copy constraint: the two cells must not hold distinct known values.
pub open spec fn spec_copy_ok(l: Layouter, p: CopyPair) -> bool {
    match (
        spec_value_at(l, p.left.column, spec_cell_row(region_views(l.regions@), p.left)),
        spec_value_at(l, p.right.column, spec_cell_row(region_views(l.regions@), p.right)),
    ) {
        (Some(Some(a)), Some(Some(b))) => a == b,
        _ => true,
    }
}

pub open spec fn spec_copies_ok(l: Layouter) -> bool {
    forall|i: int| 0 <= i < l.copies@.len() ==> spec_copy_ok(l, l.copies@[i])
}

/// One public-input binding: the bound row must exist in the supplied
/// public input vector, and the bound cell must hold exactly that value.
pub open spec fn spec_binding_ok(l: Layouter, u: InstanceUse, public: Seq<Seq<u8>>) -> bool {
    &&& u.row < public.len()
    &&& spec_value_at(l, u.cell.column, spec_cell_row(region_views(l.regions@), u.cell)) == Some(
        Some(public[u.row as int]),
    )
}

/// No instance row is claimed by two different cells.
pub open spec fn spec_no_row_conflict(l: Layouter) -> bool {
    forall|i: int, j: int|
        0 <= i < l.instance_uses@.len() && 0 <= j < l.instance_uses@.len()
            && l.instance_uses@[i].column == l.instance_uses@[j].column && l.instance_uses@[i].row
            == l.instance_uses@[j].row ==> l.instance_uses@[i].cell == l.instance_uses@[j].cell
}

/// Whether some binding claims instance row `row`.
pub open spec fn spec_row_bound(l: Layouter, row: int) -> bool {
    exists|i: int|
        0 <= i < l.instance_uses@.len() && (#[trigger] l.instance_uses@[i]).row == row
}

/// Every supplied public input row is actually bound by some cell.
pub open spec fn spec_rows_covered(l: Layouter, public: Seq<Seq<u8>>) -> bool {
    forall|row: int| 0 <= row < public.len() ==> #[trigger] spec_row_bound(l, row)
}

/// The public input vector matches the record: every binding hits a row of
/// the vector and the bound cell holds that value, no row is claimed by two
/// cells, and no row of the vector is left unbound.
pub open spec fn spec_public_ok(l: Layouter, public: Seq<Seq<u8>>) -> bool {
    &&& forall|i: int|
        0 <= i < l.instance_uses@.len() ==> spec_binding_ok(l, l.instance_uses@[i], public)
    &&& spec_no_row_conflict(l)
    &&& spec_rows_covered(l, public)
}

/// What the backend accepts: gates, copies and public inputs all check out.
pub open spec fn spec_accepts(l: Layouter, public: Seq<Seq<u8>>) -> bool {
    &&& spec_gates_ok(l)
    &&& spec_copies_ok(l)
    &&& spec_public_ok(l, public)
}

/// The byte representations of a vector of field elements.
pub open spec fn felt_views(s: Seq<Felt>) -> Seq<Seq<u8>> {
    s.map_values(|f: Felt| f@)
}

/// A cell that lies inside an opened region, on a row the region covers.
pub open spec fn cell_in_range(regions: Seq<(Seq<char>, int)>, cell: Cell) -> bool {
    cell.region < regions.len() && cell.row < regions[cell.region as int].1
}

/// Every recorded cell lies in an opened region on a covered row, and the
/// record's rows fit the machine.
pub open spec fn trace_wf(l: Layouter) -> bool {
    let views = region_views(l.regions@);
    &&& forall|i: int|
        0 <= i < l.assigned@.len() ==> cell_in_range(views, (#[trigger] l.assigned@[i]).cell)
    &&& forall|i: int|
        0 <= i < l.enabled@.len() ==> (#[trigger] l.enabled@[i]).region < views.len()
            && l.enabled@[i].row < views[l.enabled@[i].region as int].1
    &&& forall|i: int|
        0 <= i < l.instance_uses@.len() ==> cell_in_range(
            views,
            (#[trigger] l.instance_uses@[i]).cell,
        )
    &&& forall|i: int|
        0 <= i < l.copies@.len() ==> cell_in_range(views, (#[trigger] l.copies@[i]).left)
            && cell_in_range(views, l.copies@[i].right)
    &&& spec_total_rows(views) <= usize::MAX
}

/// A cell inside a region on a covered row resolves below the total.
proof fn lemma_cell_row_in_total(regions: Seq<(Seq<char>, int)>, cell: Cell)
    requires
        forall|k: int| 0 <= k < regions.len() ==> (#[trigger] regions[k]).1 >= 0,
        cell_in_range(regions, cell),
    ensures
        0 <= spec_cell_row(regions, cell) < spec_total_rows(regions),
{
    lemma_start_monotone(regions, cell.region as int, cell.region as int);
    assert(spec_region_start(regions, cell.region + 1) == spec_region_start(
        regions,
        cell.region as int,
    ) + regions[cell.region as int].1);
    lemma_start_monotone(regions, cell.region + 1, regions.len() as int);
}

/// Region starts are monotone: heights are never negative.
proof fn lemma_start_monotone(regions: Seq<(Seq<char>, int)>, i: int, j: int)
    requires
        forall|k: int| 0 <= k < regions.len() ==> (#[trigger] regions[k]).1 >= 0,
        0 <= i <= j <= regions.len(),
    ensures
        spec_region_start(regions, i) <= spec_region_start(regions, j),
        0 <= spec_region_start(regions, i),
    decreases j,
{
    if j > 0 {
        if i == j {
            lemma_start_monotone(regions, if i > 0 { i - 1 } else { 0 }, j - 1);
        } else {
            lemma_start_monotone(regions, i, j - 1);
        }
    }
}

/// The heights in a region view are never negative.
proof fn lemma_region_views_nonneg(l: Layouter)
    ensures
        forall|k: int|
            0 <= k < region_views(l.regions@).len() ==> (#[trigger] region_views(l.regions@)[k]).1
                >= 0,
        region_views(l.regions@).len() == l.regions@.len(),
{
    assert forall|k: int| 0 <= k < region_views(l.regions@).len() implies (#[trigger] region_views(
        l.regions@,
    )[k]).1 >= 0 by {
        assert(region_views(l.regions@)[k] == (l.regions@[k].name@, l.regions@[k].height as int));
    }
}

/// The global row each region starts at, plus one final entry: the total
/// number of rows.
fn region_starts(l: &Layouter) -> (starts: Vec<usize>)
    requires
        trace_wf(*l),
    ensures
        starts@.len() == l.regions@.len() + 1,
        forall|r: int|
            0 <= r < starts@.len() ==> starts@[r] == spec_region_start(
                region_views(l.regions@),
                r,
            ),
{
    let ghost views = region_views(l.regions@);
    proof {
        lemma_region_views_nonneg(*l);
    }
    let mut starts: Vec<usize> = Vec::new();
    starts.push(0);
    let mut r: usize = 0;
    let n = l.regions.len();
    while r < n
        invariant
            trace_wf(*l),
            views == region_views(l.regions@),
            n == l.regions@.len(),
            r <= n,
            starts@.len() == r + 1,
            forall|k: int| 0 <= k < views.len() ==> (#[trigger] views[k]).1 >= 0,
            forall|k: int| 0 <= k <= r ==> starts@[k] == spec_region_start(views, k),
        decreases n - r,
    {
        let prev = starts[r];
        let h = l.regions[r].height;
        proof {
            let rec = l.regions@[r as int];
            assert(views[r as int] == (rec.name@, rec.height as int));
            assert(spec_region_start(views, r as int + 1) == spec_region_start(views, r as int)
                + views[r as int].1);
            assert(spec_region_start(views, r as int) == prev + 0);
            lemma_start_monotone(views, r as int + 1, views.len() as int);
            assert(spec_region_start(views, r as int + 1) == prev + h);
        }
        starts.push(prev + h);
        r = r + 1;
    }
    starts
}

/// Whether `cell` resolves to global row `grow` under `starts`.
fn cell_at_row(starts: &Vec<usize>, cell: Cell, grow: usize) -> (r: bool)
    requires
        cell.region < starts@.len(),
    ensures
        r <==> starts@[cell.region as int] + cell.row == grow,
{
    let start = starts[cell.region];
    start <= grow && grow - start == cell.row
}

/// The value of the last assignment to `column` at global row `grow`.
fn value_at(l: &Layouter, starts: &Vec<usize>, column: Column, grow: usize) -> (r: Option<Value>)
    requires
        trace_wf(*l),
        starts@.len() == l.regions@.len() + 1,
        forall|k: int|
            0 <= k < starts@.len() ==> starts@[k] == spec_region_start(region_views(l.regions@), k),
    ensures
        match spec_value_at(*l, column, grow as int) {
            None => r is None,
            Some(v) => r matches Some(val) && val@ == v,
        },
{
    let ghost views = region_views(l.regions@);
    let ghost entries = entry_views(l.assigned@);
    let mut found: Option<Value> = None;
    let mut i: usize = 0;
    let n = l.assigned.len();
    while i < n
        invariant
            trace_wf(*l),
            views == region_views(l.regions@),
            entries == entry_views(l.assigned@),
            n == l.assigned@.len(),
            i <= n,
            starts@.len() == l.regions@.len() + 1,
            forall|k: int| 0 <= k < starts@.len() ==> starts@[k] == spec_region_start(views, k),
            match find_value(views, entries.take(i as int), column, grow as int) {
                None => found is None,
                Some(v) => found matches Some(val) && val@ == v,
            },
        decreases n - i,
    {
        let e = &l.assigned[i];
        proof {
            assert(entries[i as int] == (e.cell, e.value@));
            assert(entries.take(i + 1 as int).drop_last() =~= entries.take(i as int));
            assert(entries.take(i + 1 as int).last() == entries[i as int]);
        }
        if e.cell.column == column && cell_at_row(starts, e.cell, grow) {
            found = Some(e.value);
        }
        i = i + 1;
    }
    proof {
        assert(entries.take(n as int) =~= entries);
    }
    found
}

/// Evaluates a polynomial expression at global row `grow`.
fn eval_expr(e: &Expr, l: &Layouter, starts: &Vec<usize>, grow: usize) -> (v: Value)
    requires
        trace_wf(*l),
        grow < usize::MAX,
        starts@.len() == l.regions@.len() + 1,
        forall|k: int|
            0 <= k < starts@.len() ==> starts@[k] == spec_region_start(region_views(l.regions@), k),
    ensures
        v@ == spec_eval(*e, *l, grow as int),
    decreases *e,
{
    match e {
        Expr::Advice { column, rotation } => {
            let offset: usize = match rotation {
                crate::system::Rotation::Cur => 0,
                crate::system::Rotation::Next => 1,
            };
            let q = Column { kind: ColumnKind::Advice, index: *column };
            match value_at(l, starts, q, grow + offset) {
                Some(v) => v,
                None => Value::Unknown,
            }
        },
        Expr::Sum(a, b) => {
            let va = eval_expr(a, l, starts, grow);
            let vb = eval_expr(b, l, starts, grow);
            va.add(&vb)
        },
        Expr::Product(a, b) => {
            let va = eval_expr(a, l, starts, grow);
            let vb = eval_expr(b, l, starts, grow);
            va.mul(&vb)
        },
    }
}

/// Whether selector `s` was activated at global row `grow`.
fn selector_active(l: &Layouter, starts: &Vec<usize>, s: Selector, grow: usize) -> (r: bool)
    requires
        trace_wf(*l),
        starts@.len() == l.regions@.len() + 1,
        forall|k: int|
            0 <= k < starts@.len() ==> starts@[k] == spec_region_start(region_views(l.regions@), k),
    ensures
        r <==> spec_selector_active(*l, s, grow as int),
{
    let mut i: usize = 0;
    let n = l.enabled.len();
    while i < n
        invariant
            trace_wf(*l),
            n == l.enabled@.len(),
            i <= n,
            starts@.len() == l.regions@.len() + 1,
            forall|k: int|
                0 <= k < starts@.len() ==> starts@[k] == spec_region_start(
                    region_views(l.regions@),
                    k,
                ),
            forall|j: int|
                0 <= j < i ==> !((#[trigger] l.enabled@[j]).selector == s && spec_region_start(
                    region_views(l.regions@),
                    l.enabled@[j].region as int,
                ) + l.enabled@[j].row == grow),
        decreases n - i,
    {
        let u = &l.enabled[i];
        if u.selector.index == s.index && cell_at_row(
            starts,
            Cell { region: u.region, column: Column { kind: ColumnKind::Advice, index: 0 }, row: u.row },
            grow,
        ) {
            return true;
        }
        i = i + 1;
    }
    false
}

/// One gated equation at one global row, as the backend would check it.
fn constraint_ok_at(l: &Layouter, starts: &Vec<usize>, c: &Constraint, grow: usize) -> (r: bool)
    requires
        trace_wf(*l),
        grow < usize::MAX,
        starts@.len() == l.regions@.len() + 1,
        forall|k: int|
            0 <= k < starts@.len() ==> starts@[k] == spec_region_start(region_views(l.regions@), k),
    ensures
        r <==> spec_constraint_ok(*l, *c, grow as int),
{
    if !selector_active(l, starts, c.selector, grow) {
        return true;
    }
    let lhs = eval_expr(&c.lhs, l, starts, grow);
    let rhs = eval_expr(&c.rhs, l, starts, grow);
    match (lhs, rhs) {
        (Value::Known(a), Value::Known(b)) => a.eq_felt(&b),
        _ => true,
    }
}

/// Evaluates every recorded gate equation on every global row of the
/// record: true exactly when no active selector sees two distinct known
/// values where a gate demands equal ones.
pub fn gates_satisfied(l: &Layouter) -> (r: bool)
    requires
        trace_wf(*l),
    ensures
        r <==> spec_gates_ok(*l),
{
    let starts = region_starts(l);
    let total = starts[starts.len() - 1];
    proof {
        lemma_region_views_nonneg(*l);
        lemma_start_monotone(region_views(l.regions@), 0, l.regions@.len() as int);
    }
    let mut gi: usize = 0;
    let ngates = l.cs.gates.len();
    while gi < ngates
        invariant
            trace_wf(*l),
            ngates == l.cs.gates@.len(),
            gi <= ngates,
            total == spec_total_rows(region_views(l.regions@)),
            starts@.len() == l.regions@.len() + 1,
            forall|k: int|
                0 <= k < starts@.len() ==> starts@[k] == spec_region_start(
                    region_views(l.regions@),
                    k,
                ),
            forall|g: int, ci: int, row: int|
                0 <= g < gi && 0 <= ci < l.cs.gates@[g].constraints@.len() && 0 <= row < total
                    ==> #[trigger] spec_constraint_ok(*l, l.cs.gates@[g].constraints@[ci], row),
        decreases ngates - gi,
    {
        let gate = &l.cs.gates[gi];
        let mut ci: usize = 0;
        let ncons = gate.constraints.len();
        while ci < ncons
            invariant
                trace_wf(*l),
                ngates == l.cs.gates@.len(),
                gi < ngates,
                gate == &l.cs.gates@[gi as int],
                ncons == gate.constraints@.len(),
                ci <= ncons,
                total == spec_total_rows(region_views(l.regions@)),
                starts@.len() == l.regions@.len() + 1,
                forall|k: int|
                    0 <= k < starts@.len() ==> starts@[k] == spec_region_start(
                        region_views(l.regions@),
                        k,
                    ),
                forall|c: int, row: int|
                    0 <= c < ci && 0 <= row < total ==> #[trigger] spec_constraint_ok(
                        *l,
                        l.cs.gates@[gi as int].constraints@[c],
                        row,
                    ),
            decreases ncons - ci,
        {
            let c = &gate.constraints[ci];
            let mut row: usize = 0;
            while row < total
                invariant
                    trace_wf(*l),
                    ngates == l.cs.gates@.len(),
                    gi < ngates,
                    gate == &l.cs.gates@[gi as int],
                    ncons == gate.constraints@.len(),
                    ci < ncons,
                    c == &l.cs.gates@[gi as int].constraints@[ci as int],
                    row <= total,
                    total == spec_total_rows(region_views(l.regions@)),
                    total <= usize::MAX,
                    starts@.len() == l.regions@.len() + 1,
                    forall|k: int|
                        0 <= k < starts@.len() ==> starts@[k] == spec_region_start(
                            region_views(l.regions@),
                            k,
                        ),
                    forall|rw: int|
                        0 <= rw < row ==> spec_constraint_ok(
                            *l,
                            l.cs.gates@[gi as int].constraints@[ci as int],
                            rw,
                        ),
                decreases total - row,
            {
                if !constraint_ok_at(l, &starts, c, row) {
                    return false;
                }
                row = row + 1;
            }
            ci = ci + 1;
        }
        gi = gi + 1;
    }
    true
}

/// Checks every recorded copy constraint: true exactly when no pair of
/// copy-constrained cells holds two distinct known values.
pub fn copies_satisfied(l: &Layouter) -> (r: bool)
    requires
        trace_wf(*l),
    ensures
        r <==> spec_copies_ok(*l),
{
    let starts = region_starts(l);
    let mut i: usize = 0;
    let n = l.copies.len();
    while i < n
        invariant
            trace_wf(*l),
            n == l.copies@.len(),
            i <= n,
            starts@.len() == l.regions@.len() + 1,
            forall|k: int|
                0 <= k < starts@.len() ==> starts@[k] == spec_region_start(
                    region_views(l.regions@),
                    k,
                ),
            forall|j: int| 0 <= j < i ==> spec_copy_ok(*l, #[trigger] l.copies@[j]),
        decreases n - i,
    {
        let p = &l.copies[i];
        proof {
            lemma_region_views_nonneg(*l);
            lemma_cell_row_in_total(region_views(l.regions@), p.left);
            lemma_cell_row_in_total(region_views(l.regions@), p.right);
        }
        let lstart = starts[p.left.region];
        let rstart = starts[p.right.region];
        let lv = value_at(l, &starts, p.left.column, lstart + p.left.row);
        let rv = value_at(l, &starts, p.right.column, rstart + p.right.row);
        match (lv, rv) {
            (Some(Value::Known(a)), Some(Value::Known(b))) => {
                if !a.eq_felt(&b) {
                    return false;
                }
            },
            _ => (),
        }
        i = i + 1;
    }
    true
}

/// Checks the public-input bindings against `public`: every binding hits a
/// row of the vector with exactly that value, no row is claimed by two
/// different cells, and every row of the vector is bound.
pub fn public_inputs_accepted(l: &Layouter, public: &Vec<Felt>) -> (r: bool)
    requires
        trace_wf(*l),
    ensures
        r <==> spec_public_ok(*l, felt_views(public@)),
{
    let starts = region_starts(l);
    let n = l.instance_uses.len();
    let mut i: usize = 0;
    while i < n
        invariant
            trace_wf(*l),
            n == l.instance_uses@.len(),
            i <= n,
            starts@.len() == l.regions@.len() + 1,
            forall|k: int|
                0 <= k < starts@.len() ==> starts@[k] == spec_region_start(
                    region_views(l.regions@),
                    k,
                ),
            forall|j: int|
                0 <= j < i ==> spec_binding_ok(*l, #[trigger] l.instance_uses@[j], felt_views(
                    public@,
                )),
        decreases n - i,
    {
        let u = &l.instance_uses[i];
        proof {
            assert(felt_views(public@).len() == public@.len());
        }
        if u.row >= public.len() {
            return false;
        }
        proof {
            lemma_region_views_nonneg(*l);
            lemma_cell_row_in_total(region_views(l.regions@), u.cell);
        }
        let start = starts[u.cell.region];
        let v = value_at(l, &starts, u.cell.column, start + u.cell.row);
        let ok = match v {
            Some(Value::Known(a)) => a.eq_felt(&public[u.row]),
            _ => false,
        };
        proof {
            assert(felt_views(public@)[u.row as int] == public@[u.row as int]@);
        }
        if !ok {
            return false;
        }
        i = i + 1;
    }
    let mut a: usize = 0;
    while a < n
        invariant
            trace_wf(*l),
            n == l.instance_uses@.len(),
            a <= n,
            forall|i2: int, j2: int|
                0 <= i2 < a && 0 <= j2 < n && (#[trigger] l.instance_uses@[i2]).column == (
                #[trigger] l.instance_uses@[j2]).column && l.instance_uses@[i2].row
                    == l.instance_uses@[j2].row ==> l.instance_uses@[i2].cell
                    == l.instance_uses@[j2].cell,
        decreases n - a,
    {
        let ua = l.instance_uses[a];
        let mut b: usize = 0;
        while b < n
            invariant
                trace_wf(*l),
                n == l.instance_uses@.len(),
                a < n,
                b <= n,
                ua == l.instance_uses@[a as int],
                forall|j2: int|
                    0 <= j2 < b && ua.column == (#[trigger] l.instance_uses@[j2]).column && ua.row
                        == l.instance_uses@[j2].row ==> ua.cell == l.instance_uses@[j2].cell,
            decreases n - b,
        {
            let ub = l.instance_uses[b];
            if ua.column == ub.column && ua.row == ub.row && ua.cell != ub.cell {
                return false;
            }
            b = b + 1;
        }
        a = a + 1;
    }
    let mut row: usize = 0;
    let m = public.len();
    while row < m
        invariant
            trace_wf(*l),
            n == l.instance_uses@.len(),
            m == public@.len(),
            row <= m,
            forall|r2: int| 0 <= r2 < row ==> #[trigger] spec_row_bound(*l, r2),
        decreases m - row,
    {
        let mut i2: usize = 0;
        let mut hit = false;
        while i2 < n
            invariant
                trace_wf(*l),
                n == l.instance_uses@.len(),
                row < m,
                i2 <= n,
                hit ==> spec_row_bound(*l, row as int),
                !hit ==> forall|k: int|
                    0 <= k < i2 ==> (#[trigger] l.instance_uses@[k]).row != row as int,
            decreases n - i2,
        {
            if l.instance_uses[i2].row == row {
                hit = true;
            }
            i2 = i2 + 1;
        }
        if !hit {
            proof {
                assert(felt_views(public@).len() == public@.len());
                assert(!spec_row_bound(*l, row as int));
            }
            return false;
        }
        row = row + 1;
    }
    proof {
        assert(felt_views(public@).len() == public@.len());
    }
    true
}

/// The backend's whole acceptance check over a finished record and a
/// public input vector.
pub fn accepts(l: &Layouter, public: &Vec<Felt>) -> (r: bool)
    requires
        trace_wf(*l),
    ensures
        r <==> spec_accepts(*l, felt_views(public@)),
{
    let g = gates_satisfied(l);
    let c = copies_satisfied(l);
    let p = public_inputs_accepted(l, public);
    g && c && p
}

} // verus!
