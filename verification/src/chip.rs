//! The chip: the capability set {load private, load constant, multiply,
//! add, expose public}, implemented against a layout of two advice columns,
//! one instance column and one fixed column, with one gate that serves both
//! multiplication and addition under two mutually exclusive selectors.
use vstd::prelude::*;

use crate::system::{Column, ColumnKind, ConstraintSystem, Constraint, Expr, Rotation, Selector,
    is_advice_query, is_product_of_cur, is_sum_of_cur};
use crate::layout::{AssignedCell, Cell, Error, Layouter, CopyPair, SelectorUse, InstanceUse,
    bump_last, can_assign_advice, can_assign_constant, can_constrain_instance,
    constant_assign_error, constrain_instance_error, entry_views, region_views};
use crate::value::{Value, spec_add_value, spec_mul_value};
use crate::field::Felt;

verus! {

/// The chip's configuration: the columns it works on and the two selectors
/// that gate its one polynomial gate.
#[derive(Clone, Copy, Debug)]
pub struct MyConfig {
    pub advice: [Column; 2],
    pub instance: Column,
    pub s_mul: Selector,
    pub s_add: Selector,
}

/// The shape of what `configure` registers: two gated equations over
/// the two advice columns `a0`, `a1`, namely `s_mul * (a0 * a1 - a0.next)`
/// and `s_add * (a0 + a1 - a0.next)`.
pub open spec fn is_mul_add_constraints(
    cs: Seq<Constraint>,
    a0: usize,
    a1: usize,
    s_mul: Selector,
    s_add: Selector,
) -> bool {
    &&& cs.len() == 2
    &&& cs[0].selector == s_mul
    &&& is_product_of_cur(cs[0].lhs, a0, a1)
    &&& is_advice_query(cs[0].rhs, a0, Rotation::Next)
    &&& cs[1].selector == s_add
    &&& is_sum_of_cur(cs[1].lhs, a0, a1)
    &&& is_advice_query(cs[1].rhs, a0, Rotation::Next)
}

/// The chip.
#[derive(Clone, Copy, Debug)]
pub struct MyChip {
    pub config: MyConfig,
}

impl MyChip {
    pub fn new(config: MyConfig) -> (r: MyChip)
        ensures
            r.config == config,
    {
        MyChip { config }
    }

    /// The configuration the chip was built from.
    pub fn config(&self) -> (r: &MyConfig)
        ensures
            *r == self.config,
    {
        &self.config
    }

    /// Declares everything this chip needs on a constraint system: equality
    /// on the instance column and on both advice columns, constant binding
    /// on the fixed column, two selectors, and the shared mul/add gate.
    pub fn configure(
        meta: &mut ConstraintSystem,
        advice: [Column; 2],
        instance: Column,
        constant: Column,
    ) -> (cfg: MyConfig)
        requires
            advice@[0].kind == ColumnKind::Advice,
            advice@[1].kind == ColumnKind::Advice,
            constant.kind == ColumnKind::Fixed,
            old(meta).num_selectors + 2 <= usize::MAX,
        ensures
            cfg == (MyConfig {
                advice,
                instance,
                s_mul: Selector { index: old(meta).num_selectors },
                s_add: Selector { index: (old(meta).num_selectors + 1) as usize },
            }),
            final(meta).num_advice == old(meta).num_advice,
            final(meta).num_fixed == old(meta).num_fixed,
            final(meta).num_instance == old(meta).num_instance,
            final(meta).num_selectors == old(meta).num_selectors + 2,
            final(meta).equality@ == old(meta).equality@.push(instance).push(constant).push(
                advice@[0],
            ).push(advice@[1]),
            final(meta).constants@ == old(meta).constants@.push(constant),
            final(meta).gates@.len() == old(meta).gates@.len() + 1,
            final(meta).gates@.subrange(0, old(meta).gates@.len() as int) == old(meta).gates@,
            final(meta).gates@.last().name@ == "mul/add"@,
            is_mul_add_constraints(
                final(meta).gates@.last().constraints@,
                advice@[0].index,
                advice@[1].index,
                Selector { index: old(meta).num_selectors },
                Selector { index: (old(meta).num_selectors + 1) as usize },
            ),
    {
        meta.enable_equality(instance);
        meta.enable_constant(constant);
        meta.enable_equality(advice[0]);
        meta.enable_equality(advice[1]);

        let s_mul = meta.selector();
        let s_add = meta.selector();

        let lhs_mul = Expr::Product(
            Box::new(Expr::Advice { column: advice[0].index, rotation: Rotation::Cur }),
            Box::new(Expr::Advice { column: advice[1].index, rotation: Rotation::Cur }),
        );
        let out_mul = Expr::Advice { column: advice[0].index, rotation: Rotation::Next };
        let lhs_add = Expr::Sum(
            Box::new(Expr::Advice { column: advice[0].index, rotation: Rotation::Cur }),
            Box::new(Expr::Advice { column: advice[1].index, rotation: Rotation::Cur }),
        );
        let out_add = Expr::Advice { column: advice[0].index, rotation: Rotation::Next };

        let mut constraints: Vec<Constraint> = Vec::new();
        constraints.push(Constraint { selector: s_mul, lhs: lhs_mul, rhs: out_mul });
        constraints.push(Constraint { selector: s_add, lhs: lhs_add, rhs: out_add });
        meta.create_gate("mul/add", constraints);

        MyConfig { advice, instance, s_mul, s_add }
    }

    /// Opens a new single-row region and assigns the private input into
    /// advice column 0, row 0. Cannot fail once the advice column exists.
    pub fn load_private(&self, layouter: &mut Layouter, value: Value) -> (r: Result<
        AssignedCell,
        Error,
    >)
        ensures
            final(layouter).cs == old(layouter).cs,
            !can_assign_advice(old(layouter).cs, self.config.advice@[0]) ==> r == Err::<
                AssignedCell,
                Error,
            >(Error::Unconfigured) && region_views(final(layouter).regions@) == region_views(
                old(layouter).regions@,
            ).push(("load private"@, 0int)) && final(layouter).assigned == old(layouter).assigned
                && final(layouter).constraints_of() == old(layouter).constraints_of(),
            can_assign_advice(old(layouter).cs, self.config.advice@[0]) ==> {
                let cell = Cell {
                    region: old(layouter).regions@.len() as usize,
                    column: self.config.advice@[0],
                    row: 0,
                };
                &&& r == Ok::<AssignedCell, Error>(AssignedCell { cell, value })
                &&& region_views(final(layouter).regions@) == region_views(
                    old(layouter).regions@,
                ).push(("load private"@, 1int))
                &&& final(layouter).assigned@ == old(layouter).assigned@.push(
                    AssignedCell { cell, value },
                )
                &&& final(layouter).constraints_of() == old(layouter).constraints_of()
            },
    {
        layouter.open_region("load private");
        let r = layouter.assign_advice(self.config.advice[0], 0, value);
        proof {
            if can_assign_advice(old(layouter).cs, self.config.advice@[0]) {
                assert(region_views(layouter.regions@) =~= region_views(
                    old(layouter).regions@,
                ).push(("load private"@, 1int)));
            }
        }
        r
    }

    /// Opens a new single-row region, assigns `constant` through the fixed
    /// column and copy-constrains it into advice column 0, row 0. Fails if
    /// constant binding was not enabled during configuration.
    pub fn load_constant(&self, layouter: &mut Layouter, constant: Felt) -> (r: Result<
        AssignedCell,
        Error,
    >)
        ensures
            final(layouter).cs == old(layouter).cs,
            !can_assign_constant(old(layouter).cs, self.config.advice@[0]) ==> r == Err::<
                AssignedCell,
                Error,
            >(constant_assign_error(old(layouter).cs, self.config.advice@[0])) && region_views(
                final(layouter).regions@,
            ) == region_views(old(layouter).regions@).push(("load constant"@, 0int)) && final(layouter).assigned == old(layouter).assigned && final(layouter).constraints_of() == old(layouter).constraints_of(),
            can_assign_constant(old(layouter).cs, self.config.advice@[0]) ==> {
                let region = old(layouter).regions@.len() as usize;
                let fixed_cell = Cell { region, column: old(layouter).cs.constants@[0], row: 0 };
                let advice_cell = Cell { region, column: self.config.advice@[0], row: 0 };
                &&& r matches Ok::<AssignedCell, Error>(a) && a.cell == advice_cell && a.value@
                    == Some(constant@)
                &&& region_views(final(layouter).regions@) == region_views(
                    old(layouter).regions@,
                ).push(("load constant"@, 1int))
                &&& entry_views(final(layouter).assigned@) == entry_views(
                    old(layouter).assigned@,
                ).push((fixed_cell, Some(constant@))).push((advice_cell, Some(constant@)))
                &&& final(layouter).copies@ == old(layouter).copies@.push(
                    CopyPair { left: advice_cell, right: fixed_cell },
                )
                &&& final(layouter).enabled == old(layouter).enabled
                &&& final(layouter).instance_uses == old(layouter).instance_uses
            },
    {
        layouter.open_region("load constant");
        let r = layouter.assign_advice_from_constant(self.config.advice[0], 0, constant);
        proof {
            if can_assign_constant(old(layouter).cs, self.config.advice@[0]) {
                assert(region_views(layouter.regions@) =~= region_views(
                    old(layouter).regions@,
                ).push(("load constant"@, 1int)));
            }
        }
        r
    }

    /// Opens a new two-row region, activates the multiplication selector at
    /// row 0, copy-constrains `a` and `b` into the two advice columns at
    /// row 0, and assigns the lazily computed product into advice column 0,
    /// row 1 — the position read back as a gate output.
    pub fn mul(&self, layouter: &mut Layouter, a: AssignedCell, b: AssignedCell) -> (r: Result<
        AssignedCell,
        Error,
    >)
        ensures
            final(layouter).cs == old(layouter).cs,
            mul_add_ok(old(layouter).cs, self.config, a, b, true) ==> mul_add_trace(
                *old(layouter),
                *final(layouter),
                self.config,
                a,
                b,
                r,
                true,
            ),
            !mul_add_ok(old(layouter).cs, self.config, a, b, true) ==> r is Err,
    {
        layouter.open_region("mul");
        let r = self.mul_add_body(layouter, a, b, true);
        proof {
            if mul_add_ok(old(layouter).cs, self.config, a, b, true) {
                assert(region_views(layouter.regions@) =~= region_views(
                    old(layouter).regions@,
                ).push(("mul"@, 2int)));
            }
        }
        r
    }

    /// As `mul`, with the addition selector and a lazily computed sum.
    pub fn add(&self, layouter: &mut Layouter, a: AssignedCell, b: AssignedCell) -> (r: Result<
        AssignedCell,
        Error,
    >)
        ensures
            final(layouter).cs == old(layouter).cs,
            mul_add_ok(old(layouter).cs, self.config, a, b, false) ==> mul_add_trace(
                *old(layouter),
                *final(layouter),
                self.config,
                a,
                b,
                r,
                false,
            ),
            !mul_add_ok(old(layouter).cs, self.config, a, b, false) ==> r is Err,
    {
        layouter.open_region("add");
        let r = self.mul_add_body(layouter, a, b, false);
        proof {
            if mul_add_ok(old(layouter).cs, self.config, a, b, false) {
                assert(region_views(layouter.regions@) =~= region_views(
                    old(layouter).regions@,
                ).push(("add"@, 2int)));
            }
        }
        r
    }

    /// The shared body of `mul` and `add`, run after the region is opened.
    fn mul_add_body(&self, layouter: &mut Layouter, a: AssignedCell, b: AssignedCell, is_mul: bool)
        -> (r: Result<AssignedCell, Error>)
        requires
            old(layouter).regions@.len() > 0,
            region_views(old(layouter).regions@).last() == (
                if is_mul {
                    "mul"@
                } else {
                    "add"@
                },
                0int,
            ),
        ensures
            final(layouter).cs == old(layouter).cs,
            mul_add_ok(old(layouter).cs, self.config, a, b, is_mul) ==> mul_add_body_trace(
                *old(layouter),
                *final(layouter),
                self.config,
                a,
                b,
                r,
                is_mul,
            ),
            !mul_add_ok(old(layouter).cs, self.config, a, b, is_mul) ==> r is Err,
    {
        let selector = if is_mul {
            self.config.s_mul
        } else {
            self.config.s_add
        };
        match layouter.enable_selector(selector, 0) {
            Ok(_) => (),
            Err(e) => {
                return Err(e);
            },
        }
        proof {
            assert(region_views(layouter.regions@).len() == layouter.regions@.len());
            assert(region_views(old(layouter).regions@).len() == old(layouter).regions@.len());
            assert(layouter.regions@.len() == old(layouter).regions@.len());
        }
        let lhs = match layouter.copy_advice(&a, self.config.advice[0], 0) {
            Ok(c) => c,
            Err(e) => {
                return Err(e);
            },
        };
        proof {
            assert(region_views(layouter.regions@).len() == layouter.regions@.len());
            assert(layouter.regions@.len() == old(layouter).regions@.len());
        }
        let rhs = match layouter.copy_advice(&b, self.config.advice[1], 0) {
            Ok(c) => c,
            Err(e) => {
                return Err(e);
            },
        };
        let value = if is_mul {
            a.value.mul(&b.value)
        } else {
            a.value.add(&b.value)
        };
        let r = layouter.assign_advice(self.config.advice[0], 1, value);
        proof {
            if mul_add_ok(old(layouter).cs, self.config, a, b, is_mul) {
                let region = (old(layouter).regions@.len() - 1) as usize;
                let in0 = Cell { region, column: self.config.advice@[0], row: 0 };
                let in1 = Cell { region, column: self.config.advice@[1], row: 0 };
                let out = Cell { region, column: self.config.advice@[0], row: 1 };
                let name = if is_mul {
                    "mul"@
                } else {
                    "add"@
                };
                assert(region_views(layouter.regions@) =~= region_views(
                    old(layouter).regions@,
                ).update(region_views(old(layouter).regions@).len() - 1, (name, 2int)));
                assert(entry_views(layouter.assigned@) =~= entry_views(
                    old(layouter).assigned@,
                ).push((in0, a.value@)).push((in1, b.value@)).push((out, value@)));
            }
        }
        r
    }

    /// Establishes a copy constraint between `num`'s cell and the given row
    /// of the instance column: the public-input binding.
    pub fn expose_public(&self, layouter: &mut Layouter, num: AssignedCell, row: usize) -> (r:
        Result<(), Error>)
        ensures
            final(layouter).cs == old(layouter).cs,
            !can_constrain_instance(old(layouter).cs, num.cell, self.config.instance) ==> r
                == Err::<(), Error>(
                constrain_instance_error(old(layouter).cs, num.cell, self.config.instance),
            ) && *final(layouter) == *old(layouter),
            can_constrain_instance(old(layouter).cs, num.cell, self.config.instance) ==> {
                &&& r == Ok::<(), Error>(())
                &&& final(layouter).instance_uses@ == old(layouter).instance_uses@.push(
                    InstanceUse { cell: num.cell, column: self.config.instance, row },
                )
                &&& final(layouter).regions == old(layouter).regions
                &&& final(layouter).assigned == old(layouter).assigned
                &&& final(layouter).copies == old(layouter).copies
                &&& final(layouter).enabled == old(layouter).enabled
            },
    {
        layouter.constrain_instance(num.cell, self.config.instance, row)
    }
}

/// Everything a `mul` or `add` step needs from the configuration: the two
/// advice columns exist, the selector exists, and the argument cells and
/// both advice columns allow copy constraints.
pub open spec fn mul_add_ok(
    cs: ConstraintSystem,
    config: MyConfig,
    a: AssignedCell,
    b: AssignedCell,
    is_mul: bool,
) -> bool {
    &&& can_assign_advice(cs, config.advice@[0])
    &&& can_assign_advice(cs, config.advice@[1])
    &&& (if is_mul {
        config.s_mul.index
    } else {
        config.s_add.index
    }) < cs.num_selectors
    &&& crate::system::equality_enabled(cs, a.cell.column)
    &&& crate::system::equality_enabled(cs, b.cell.column)
    &&& crate::system::equality_enabled(cs, config.advice@[0])
    &&& crate::system::equality_enabled(cs, config.advice@[1])
}

/// What a successful `mul`/`add` step appends, counting from the state
/// before the step's region was opened.
pub open spec fn mul_add_trace(
    pre: Layouter,
    post: Layouter,
    config: MyConfig,
    a: AssignedCell,
    b: AssignedCell,
    r: Result<AssignedCell, Error>,
    is_mul: bool,
) -> bool {
    let region = pre.regions@.len() as usize;
    let name = if is_mul {
        "mul"@
    } else {
        "add"@
    };
    let in0 = Cell { region, column: config.advice@[0], row: 0 };
    let in1 = Cell { region, column: config.advice@[1], row: 0 };
    let out = Cell { region, column: config.advice@[0], row: 1 };
    let value = if is_mul {
        spec_mul_value(a.value@, b.value@)
    } else {
        spec_add_value(a.value@, b.value@)
    };
    &&& region_views(post.regions@) == region_views(pre.regions@).push((name, 2int))
    &&& entry_views(post.assigned@) == entry_views(pre.assigned@).push((in0, a.value@)).push(
        (in1, b.value@),
    ).push((out, value))
    &&& post.copies@ == pre.copies@.push(CopyPair { left: a.cell, right: in0 }).push(
        CopyPair { left: b.cell, right: in1 },
    )
    &&& post.enabled@ == pre.enabled@.push(
        SelectorUse {
            selector: if is_mul {
                config.s_mul
            } else {
                config.s_add
            },
            region,
            row: 0,
        },
    )
    &&& post.instance_uses@ == pre.instance_uses@
    &&& r matches Ok(c) && c.cell == out && c.value@ == value
}

/// As `mul_add_trace`, but counting from the state just after the step's
/// region was opened.
pub open spec fn mul_add_body_trace(
    pre: Layouter,
    post: Layouter,
    config: MyConfig,
    a: AssignedCell,
    b: AssignedCell,
    r: Result<AssignedCell, Error>,
    is_mul: bool,
) -> bool {
    let region = (pre.regions@.len() - 1) as usize;
    let name = if is_mul {
        "mul"@
    } else {
        "add"@
    };
    let in0 = Cell { region, column: config.advice@[0], row: 0 };
    let in1 = Cell { region, column: config.advice@[1], row: 0 };
    let out = Cell { region, column: config.advice@[0], row: 1 };
    let value = if is_mul {
        spec_mul_value(a.value@, b.value@)
    } else {
        spec_add_value(a.value@, b.value@)
    };
    &&& region_views(post.regions@) == region_views(pre.regions@).update(
        region_views(pre.regions@).len() - 1,
        (name, 2int),
    )
    &&& entry_views(post.assigned@) == entry_views(pre.assigned@).push((in0, a.value@)).push(
        (in1, b.value@),
    ).push((out, value))
    &&& post.copies@ == pre.copies@.push(CopyPair { left: a.cell, right: in0 }).push(
        CopyPair { left: b.cell, right: in1 },
    )
    &&& post.enabled@ == pre.enabled@.push(
        SelectorUse {
            selector: if is_mul {
                config.s_mul
            } else {
                config.s_add
            },
            region,
            row: 0,
        },
    )
    &&& post.instance_uses@ == pre.instance_uses@
    &&& r matches Ok(c) && c.cell == out && c.value@ == value
}

} // verus!
