//! The region and cell model: the addressable (region, column, row) space
//! in which synthesis assigns values, activates selectors, and records copy
//! constraints and public-input bindings.
//!
//! Rows inside a region are local; regions are stacked in order of opening,
//! so a cell's global row is the sum of the heights of the earlier regions
//! plus its local row.
use vstd::prelude::*;
use vstd::string::StringExecFns;

use crate::system::{Column, ColumnKind, ConstraintSystem, Selector, column_allocated,
    equality_enabled};
use crate::value::Value;
use crate::field::Felt;

verus! {

/// An addressed cell: a column and a region-local row inside a region.
#[derive(Clone, Copy, Debug, PartialEq, Eq, Structural)]
pub struct Cell {
    pub region: usize,
    pub column: Column,
    pub row: usize,
}

/// A cell together with the (lazy) value that was assigned to it.
#[derive(Clone, Copy, Debug)]
pub struct AssignedCell {
    pub cell: Cell,
    pub value: Value,
}

/// A named region and the number of rows it occupies so far.
#[derive(Debug)]
pub struct RegionRecord {
    pub name: String,
    pub height: usize,
}

/// An equality constraint between two cells; the backend enforces that the
/// two cells always hold equal values.
#[derive(Clone, Copy, Debug, PartialEq, Eq, Structural)]
pub struct CopyPair {
    pub left: Cell,
    pub right: Cell,
}

/// A selector activated at a region-local row.
#[derive(Clone, Copy, Debug, PartialEq, Eq, Structural)]
pub struct SelectorUse {
    pub selector: Selector,
    pub region: usize,
    pub row: usize,
}

/// A binding of an assigned cell to a row of an instance column: the
/// backend checks the cell against the public input supplied for that row.
#[derive(Clone, Copy, Debug, PartialEq, Eq, Structural)]
pub struct InstanceUse {
    pub cell: Cell,
    pub column: Column,
    pub row: usize,
}

/// Structural synthesis errors and configuration errors. Constraint
/// violations are never detected here; they are the backend's to find.
#[derive(Clone, Copy, Debug, PartialEq, Eq, Structural)]
pub enum Error {
    /// An assignment was attempted before any region was opened.
    NoRegion,
    /// A column or selector outside the configuration was referenced.
    Unconfigured,
    /// Constant binding was requested but no fixed column has it enabled.
    ConstantsDisabled,
    /// A copy constraint was requested on a column without equality enabled.
    EqualityDisabled,
}

/// The view of a region list: each region's name and height.
pub open spec fn region_views(s: Seq<RegionRecord>) -> Seq<(Seq<char>, int)> {
    s.map_values(|r: RegionRecord| (r.name@, r.height as int))
}

/// The view of an assignment list: each assigned cell and its lazy value.
pub open spec fn entry_views(s: Seq<AssignedCell>) -> Seq<(Cell, Option<Seq<u8>>)> {
    s.map_values(|e: AssignedCell| (e.cell, e.value@))
}

/// A region list after recording a touch of local row `row` in the last
/// region: its height grows to cover that row, nothing else changes.
pub open spec fn bump_last(s: Seq<(Seq<char>, int)>, row: int) -> Seq<(Seq<char>, int)> {
    s.update(
        s.len() - 1,
        (s.last().0, if s.last().1 >= row + 1 { s.last().1 } else { row + 1 }),
    )
}

/// Whether an advice assignment to `column` can succeed under `cs`.
pub open spec fn can_assign_advice(cs: ConstraintSystem, column: Column) -> bool {
    column.kind == ColumnKind::Advice && column_allocated(cs, column)
}

/// Whether a copy constraint between `left` and `right` can succeed.
pub open spec fn can_copy(cs: ConstraintSystem, left: Cell, right: Cell) -> bool {
    equality_enabled(cs, left.column) && equality_enabled(cs, right.column)
}

/// Whether binding a constant into advice `column` can succeed under `cs`.
pub open spec fn can_assign_constant(cs: ConstraintSystem, column: Column) -> bool {
    &&& can_assign_advice(cs, column)
    &&& cs.constants@.len() > 0
    &&& equality_enabled(cs, column)
    &&& equality_enabled(cs, cs.constants@[0])
}

/// The error a failed constant binding reports.
pub open spec fn constant_assign_error(cs: ConstraintSystem, column: Column) -> Error {
    if !can_assign_advice(cs, column) {
        Error::Unconfigured
    } else if cs.constants@.len() == 0 {
        Error::ConstantsDisabled
    } else {
        Error::EqualityDisabled
    }
}

/// Whether constraining `cell` to row `row` of instance column `column`
/// can succeed under `cs`.
pub open spec fn can_constrain_instance(cs: ConstraintSystem, cell: Cell, column: Column) -> bool {
    &&& column.kind == ColumnKind::Instance
    &&& column_allocated(cs, column)
    &&& equality_enabled(cs, column)
    &&& equality_enabled(cs, cell.column)
}

/// The error a failed instance binding reports.
pub open spec fn constrain_instance_error(cs: ConstraintSystem, cell: Cell, column: Column) -> Error {
    if !(column.kind == ColumnKind::Instance && column_allocated(cs, column)) {
        Error::Unconfigured
    } else {
        Error::EqualityDisabled
    }
}

/// The synthesis recorder: it holds the immutable configuration and the
/// regions, cell assignments, selector activations, copy constraints and
/// instance bindings recorded so far. This is exactly what the proof
/// backend consumes after synthesis.
#[derive(Debug)]
pub struct Layouter {
    pub cs: ConstraintSystem,
    pub regions: Vec<RegionRecord>,
    pub assigned: Vec<AssignedCell>,
    pub copies: Vec<CopyPair>,
    pub enabled: Vec<SelectorUse>,
    pub instance_uses: Vec<InstanceUse>,
}

impl Layouter {
    /// Nothing recorded yet.
    pub open spec fn is_fresh(self) -> bool {
        &&& self.regions@.len() == 0
        &&& self.assigned@.len() == 0
        &&& self.copies@.len() == 0
        &&& self.enabled@.len() == 0
        &&& self.instance_uses@.len() == 0
    }

    /// All records other than regions and assignments, bundled so contracts
    /// can say "unchanged" in one clause.
    pub open spec fn constraints_of(self) -> (Seq<CopyPair>, Seq<SelectorUse>, Seq<InstanceUse>) {
        (self.copies@, self.enabled@, self.instance_uses@)
    }

    pub fn new(cs: ConstraintSystem) -> (r: Layouter)
        ensures
            r.is_fresh(),
            r.cs == cs,
    {
        Layouter {
            cs,
            regions: Vec::new(),
            assigned: Vec::new(),
            copies: Vec::new(),
            enabled: Vec::new(),
            instance_uses: Vec::new(),
        }
    }

    /// Opens the next region; regions are numbered in order of opening.
    pub fn open_region(&mut self, name: &str) -> (idx: usize)
        ensures
            idx == old(self).regions@.len(),
            final(self).cs == old(self).cs,
            region_views(final(self).regions@) == region_views(old(self).regions@).push(
                (name@, 0int),
            ),
            final(self).assigned == old(self).assigned,
            final(self).copies == old(self).copies,
            final(self).enabled == old(self).enabled,
            final(self).instance_uses == old(self).instance_uses,
    {
        let idx = self.regions.len();
        self.regions.push(RegionRecord { name: String::from_str(name), height: 0 });
        proof {
            assert(region_views(self.regions@) =~= region_views(old(self).regions@).push(
                (name@, 0int),
            ));
        }
        idx
    }

    /// Grows the current region's height to cover local row `row`.
    fn touch_row(&mut self, row: usize)
        requires
            old(self).regions@.len() > 0,
            row < usize::MAX,
        ensures
            final(self).cs == old(self).cs,
            region_views(final(self).regions@) == bump_last(region_views(old(self).regions@), row as int),
            final(self).assigned == old(self).assigned,
            final(self).copies == old(self).copies,
            final(self).enabled == old(self).enabled,
            final(self).instance_uses == old(self).instance_uses,
    {
        let mut rec = self.regions.pop().unwrap();
        if row + 1 > rec.height {
            rec.height = row + 1;
        }
        self.regions.push(rec);
        proof {
            assert(region_views(self.regions@) =~= bump_last(
                region_views(old(self).regions@),
                row as int,
            ));
        }
    }

    /// Assigns `value` to an advice cell at `row` of the current region.
    pub fn assign_advice(&mut self, column: Column, row: usize, value: Value) -> (r: Result<
        AssignedCell,
        Error,
    >)
        requires
            row < usize::MAX,
        ensures
            final(self).cs == old(self).cs,
            old(self).regions@.len() == 0 ==> r == Err::<AssignedCell, Error>(Error::NoRegion)
                && *final(self) == *old(self),
            old(self).regions@.len() > 0 && !can_assign_advice(old(self).cs, column) ==> r == Err::<
                AssignedCell,
                Error,
            >(Error::Unconfigured) && *final(self) == *old(self),
            old(self).regions@.len() > 0 && can_assign_advice(old(self).cs, column) ==> {
                let cell = Cell {
                    region: (old(self).regions@.len() - 1) as usize,
                    column,
                    row,
                };
                &&& r == Ok::<AssignedCell, Error>(AssignedCell { cell, value })
                &&& region_views(final(self).regions@) == bump_last(
                    region_views(old(self).regions@),
                    row as int,
                )
                &&& final(self).assigned@ == old(self).assigned@.push(AssignedCell { cell, value })
                &&& final(self).constraints_of() == old(self).constraints_of()
            },
    {
        if self.regions.len() == 0 {
            return Err(Error::NoRegion);
        }
        let allocated = match column.kind {
            ColumnKind::Advice => column.index < self.cs.num_advice,
            _ => false,
        };
        if !allocated {
            return Err(Error::Unconfigured);
        }
        let region = self.regions.len() - 1;
        self.touch_row(row);
        let cell = Cell { region, column, row };
        let assigned = AssignedCell { cell, value };
        self.assigned.push(assigned);
        Ok(assigned)
    }

    /// Activates `selector` at `row` of the current region.
    pub fn enable_selector(&mut self, selector: Selector, row: usize) -> (r: Result<(), Error>)
        requires
            row < usize::MAX,
        ensures
            final(self).cs == old(self).cs,
            old(self).regions@.len() == 0 ==> r == Err::<(), Error>(Error::NoRegion) && *final(self)
                == *old(self),
            old(self).regions@.len() > 0 && selector.index >= old(self).cs.num_selectors ==> r
                == Err::<(), Error>(Error::Unconfigured) && *final(self) == *old(self),
            old(self).regions@.len() > 0 && selector.index < old(self).cs.num_selectors ==> {
                &&& r == Ok::<(), Error>(())
                &&& region_views(final(self).regions@) == bump_last(
                    region_views(old(self).regions@),
                    row as int,
                )
                &&& final(self).assigned == old(self).assigned
                &&& final(self).enabled@ == old(self).enabled@.push(
                    SelectorUse {
                        selector,
                        region: (old(self).regions@.len() - 1) as usize,
                        row,
                    },
                )
                &&& final(self).copies == old(self).copies
                &&& final(self).instance_uses == old(self).instance_uses
            },
    {
        if self.regions.len() == 0 {
            return Err(Error::NoRegion);
        }
        if selector.index >= self.cs.num_selectors {
            return Err(Error::Unconfigured);
        }
        let region = self.regions.len() - 1;
        self.touch_row(row);
        self.enabled.push(SelectorUse { selector, region, row });
        Ok(())
    }

    /// Records a copy constraint between two cells; both columns must have
    /// equality enabled.
    pub fn copy(&mut self, left: Cell, right: Cell) -> (r: Result<(), Error>)
        ensures
            final(self).cs == old(self).cs,
            !can_copy(old(self).cs, left, right) ==> r == Err::<(), Error>(Error::EqualityDisabled)
                && *final(self) == *old(self),
            can_copy(old(self).cs, left, right) ==> {
                &&& r == Ok::<(), Error>(())
                &&& final(self).copies@ == old(self).copies@.push(CopyPair { left, right })
                &&& final(self).regions == old(self).regions
                &&& final(self).assigned == old(self).assigned
                &&& final(self).enabled == old(self).enabled
                &&& final(self).instance_uses == old(self).instance_uses
            },
    {
        if !column_in(&self.cs.equality, left.column) || !column_in(&self.cs.equality, right.column)
        {
            return Err(Error::EqualityDisabled);
        }
        self.copies.push(CopyPair { left, right });
        Ok(())
    }

    /// Assigns an already assigned cell's value to an advice cell at `row`
    /// of the current region and copy-constrains the two cells.
    pub fn copy_advice(&mut self, from: &AssignedCell, column: Column, row: usize) -> (r: Result<
        AssignedCell,
        Error,
    >)
        requires
            row < usize::MAX,
        ensures
            final(self).cs == old(self).cs,
            old(self).regions@.len() == 0 ==> r == Err::<AssignedCell, Error>(Error::NoRegion)
                && *final(self) == *old(self),
            old(self).regions@.len() > 0 && !can_assign_advice(old(self).cs, column) ==> r == Err::<
                AssignedCell,
                Error,
            >(Error::Unconfigured) && *final(self) == *old(self),
            old(self).regions@.len() > 0 && can_assign_advice(old(self).cs, column) && !can_copy(
                old(self).cs,
                from.cell,
                Cell { region: (old(self).regions@.len() - 1) as usize, column, row },
            ) ==> r == Err::<AssignedCell, Error>(Error::EqualityDisabled) && *final(self) == *old(
                self,
            ),
            old(self).regions@.len() > 0 && can_assign_advice(old(self).cs, column) && can_copy(
                old(self).cs,
                from.cell,
                Cell { region: (old(self).regions@.len() - 1) as usize, column, row },
            ) ==> {
                let cell = Cell {
                    region: (old(self).regions@.len() - 1) as usize,
                    column,
                    row,
                };
                &&& r == Ok::<AssignedCell, Error>(AssignedCell { cell, value: from.value })
                &&& region_views(final(self).regions@) == bump_last(
                    region_views(old(self).regions@),
                    row as int,
                )
                &&& final(self).assigned@ == old(self).assigned@.push(
                    AssignedCell { cell, value: from.value },
                )
                &&& final(self).copies@ == old(self).copies@.push(
                    CopyPair { left: from.cell, right: cell },
                )
                &&& final(self).enabled == old(self).enabled
                &&& final(self).instance_uses == old(self).instance_uses
            },
    {
        if self.regions.len() == 0 {
            return Err(Error::NoRegion);
        }
        let allocated = match column.kind {
            ColumnKind::Advice => column.index < self.cs.num_advice,
            _ => false,
        };
        if !allocated {
            return Err(Error::Unconfigured);
        }
        let region = self.regions.len() - 1;
        let cell = Cell { region, column, row };
        if !column_in(&self.cs.equality, from.cell.column) || !column_in(
            &self.cs.equality,
            cell.column,
        ) {
            return Err(Error::EqualityDisabled);
        }
        self.touch_row(row);
        let assigned = AssignedCell { cell, value: from.value };
        self.assigned.push(assigned);
        self.copies.push(CopyPair { left: from.cell, right: cell });
        Ok(assigned)
    }

    /// Assigns `constant` to a fixed cell of the first constant-enabled
    /// fixed column and binds it into an advice cell at `row` of the current
    /// region via a copy constraint.
    pub fn assign_advice_from_constant(&mut self, column: Column, row: usize, constant: Felt) -> (r:
        Result<AssignedCell, Error>)
        requires
            row < usize::MAX,
        ensures
            final(self).cs == old(self).cs,
            old(self).regions@.len() == 0 ==> r == Err::<AssignedCell, Error>(Error::NoRegion)
                && *final(self) == *old(self),
            old(self).regions@.len() > 0 && !can_assign_constant(old(self).cs, column) ==> r
                == Err::<AssignedCell, Error>(constant_assign_error(old(self).cs, column))
                && *final(self) == *old(self),
            old(self).regions@.len() > 0 && can_assign_constant(old(self).cs, column) ==> {
                let region = (old(self).regions@.len() - 1) as usize;
                let fixed_cell = Cell { region, column: old(self).cs.constants@[0], row };
                let advice_cell = Cell { region, column, row };
                &&& r matches Ok::<AssignedCell, Error>(a) && a.cell == advice_cell && a.value@
                    == Some(constant@)
                &&& region_views(final(self).regions@) == bump_last(
                    region_views(old(self).regions@),
                    row as int,
                )
                &&& entry_views(final(self).assigned@) == entry_views(old(self).assigned@).push(
                    (fixed_cell, Some(constant@)),
                ).push((advice_cell, Some(constant@)))
                &&& final(self).copies@ == old(self).copies@.push(
                    CopyPair { left: advice_cell, right: fixed_cell },
                )
                &&& final(self).enabled == old(self).enabled
                &&& final(self).instance_uses == old(self).instance_uses
            },
    {
        if self.regions.len() == 0 {
            return Err(Error::NoRegion);
        }
        let allocated = match column.kind {
            ColumnKind::Advice => column.index < self.cs.num_advice,
            _ => false,
        };
        if !allocated {
            return Err(Error::Unconfigured);
        }
        if self.cs.constants.len() == 0 {
            return Err(Error::ConstantsDisabled);
        }
        let fixed_column = self.cs.constants[0];
        if !column_in(&self.cs.equality, column) || !column_in(&self.cs.equality, fixed_column) {
            return Err(Error::EqualityDisabled);
        }
        let region = self.regions.len() - 1;
        self.touch_row(row);
        let fixed_cell = Cell { region, column: fixed_column, row };
        let advice_cell = Cell { region, column, row };
        let value = Value::known(constant);
        self.assigned.push(AssignedCell { cell: fixed_cell, value });
        self.assigned.push(AssignedCell { cell: advice_cell, value });
        self.copies.push(CopyPair { left: advice_cell, right: fixed_cell });
        proof {
            assert(entry_views(self.assigned@) =~= entry_views(old(self).assigned@).push(
                (fixed_cell, Some(constant@)),
            ).push((advice_cell, Some(constant@))));
        }
        Ok(AssignedCell { cell: advice_cell, value })
    }

    /// Binds `cell` to row `row` of the given instance column; the backend
    /// will check the cell against the public input at that row.
    pub fn constrain_instance(&mut self, cell: Cell, column: Column, row: usize) -> (r: Result<
        (),
        Error,
    >)
        ensures
            final(self).cs == old(self).cs,
            !can_constrain_instance(old(self).cs, cell, column) ==> r == Err::<(), Error>(
                constrain_instance_error(old(self).cs, cell, column),
            ) && *final(self) == *old(self),
            can_constrain_instance(old(self).cs, cell, column) ==> {
                &&& r == Ok::<(), Error>(())
                &&& final(self).instance_uses@ == old(self).instance_uses@.push(
                    InstanceUse { cell, column, row },
                )
                &&& final(self).regions == old(self).regions
                &&& final(self).assigned == old(self).assigned
                &&& final(self).copies == old(self).copies
                &&& final(self).enabled == old(self).enabled
            },
    {
        let allocated = match column.kind {
            ColumnKind::Instance => column.index < self.cs.num_instance,
            _ => false,
        };
        if !allocated {
            return Err(Error::Unconfigured);
        }
        if !column_in(&self.cs.equality, column) || !column_in(&self.cs.equality, cell.column) {
            return Err(Error::EqualityDisabled);
        }
        self.instance_uses.push(InstanceUse { cell, column, row });
        Ok(())
    }
}

/// Whether `list` holds `column`.
fn column_in(list: &Vec<Column>, column: Column) -> (r: bool)
    ensures
        r <==> list@.contains(column),
{
    let mut i: usize = 0;
    while i < list.len()
        invariant
            i <= list@.len(),
            forall|j: int| 0 <= j < i ==> list@[j] != column,
        decreases list@.len() - i,
    {
        if list[i] == column {
            return true;
        }
        i = i + 1;
    }
    false
}

} // verus!
