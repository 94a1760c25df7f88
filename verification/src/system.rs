//! The constraint-system configuration: columns, selectors and gate
//! polynomials, built once before synthesis and immutable afterwards.
use vstd::prelude::*;
use vstd::string::StringExecFns;

verus! {

/// The three kinds of columns of a Plonkish grid.
#[derive(Clone, Copy, Debug, PartialEq, Eq, Structural)]
pub enum ColumnKind {
    /// Private witness data.
    Advice,
    /// Circuit-wide constants.
    Fixed,
    /// Public inputs.
    Instance,
}

/// A column, identified by its kind and its index among the columns of
/// that kind. Allocated once during configuration, immutable thereafter.
#[derive(Clone, Copy, Debug, PartialEq, Eq, Structural)]
pub struct Column {
    pub kind: ColumnKind,
    pub index: usize,
}

/// A per-row boolean flag that decides whether a gate's constraint is
/// enforced on that row.
#[derive(Clone, Copy, Debug, PartialEq, Eq, Structural)]
pub struct Selector {
    pub index: usize,
}

/// A row offset relative to the row a gate is evaluated at.
#[derive(Clone, Copy, Debug, PartialEq, Eq, Structural)]
pub enum Rotation {
    Cur,
    Next,
}

pub open spec fn rotation_offset(r: Rotation) -> int {
    match r {
        Rotation::Cur => 0,
        Rotation::Next => 1,
    }
}

/// A polynomial expression over cell queries at row offsets relative to the
/// current row.
#[derive(Debug)]
pub enum Expr {
    /// The value of an advice column (by index) at the given rotation.
    Advice { column: usize, rotation: Rotation },
    Sum(Box<Expr>, Box<Expr>),
    Product(Box<Expr>, Box<Expr>),
}

/// One gated polynomial equation, `selector * (lhs - rhs)`: on every row
/// where `selector` is active, `lhs` and `rhs` must evaluate to the same
/// field element, i.e. the gated polynomial to the additive identity.
#[derive(Debug)]
pub struct Constraint {
    pub selector: Selector,
    pub lhs: Expr,
    pub rhs: Expr,
}

/// A named set of gated polynomial equations.
#[derive(Debug)]
pub struct Gate {
    pub name: String,
    pub constraints: Vec<Constraint>,
}

pub open spec fn is_advice_query(e: Expr, column: usize, rotation: Rotation) -> bool {
    e matches Expr::Advice { column: c, rotation: r } && c == column && r == rotation
}

pub open spec fn is_product_of_cur(e: Expr, a: usize, b: usize) -> bool {
    &&& e matches Expr::Product(l, r)
    &&& is_advice_query(*l, a, Rotation::Cur)
    &&& is_advice_query(*r, b, Rotation::Cur)
}

pub open spec fn is_sum_of_cur(e: Expr, a: usize, b: usize) -> bool {
    &&& e matches Expr::Sum(l, r)
    &&& is_advice_query(*l, a, Rotation::Cur)
    &&& is_advice_query(*r, b, Rotation::Cur)
}

/// The constraint system a circuit declares: how many columns of each kind
/// and how many selectors exist, which columns may take part in copy
/// constraints, which fixed columns may bind constants, and the gates.
#[derive(Debug)]
pub struct ConstraintSystem {
    pub num_advice: usize,
    pub num_fixed: usize,
    pub num_instance: usize,
    pub num_selectors: usize,
    /// Columns on which copy (equality) constraints are allowed.
    pub equality: Vec<Column>,
    /// Fixed columns that may bind literal constants into advice cells.
    pub constants: Vec<Column>,
    pub gates: Vec<Gate>,
}

/// Whether `c` was allocated in `cs`.
pub open spec fn column_allocated(cs: ConstraintSystem, c: Column) -> bool {
    match c.kind {
        ColumnKind::Advice => c.index < cs.num_advice,
        ColumnKind::Fixed => c.index < cs.num_fixed,
        ColumnKind::Instance => c.index < cs.num_instance,
    }
}

/// Whether copy constraints were enabled on `c`.
pub open spec fn equality_enabled(cs: ConstraintSystem, c: Column) -> bool {
    cs.equality@.contains(c)
}

impl ConstraintSystem {
    pub open spec fn is_fresh(self) -> bool {
        &&& self.num_advice == 0
        &&& self.num_fixed == 0
        &&& self.num_instance == 0
        &&& self.num_selectors == 0
        &&& self.equality@.len() == 0
        &&& self.constants@.len() == 0
        &&& self.gates@.len() == 0
    }

    pub open spec fn counts_of(self) -> (usize, usize, usize, usize) {
        (self.num_advice, self.num_fixed, self.num_instance, self.num_selectors)
    }

    pub fn new() -> (r: ConstraintSystem)
        ensures
            r.is_fresh(),
    {
        ConstraintSystem {
            num_advice: 0,
            num_fixed: 0,
            num_instance: 0,
            num_selectors: 0,
            equality: Vec::new(),
            constants: Vec::new(),
            gates: Vec::new(),
        }
    }

    /// Allocates a fresh advice column.
    pub fn advice_column(&mut self) -> (c: Column)
        requires
            old(self).num_advice < usize::MAX,
        ensures
            c == (Column { kind: ColumnKind::Advice, index: old(self).num_advice }),
            final(self).num_advice == old(self).num_advice + 1,
            final(self).num_fixed == old(self).num_fixed,
            final(self).num_instance == old(self).num_instance,
            final(self).num_selectors == old(self).num_selectors,
            final(self).equality == old(self).equality,
            final(self).constants == old(self).constants,
            final(self).gates == old(self).gates,
    {
        let index = self.num_advice;
        self.num_advice = self.num_advice + 1;
        Column { kind: ColumnKind::Advice, index }
    }

    /// Allocates a fresh fixed column.
    pub fn fixed_column(&mut self) -> (c: Column)
        requires
            old(self).num_fixed < usize::MAX,
        ensures
            c == (Column { kind: ColumnKind::Fixed, index: old(self).num_fixed }),
            final(self).num_fixed == old(self).num_fixed + 1,
            final(self).num_advice == old(self).num_advice,
            final(self).num_instance == old(self).num_instance,
            final(self).num_selectors == old(self).num_selectors,
            final(self).equality == old(self).equality,
            final(self).constants == old(self).constants,
            final(self).gates == old(self).gates,
    {
        let index = self.num_fixed;
        self.num_fixed = self.num_fixed + 1;
        Column { kind: ColumnKind::Fixed, index }
    }

    /// Allocates a fresh instance column.
    pub fn instance_column(&mut self) -> (c: Column)
        requires
            old(self).num_instance < usize::MAX,
        ensures
            c == (Column { kind: ColumnKind::Instance, index: old(self).num_instance }),
            final(self).num_instance == old(self).num_instance + 1,
            final(self).num_advice == old(self).num_advice,
            final(self).num_fixed == old(self).num_fixed,
            final(self).num_selectors == old(self).num_selectors,
            final(self).equality == old(self).equality,
            final(self).constants == old(self).constants,
            final(self).gates == old(self).gates,
    {
        let index = self.num_instance;
        self.num_instance = self.num_instance + 1;
        Column { kind: ColumnKind::Instance, index }
    }

    /// Allocates a fresh selector.
    pub fn selector(&mut self) -> (s: Selector)
        requires
            old(self).num_selectors < usize::MAX,
        ensures
            s == (Selector { index: old(self).num_selectors }),
            final(self).num_selectors == old(self).num_selectors + 1,
            final(self).num_advice == old(self).num_advice,
            final(self).num_fixed == old(self).num_fixed,
            final(self).num_instance == old(self).num_instance,
            final(self).equality == old(self).equality,
            final(self).constants == old(self).constants,
            final(self).gates == old(self).gates,
    {
        let index = self.num_selectors;
        self.num_selectors = self.num_selectors + 1;
        Selector { index }
    }

    /// Marks a column as eligible for copy constraints.
    pub fn enable_equality(&mut self, column: Column)
        ensures
            final(self).equality@ == old(self).equality@.push(column),
            final(self).counts_of() == old(self).counts_of(),
            final(self).constants == old(self).constants,
            final(self).gates == old(self).gates,
    {
        self.equality.push(column);
    }

    /// Marks a fixed column as usable for binding literal constants into
    /// advice cells; such a binding is a copy constraint, so the column also
    /// becomes eligible for copy constraints.
    pub fn enable_constant(&mut self, column: Column)
        requires
            column.kind == ColumnKind::Fixed,
        ensures
            final(self).constants@ == old(self).constants@.push(column),
            final(self).equality@ == old(self).equality@.push(column),
            final(self).counts_of() == old(self).counts_of(),
            final(self).gates == old(self).gates,
    {
        self.constants.push(column);
        self.equality.push(column);
    }

    /// Registers a named gate with the given gated polynomial equations.
    pub fn create_gate(&mut self, name: &str, constraints: Vec<Constraint>)
        ensures
            final(self).gates@.len() == old(self).gates@.len() + 1,
            final(self).gates@.subrange(0, old(self).gates@.len() as int) == old(self).gates@,
            final(self).gates@.last().name@ == name@,
            final(self).gates@.last().constraints == constraints,
            final(self).counts_of() == old(self).counts_of(),
            final(self).equality == old(self).equality,
            final(self).constants == old(self).constants,
    {
        self.gates.push(Gate { name: String::from_str(name), constraints });
        proof {
            assert(self.gates@.subrange(0, old(self).gates@.len() as int) =~= old(self).gates@);
        }
    }
}

} // verus!
