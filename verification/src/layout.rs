//! The plain picture of a synthesized circuit: which columns exist, which
//! regions are assigned in which order, what each assigned cell holds, and
//! which cells are constrained equal.
//!
//! The constraint-system runtime is driven from this picture; the rules that
//! decide it are here.

use crate::signal::Signal;
use vstd::prelude::*;

verus! {

/// The columns that a circuit asks of the constraint system.
pub struct ConstraintPlan {
    /// Number of advice columns allocated so far; columns are numbered in
    /// the order of their allocation.
    pub advice_columns: usize,
    /// The advice columns whose cells may take part in equality constraints.
    pub equality: Vec<usize>,
}

impl ConstraintPlan {
    /// A plan without columns.
    pub fn new() -> (r: ConstraintPlan)
        ensures
            r.advice_columns == 0,
            r.equality@ == Seq::<usize>::empty(),
    {
        ConstraintPlan { advice_columns: 0, equality: Vec::new() }
    }

    /// Allocates the next advice column and returns its number.
    pub fn advice_column(&mut self) -> (column: usize)
        requires
            old(self).advice_columns < usize::MAX,
        ensures
            column == old(self).advice_columns,
            final(self).advice_columns == old(self).advice_columns + 1,
            final(self).equality@ == old(self).equality@,
    {
        let column = self.advice_columns;
        self.advice_columns = column + 1;
        column
    }

    /// Lets the cells of `column` take part in equality constraints.
    pub fn enable_equality(&mut self, column: usize)
        ensures
            final(self).advice_columns == old(self).advice_columns,
            final(self).equality@ == old(self).equality@.push(column),
    {
        self.equality.push(column);
    }
}

/// What a region is for.
#[derive(Clone, Copy, Debug, PartialEq, Eq, Structural)]
pub enum RegionKind {
    /// Holds the validity signal of one sub-proof.
    VerifyProof,
    /// Holds the accumulated signal after the sub-proof at position `step`.
    Accumulate { step: usize },
    /// Holds the constant one that the accumulated signal must equal.
    FinalConstrain,
}

/// Where a region assigns its cell, without the value.
#[derive(Clone, Copy, Debug, PartialEq, Eq, Structural)]
pub struct RegionShape {
    pub kind: RegionKind,
    pub column: usize,
    pub offset: usize,
}

/// One region. Every region of these circuits assigns exactly one advice
/// cell.
#[derive(Clone, Copy, Debug, PartialEq, Eq, Structural)]
pub struct Region {
    pub kind: RegionKind,
    /// The advice column of the assigned cell.
    pub column: usize,
    /// The row of the assigned cell, relative to the region.
    pub offset: usize,
    /// What the cell holds.
    pub value: Signal,
}

impl Region {
    pub open spec fn shape(self) -> RegionShape {
        RegionShape { kind: self.kind, column: self.column, offset: self.offset }
    }
}

/// Whether the cells of `regions` meet the equality constraint `equal`. A
/// constraint on a region that does not exist is not met.
pub open spec fn constraint_met(regions: Seq<Region>, equal: Option<(int, int)>) -> bool {
    match equal {
        None => true,
        Some((a, b)) => {
            &&& 0 <= a < regions.len()
            &&& 0 <= b < regions.len()
            &&& regions[a].value == regions[b].value
        },
    }
}

/// The shapes of a sequence of regions.
pub open spec fn shapes_of(regions: Seq<Region>) -> Seq<RegionShape> {
    Seq::new(regions.len(), |i: int| regions[i].shape())
}

/// Why a circuit could not be synthesized.
#[derive(Clone, Copy, Debug, PartialEq, Eq, Structural)]
pub enum SynthesisError {
    /// The witness lists of the circuit differ in length, so they do not
    /// describe a list of sub-proofs.
    InconsistentWitness,
    /// The circuit holds more sub-proofs than the capacity that it is
    /// synthesized at.
    CapacityExceeded,
}

/// The structure of a layout, without the values: the part that key
/// derivation depends on.
pub struct LayoutShape {
    pub regions: Seq<RegionShape>,
    pub equal: Option<(int, int)>,
}

/// A synthesized circuit: its regions in order of assignment, and the one
/// equality constraint, given by the positions of the two regions whose cells
/// must be equal.
pub struct Layout {
    pub regions: Vec<Region>,
    pub equal: Option<(usize, usize)>,
}

impl Layout {
    /// The positions of the two regions whose cells must be equal.
    pub open spec fn equal_positions(&self) -> Option<(int, int)> {
        match self.equal {
            None => None,
            Some((a, b)) => Some((a as int, b as int)),
        }
    }

    /// Whether the assigned cells meet the equality constraint.
    pub open spec fn satisfied(&self) -> bool {
        constraint_met(self.regions@, self.equal_positions())
    }

    pub open spec fn shape(&self) -> LayoutShape {
        LayoutShape { regions: shapes_of(self.regions@), equal: self.equal_positions() }
    }

    /// Checks the equality constraint on the assigned cells.
    pub fn is_satisfied(&self) -> (r: bool)
        ensures
            r == self.satisfied(),
    {
        match self.equal {
            None => true,
            Some((a, b)) => {
                if a < self.regions.len() && b < self.regions.len() {
                    self.regions[a].value == self.regions[b].value
                } else {
                    false
                }
            },
        }
    }
}

} // verus!
