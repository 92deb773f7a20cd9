//! Cells of the grid under their first interface.
//!
//! A `Coords` is a cell like a `Position`. It differs in what it reports:
//! every refusal of components is one `ValidityError`, whatever its cause,
//! and an unsatisfiable margin is a `ParamError`.

use vstd::prelude::*;

use crate::context::Context;
use crate::coords::{sampled_within, side_offset, validation_of, Cube, Position, Translation};
use crate::hex_directions::Side;
use crate::Randomizable;

verus! {

/// The components do not make a cell of the grid: they do not add up to
/// zero, or one of them lies beyond the grid radius.
#[derive(Debug, Clone, Copy, PartialEq, Eq, Structural)]
pub struct ValidityError;

/// The margin asked for is not smaller than the grid radius.
#[derive(Debug, Clone, Copy, PartialEq, Eq, Structural)]
pub struct ParamError;

#[derive(Debug, Clone, Copy, PartialEq, Eq, Hash, Structural)]
pub struct Coords {
    cell: Position,
}

impl View for Coords {
    type V = Cube;

    closed spec fn view(&self) -> Cube {
        self.cell@
    }
}

impl Coords {
    /// Two coordinates with the same components are the same.
    pub proof fn lemma_view_injective(a: Coords, b: Coords)
        ensures
            a@ == b@ <==> a == b,
    {
        Position::lemma_view_injective(a.cell, b.cell);
    }

    /// Builds the cell `(x, y, z)` on the grid of `ctx`; fails exactly when
    /// the components do not add up to zero or one of them lies beyond the
    /// grid radius.
    pub fn new(x: i32, y: i32, z: i32, ctx: &Context) -> (r: Result<Self, ValidityError>)
        ensures
            r is Ok <==> validation_of(
                Cube { x: x as int, y: y as int, z: z as int },
                ctx@.grid_radius as int,
            ) is None,
            r matches Ok(c) ==> {
                &&& c@ == (Cube { x: x as int, y: y as int, z: z as int })
                &&& c@.balanced()
                &&& c@.within(ctx@.grid_radius as int)
            },
    {
        match Position::new(x, y, z, ctx) {
            Ok(cell) => Ok(Coords { cell }),
            Err(_) => Err(ValidityError),
        }
    }

    /// Draws a cell of the grid of `ctx`.
    pub fn rand(ctx: &Context) -> (c: Self)
        requires
            ctx@.can_place(),
        ensures
            sampled_within(c@, ctx@.grid_radius as int),
            c@.within(ctx@.grid_radius as int),
            c@.balanced(),
    {
        Coords { cell: Position::rand(ctx) }
    }

    /// Draws a cell that keeps at least `dist_from_edge` cells between
    /// itself and the edge of the grid; fails exactly when the margin
    /// exceeds the grid radius. A margin equal to the radius gives the
    /// centre cell.
    pub fn rand_constrained(ctx: &Context, dist_from_edge: usize) -> (r: Result<Self, ParamError>)
        requires
            ctx@.grid_radius <= i32::MAX,
        ensures
            r is Err <==> dist_from_edge > ctx@.grid_radius,
            r matches Ok(c) ==> {
                &&& c@.balanced()
                &&& c@.within(ctx@.grid_radius - dist_from_edge)
                &&& dist_from_edge == ctx@.grid_radius ==> c@ == Cube::origin()
                &&& dist_from_edge < ctx@.grid_radius ==> sampled_within(
                    c@,
                    ctx@.grid_radius - dist_from_edge,
                )
            },
    {
        match Position::rand_constrained(ctx, dist_from_edge) {
            Ok(cell) => Ok(Coords { cell }),
            Err(_) => Err(ParamError),
        }
    }

    /// Moves one cell across the given side, if there is a cell of the grid;
    /// otherwise nothing moves.
    pub fn move_one(&mut self, dir: Side, ctx: &Context) -> (r: Result<(), ValidityError>)
        ensures
            r is Ok <==> old(self)@.plus(side_offset(dir)).within(ctx@.grid_radius as int) && old(
                self,
            )@.plus(side_offset(dir)).storable(),
            r is Ok ==> final(self)@ == old(self)@.plus(side_offset(dir)),
            r is Err ==> *final(self) == *old(self),
    {
        let trans = Translation::from(dir);
        match self.cell.translate(&trans, ctx) {
            Ok(()) => Ok(()),
            Err(_) => Err(ValidityError),
        }
    }

    pub fn x(&self) -> (r: i32)
        ensures
            r == self@.x,
    {
        self.cell.x()
    }

    pub fn y(&self) -> (r: i32)
        ensures
            r == self@.y,
    {
        self.cell.y()
    }

    pub fn z(&self) -> (r: i32)
        ensures
            r == self@.z,
    {
        self.cell.z()
    }
}

impl Default for Coords {
    /// The centre of the grid.
    fn default() -> (c: Self)
        ensures
            c@ == Cube::origin(),
    {
        Coords { cell: Position::default() }
    }
}

impl std::ops::Add<Coords> for Coords {
    type Output = Coords;

    /// Component by component; no grid is asked.
    fn add(self, other: Coords) -> (c: Coords)
        ensures
            c@ == self@.plus(other@),
    {
        proof {
            use_type_invariant(&self.cell);
            use_type_invariant(&other.cell);
        }
        let cell = Position::from_pair(
            self.cell.x() + other.cell.x(),
            self.cell.y() + other.cell.y(),
        );
        proof {
            cell.lemma_holding();
        }
        Coords { cell }
    }
}

impl vstd::std_specs::ops::AddSpecImpl<Coords> for Coords {
    open spec fn obeys_add_spec() -> bool {
        true
    }

    open spec fn add_req(self, other: Coords) -> bool {
        self@.plus(other@).storable()
    }

    closed spec fn add_spec(self, other: Coords) -> Coords {
        Coords { cell: Position::holding(self@.plus(other@)) }
    }
}

impl std::ops::Sub<Coords> for Coords {
    type Output = Coords;

    /// Component by component; no grid is asked.
    fn sub(self, other: Coords) -> (c: Coords)
        ensures
            c@ == self@.minus(other@),
    {
        proof {
            use_type_invariant(&self.cell);
            use_type_invariant(&other.cell);
        }
        let cell = Position::from_pair(
            self.cell.x() - other.cell.x(),
            self.cell.y() - other.cell.y(),
        );
        proof {
            cell.lemma_holding();
        }
        Coords { cell }
    }
}

impl vstd::std_specs::ops::SubSpecImpl<Coords> for Coords {
    open spec fn obeys_sub_spec() -> bool {
        true
    }

    open spec fn sub_req(self, other: Coords) -> bool {
        self@.minus(other@).storable()
    }

    closed spec fn sub_spec(self, other: Coords) -> Coords {
        Coords { cell: Position::holding(self@.minus(other@)) }
    }
}

} // verus!
