//! Cube coordinates on the hexagonal grid.
//!
//! `(0, 0, 0)` is the centre cell. The three components point "East",
//! "Northwest" and "Southwest", and always add up to zero:
//!
//! ```text
//!              _______
//!             /       \
//!     _______/ 0, 1,-1 \_______
//!    /       \         /       \
//!   /-1, 1, 0 \_______/ 1, 0,-1 \
//!   \         /       \         /
//!    \_______/ 0, 0, 0 \_______/
//!    /       \         /       \
//!   /-1, 0, 1 \_______/ 1,-1, 0 \
//!   \         /       \         /
//!    \_______/ 0,-1, 1 \_______/
//!            \         /
//!             \_______/
//! ```
//!
//! A `Position` is a cell, a `Translation` the step from one cell to another.
//! Both keep the zero sum as a type invariant; only a `Position` is ever held
//! against the radius of a grid.

use vstd::prelude::*;

use crate::context::Context;
use crate::entropy::random_between;
use crate::hex_directions::Side;
use crate::text::{signed_decimal, signed_decimal_text};
use crate::Randomizable;

verus! {

/// Distance of an integer from zero.
pub open spec fn dist0(v: int) -> int {
    if v < 0 {
        -v
    } else {
        v
    }
}

/// Three cube components as mathematical integers: the model of both
/// `Position` and `Translation`.
pub struct Cube {
    pub x: int,
    pub y: int,
    pub z: int,
}

impl Cube {
    pub open spec fn origin() -> Cube {
        Cube { x: 0, y: 0, z: 0 }
    }

    /// The components add up to zero, as they must on a hexagonal grid.
    pub open spec fn balanced(self) -> bool {
        self.x + self.y + self.z == 0
    }

    /// Largest absolute component: the least number of hops that realise
    /// the triple as a move.
    pub open spec fn norm(self) -> int {
        let (a, b, c) = (dist0(self.x), dist0(self.y), dist0(self.z));
        if a >= b && a >= c {
            a
        } else if b >= c {
            b
        } else {
            c
        }
    }

    /// No component lies further than `radius` from zero.
    pub open spec fn within(self, radius: int) -> bool {
        self.norm() <= radius
    }

    /// Every component can be stored in a signed 32-bit coordinate.
    pub open spec fn storable(self) -> bool {
        &&& i32::MIN <= self.x <= i32::MAX
        &&& i32::MIN <= self.y <= i32::MAX
        &&& i32::MIN <= self.z <= i32::MAX
    }

    pub open spec fn plus(self, other: Cube) -> Cube {
        Cube { x: self.x + other.x, y: self.y + other.y, z: self.z + other.z }
    }

    pub open spec fn minus(self, other: Cube) -> Cube {
        Cube { x: self.x - other.x, y: self.y - other.y, z: self.z - other.z }
    }

    pub open spec fn negated(self) -> Cube {
        Cube { x: -self.x, y: -self.y, z: -self.z }
    }

    /// The two cells share an edge.
    pub open spec fn adjacent(self, other: Cube) -> bool {
        self.minus(other).norm() == 1
    }
}

/// The cells that a list of positions stands for.
pub open spec fn cubes(positions: Seq<Position>) -> Seq<Cube> {
    positions.map_values(|p: Position| p@)
}

/// The outcome that component validation owes for `(x, y, z)` on a grid of
/// the given radius: the sum is examined first, the bounds second.
pub open spec fn validation_of(c: Cube, radius: int) -> Option<CoordsErrorKind> {
    if !c.balanced() {
        Some(CoordsErrorKind::SumNotZero)
    } else if !c.within(radius) {
        Some(CoordsErrorKind::OutOfBounds)
    } else {
        None
    }
}

/// The three ways in which a coordinate request can be refused.
pub enum CoordsErrorKind {
    SumNotZero,
    InvalidParam,
    OutOfBounds,
}

#[derive(Debug)]
pub enum CoordsError {
    /// The three components do not add up to zero; they are handed back.
    SumNotZero(i32, i32, i32),
    /// A parameter, named by the payload, cannot be satisfied.
    InvalidParam(String),
    /// Some component lies beyond the grid radius.
    OutOfBounds,
}

impl CoordsError {
    pub open spec fn kind(self) -> CoordsErrorKind {
        match self {
            CoordsError::SumNotZero(_, _, _) => CoordsErrorKind::SumNotZero,
            CoordsError::InvalidParam(_) => CoordsErrorKind::InvalidParam,
            CoordsError::OutOfBounds => CoordsErrorKind::OutOfBounds,
        }
    }
}

#[derive(Copy, Clone, Debug, PartialEq, Eq, Hash, Structural)]
pub struct Position {
    x: i32,
    y: i32,
    z: i32,
}

#[derive(Copy, Clone, Debug, PartialEq, Eq, Hash, Structural)]
pub struct Translation {
    x: i32,
    y: i32,
    z: i32,
}

impl View for Position {
    type V = Cube;

    closed spec fn view(&self) -> Cube {
        Cube { x: self.x as int, y: self.y as int, z: self.z as int }
    }
}

impl View for Translation {
    type V = Cube;

    closed spec fn view(&self) -> Cube {
        Cube { x: self.x as int, y: self.y as int, z: self.z as int }
    }
}

/// Validates the three candidate components of a cell against a grid: `Ok`
/// exactly when they add up to zero and none lies beyond the radius.
fn is_sane(x: i64, y: i64, z: i64, ctx: &Context) -> (r: Result<(), CoordsErrorKind>)
    requires
        (Cube { x: x as int, y: y as int, z: z as int }).norm() <= 0x1_0000_0000,
    ensures
        r == match validation_of(
            Cube { x: x as int, y: y as int, z: z as int },
            ctx@.grid_radius as int,
        ) {
            Some(k) => Err::<(), CoordsErrorKind>(k),
            None => Ok(()),
        },
{
    if x + y + z != 0 {
        return Err(CoordsErrorKind::SumNotZero);
    }
    let radius = ctx.grid_radius();
    let ax: u64 = if x < 0 { (-x) as u64 } else { x as u64 };
    let ay: u64 = if y < 0 { (-y) as u64 } else { y as u64 };
    let az: u64 = if z < 0 { (-z) as u64 } else { z as u64 };
    if ax > radius as u64 || ay > radius as u64 || az > radius as u64 {
        return Err(CoordsErrorKind::OutOfBounds);
    }
    Ok(())
}

impl Position {
    /// Every position that exists at run time has components that add up
    /// to zero.
    #[verifier::type_invariant]
    pub open spec fn wf(self) -> bool {
        self@.balanced()
    }

    /// The position that stores the given components.
    pub closed spec fn holding(c: Cube) -> Position {
        Position { x: c.x as i32, y: c.y as i32, z: c.z as i32 }
    }

    /// A position is the one that stores its components.
    pub proof fn lemma_holding(self)
        ensures
            Position::holding(self@) == self,
    {
    }

    /// Two positions with the same components are the same position.
    pub proof fn lemma_view_injective(a: Position, b: Position)
        ensures
            a@ == b@ <==> a == b,
    {
    }

    /// The components of a position are always storable.
    pub proof fn lemma_view_storable(a: Position)
        ensures
            a@.storable(),
    {
    }

    /// Builds the position `(x, y, z)` on the grid of `ctx`.
    ///
    /// Fails with `SumNotZero`, handing the components back, when they do
    /// not add up to zero, and otherwise with `OutOfBounds` when one of them
    /// lies beyond the grid radius.
    pub fn new(x: i32, y: i32, z: i32, ctx: &Context) -> (r: Result<Self, CoordsError>)
        ensures
            match r {
                Ok(p) => {
                    &&& p@ == (Cube { x: x as int, y: y as int, z: z as int })
                    &&& p@.balanced()
                    &&& p@.within(ctx@.grid_radius as int)
                },
                Err(e) => {
                    &&& Some(e.kind()) == validation_of(
                        Cube { x: x as int, y: y as int, z: z as int },
                        ctx@.grid_radius as int,
                    )
                    &&& e matches CoordsError::SumNotZero(ex, ey, ez) ==> (ex, ey, ez) == (x, y, z)
                },
            },
            r is Ok <==> validation_of(
                Cube { x: x as int, y: y as int, z: z as int },
                ctx@.grid_radius as int,
            ) is None,
    {
        match is_sane(x as i64, y as i64, z as i64, ctx) {
            Ok(()) => Ok(Position { x, y, z }),
            Err(CoordsErrorKind::SumNotZero) => Err(CoordsError::SumNotZero(x, y, z)),
            Err(_) => Err(CoordsError::OutOfBounds),
        }
    }

    pub fn x(&self) -> (r: i32)
        ensures
            r == self@.x,
    {
        self.x
    }

    pub fn y(&self) -> (r: i32)
        ensures
            r == self@.y,
    {
        self.y
    }

    pub fn z(&self) -> (r: i32)
        ensures
            r == self@.z,
    {
        self.z
    }

    /// The translation that leads from `other` to this position.
    pub fn delta_from(&self, other: &Self) -> (t: Translation)
        requires
            self@.minus(other@).storable(),
        ensures
            t@ == self@.minus(other@),
            t@.balanced(),
    {
        proof {
            use_type_invariant(self);
            use_type_invariant(other);
        }
        Translation { x: self.x - other.x, y: self.y - other.y, z: self.z - other.z }
    }

    /// The translation that leads from this position to `other`.
    pub fn delta_to(&self, other: &Self) -> (t: Translation)
        requires
            other@.minus(self@).storable(),
        ensures
            t@ == other@.minus(self@),
            t@.balanced(),
    {
        proof {
            use_type_invariant(self);
            use_type_invariant(other);
        }
        Translation { x: other.x - self.x, y: other.y - self.y, z: other.z - self.z }
    }

    /// Moves the position by `trans` if the cell it would reach lies on the
    /// grid of `ctx`; otherwise the position stays where it was.
    ///
    /// Both operands add up to zero, so the only refusal is `OutOfBounds`:
    /// a component of the target beyond the grid radius, or beyond what a
    /// coordinate can store.
    pub fn translate(&mut self, trans: &Translation, ctx: &Context) -> (r: Result<(), CoordsError>)
        ensures
            r is Ok <==> old(self)@.plus(trans@).within(ctx@.grid_radius as int) && old(self)@.plus(
                trans@,
            ).storable(),
            r is Ok ==> final(self)@ == old(self)@.plus(trans@),
            r is Ok ==> final(self)@.within(ctx@.grid_radius as int),
            r is Err ==> *final(self) == *old(self),
            r matches Err(e) ==> e is OutOfBounds,
            final(self)@.balanced(),
    {
        proof {
            use_type_invariant(&*self);
        }
        match self.can_translate(trans, ctx) {
            Ok(()) => {
                self.blind_translate(trans);
                Ok(())
            },
            Err(e) => Err(e),
        }
    }

    /// Whether `other` is one of the six cells round this one.
    pub fn is_neighbor(&self, other: &Self) -> (b: bool)
        ensures
            b == self@.adjacent(other@),
    {
        let dx: i64 = self.x as i64 - other.x as i64;
        let dy: i64 = self.y as i64 - other.y as i64;
        let dz: i64 = self.z as i64 - other.z as i64;
        largest_component(dx, dy, dz) == 1
    }

    /// Adds `trans` to the position without looking at any grid.
    pub fn blind_translate(&mut self, trans: &Translation)
        requires
            old(self)@.plus(trans@).storable(),
        ensures
            final(self)@ == old(self)@.plus(trans@),
            final(self)@.balanced(),
    {
        proof {
            use_type_invariant(&*self);
            use_type_invariant(trans);
        }
        *self = Position { x: self.x + trans.x, y: self.y + trans.y, z: self.z + trans.z };
    }

    /// Whether `translate` by `trans` would succeed on the grid of `ctx`.
    pub fn can_translate(&self, trans: &Translation, ctx: &Context) -> (r: Result<(), CoordsError>)
        ensures
            r is Ok <==> self@.plus(trans@).within(ctx@.grid_radius as int) && self@.plus(
                trans@,
            ).storable(),
            r matches Err(e) ==> e is OutOfBounds,
    {
        proof {
            use_type_invariant(self);
            use_type_invariant(trans);
        }
        let x: i64 = self.x as i64 + trans.x as i64;
        let y: i64 = self.y as i64 + trans.y as i64;
        let z: i64 = self.z as i64 + trans.z as i64;
        if !(fits_coordinate(x) && fits_coordinate(y) && fits_coordinate(z)) {
            return Err(CoordsError::OutOfBounds);
        }
        match is_sane(x, y, z, ctx) {
            Ok(()) => Ok(()),
            Err(_) => Err(CoordsError::OutOfBounds),
        }
    }
}

/// The half-open range from which the second component of a random cell is
/// drawn once the first is known to be `x`, on a grid that reaches `reach`
/// cells from its centre. A negative `x` leaves room on the positive side
/// only, a positive `x` on the negative side only; this keeps the cell
/// inside the hexagon rather than inside the rhombus round it.
pub open spec fn second_range(x: int, reach: int) -> (int, int) {
    if x < 0 {
        (0, -x)
    } else if x == 0 {
        (-reach, reach)
    } else {
        (-x, 0)
    }
}

/// What holds of every cell that the random sampler can return for a grid
/// that reaches `reach` cells from its centre.
pub open spec fn sampled_within(c: Cube, reach: int) -> bool {
    &&& -reach <= c.x < reach
    &&& second_range(c.x, reach).0 <= c.y < second_range(c.x, reach).1
    &&& c.balanced()
}

/// Every cell that the sampler can return lies within the reach it was
/// given.
pub proof fn lemma_sampled_is_within(c: Cube, reach: int)
    requires
        sampled_within(c, reach),
    ensures
        c.within(reach),
{
}

impl Position {
    /// The range from which the second component is drawn, see
    /// `second_range`.
    pub fn second_bounds(x: i32, reach: i32) -> (r: (i32, i32))
        requires
            1 <= reach,
            -reach <= x < reach,
        ensures
            (r.0 as int, r.1 as int) == second_range(x as int, reach as int),
            r.0 < r.1,
    {
        if x < 0 {
            (0, -x)
        } else if x == 0 {
            (-reach, reach)
        } else {
            (-x, 0)
        }
    }

    /// The cell with the two given components; the third makes the sum
    /// zero.
    pub fn from_pair(x: i32, y: i32) -> (p: Position)
        requires
            i32::MIN <= -(x + y) <= i32::MAX,
        ensures
            p@ == (Cube { x: x as int, y: y as int, z: -(x + y) }),
            p@.balanced(),
    {
        Position { x, y, z: (0 - x as i64 - y as i64) as i32 }
    }

    /// Draws a cell that keeps at least `dist_from_edge` cells between
    /// itself and the edge of the grid of `ctx`.
    ///
    /// Fails with `InvalidParam("dist_from_edge")` exactly when the margin
    /// exceeds the grid radius, so that no cell can keep it. A margin equal
    /// to the radius leaves the centre cell alone, and that is the answer.
    pub fn rand_constrained(ctx: &Context, dist_from_edge: usize) -> (r: Result<
        Self,
        CoordsError,
    >)
        requires
            ctx@.grid_radius <= i32::MAX,
        ensures
            r is Err <==> dist_from_edge > ctx@.grid_radius,
            r matches Err(e) ==> e matches CoordsError::InvalidParam(name) && name@
                == "dist_from_edge"@,
            r matches Ok(p) ==> {
                &&& p@.balanced()
                &&& p@.within(ctx@.grid_radius - dist_from_edge)
                &&& dist_from_edge == ctx@.grid_radius ==> p@ == Cube::origin()
                &&& dist_from_edge < ctx@.grid_radius ==> sampled_within(
                    p@,
                    ctx@.grid_radius - dist_from_edge,
                )
            },
    {
        if dist_from_edge > ctx.grid_radius() {
            return Err(CoordsError::InvalidParam("dist_from_edge".to_owned()));
        }
        let max_dist: i32 = (ctx.grid_radius() - dist_from_edge) as i32;
        if max_dist == 0 {
            // Nothing is left to draw from but the centre
            return Ok(Position { x: 0, y: 0, z: 0 });
        }
        let rand_x: i32 = random_between(-max_dist, max_dist);
        let (low, high) = Position::second_bounds(rand_x, max_dist);
        let calc_rand_y: i32 = random_between(low, high);
        let p = Position::from_pair(rand_x, calc_rand_y);
        proof {
            lemma_sampled_is_within(p@, max_dist as int);
        }
        Ok(p)
    }
}

impl Randomizable for Position {
    /// A cell can be drawn on any grid that has cells round its centre.
    open spec fn can_rand(ctx: &Context) -> bool {
        ctx@.can_place()
    }

    /// Draws a cell of the grid of `ctx`.
    fn rand(ctx: &Context) -> (p: Self)
        ensures
            sampled_within(p@, ctx@.grid_radius as int),
            p@.within(ctx@.grid_radius as int),
            p@.balanced(),
    {
        match Position::rand_constrained(ctx, 0) {
            Ok(p) => p,
            Err(_) => vstd::pervasive::unreached(),
        }
    }
}

/// Text form of a cell: its three components in round brackets, with
/// commas between them and no blanks.
pub open spec fn cell_text(c: Cube) -> Seq<char> {
    seq!['('] + signed_decimal(c.x) + seq![','] + signed_decimal(c.y) + seq![',']
        + signed_decimal(c.z) + seq![')']
}

/// Message of a refusal whose components do not add up to zero.
pub open spec fn sum_message(x: int, y: int, z: int) -> Seq<char> {
    "Position components ("@ + signed_decimal(x) + ", "@ + signed_decimal(y) + ", "@
        + signed_decimal(z) + ") do not add up to 0."@
}

impl Position {
    /// Writes the position as `(x,y,z)`.
    pub fn to_text(&self) -> (s: String)
        ensures
            s@ == cell_text(self@),
    {
        proof {
            reveal_strlit("(");
            reveal_strlit(",");
            reveal_strlit(")");
        }
        let mut s = "(".to_owned();
        s.append(signed_decimal_text(self.x as i64).as_str());
        s.append(",");
        s.append(signed_decimal_text(self.y as i64).as_str());
        s.append(",");
        s.append(signed_decimal_text(self.z as i64).as_str());
        s.append(")");
        assert(s@ =~= cell_text(self@));
        s
    }
}

impl CoordsError {
    /// What the error says to a reader.
    pub open spec fn message_text(self) -> Seq<char> {
        match self {
            CoordsError::SumNotZero(x, y, z) => sum_message(x as int, y as int, z as int),
            CoordsError::InvalidParam(name) => "Invalid Parameter: "@ + name@,
            CoordsError::OutOfBounds => "Position out of bounds"@,
        }
    }

    /// Writes what the error says to a reader.
    pub fn message(&self) -> (s: String)
        ensures
            s@ == self.message_text(),
    {
        match self {
            CoordsError::SumNotZero(x, y, z) => {
                let mut s = "Position components (".to_owned();
                s.append(signed_decimal_text(*x as i64).as_str());
                s.append(", ");
                s.append(signed_decimal_text(*y as i64).as_str());
                s.append(", ");
                s.append(signed_decimal_text(*z as i64).as_str());
                s.append(") do not add up to 0.");
                assert(s@ =~= sum_message(*x as int, *y as int, *z as int));
                s
            },
            CoordsError::InvalidParam(name) => {
                let mut s = "Invalid Parameter: ".to_owned();
                s.append(name.as_str());
                s
            },
            CoordsError::OutOfBounds => "Position out of bounds".to_owned(),
        }
    }
}

impl Default for Position {
    /// The centre of the grid.
    fn default() -> (p: Self)
        ensures
            p@ == Cube::origin(),
    {
        Position { x: 0, y: 0, z: 0 }
    }
}

impl Translation {
    /// Every translation that exists at run time has components that add up
    /// to zero.
    #[verifier::type_invariant]
    pub open spec fn wf(self) -> bool {
        self@.balanced()
    }

    /// The translation that stores the given components.
    spec fn holding(c: Cube) -> Translation {
        Translation { x: c.x as i32, y: c.y as i32, z: c.z as i32 }
    }

    /// Two translations with the same components are the same translation.
    pub proof fn lemma_view_injective(a: Translation, b: Translation)
        ensures
            a@ == b@ <==> a == b,
    {
    }

    /// The components of a translation are always storable.
    pub proof fn lemma_view_storable(a: Translation)
        ensures
            a@.storable(),
    {
    }

    /// Builds the translation `(x, y, z)`. A translation belongs to no
    /// grid, so the context sets it no bounds.
    ///
    /// Fails with `SumNotZero`, handing the components back, exactly when
    /// they do not add up to zero.
    pub fn new(x: i32, y: i32, z: i32, _ctx: &Context) -> (r: Result<Self, CoordsError>)
        ensures
            r is Ok <==> x + y + z == 0,
            r matches Ok(t) ==> t@ == (Cube { x: x as int, y: y as int, z: z as int }) && t@.balanced(),
            r matches Err(e) ==> e matches CoordsError::SumNotZero(ex, ey, ez) && (ex, ey, ez) == (
                x,
                y,
                z,
            ),
    {
        if x as i64 + y as i64 + z as i64 != 0 {
            return Err(CoordsError::SumNotZero(x, y, z));
        }
        Ok(Translation { x, y, z })
    }

    pub fn x(&self) -> (r: i32)
        ensures
            r == self@.x,
    {
        self.x
    }

    pub fn y(&self) -> (r: i32)
        ensures
            r == self@.y,
    {
        self.y
    }

    pub fn z(&self) -> (r: i32)
        ensures
            r == self@.z,
    {
        self.z
    }

    /// The least number of hops between neighbouring cells that realise
    /// the translation: its largest absolute component.
    pub fn magnitude(&self) -> (m: u32)
        ensures
            m == self@.norm(),
    {
        largest_component(self.x as i64, self.y as i64, self.z as i64) as u32
    }
}

impl Default for Translation {
    /// The translation that moves nothing.
    fn default() -> (t: Self)
        ensures
            t@ == Cube::origin(),
    {
        Translation { x: 0, y: 0, z: 0 }
    }
}

/// The step that leads from a cell to its neighbour across the given edge.
/// The whole topology of the grid rests on this table.
pub open spec fn side_offset(side: Side) -> Cube {
    match side {
        Side::NorthEast => Cube { x: 1, y: 0, z: -1 },
        Side::North => Cube { x: 0, y: 1, z: -1 },
        Side::NorthWest => Cube { x: -1, y: 1, z: 0 },
        Side::SouthWest => Cube { x: -1, y: 0, z: 1 },
        Side::South => Cube { x: 0, y: -1, z: 1 },
        Side::SouthEast => Cube { x: 1, y: -1, z: 0 },
    }
}

/// Every step across an edge has magnitude one.
pub proof fn lemma_side_offset_is_unit(side: Side)
    ensures
        side_offset(side).balanced(),
        side_offset(side).norm() == 1,
{
}

/// The cell across any edge of a cell is its neighbour, and the cell is a
/// neighbour of that one.
pub proof fn lemma_step_is_adjacent(cell: Cube, side: Side)
    ensures
        cell.plus(side_offset(side)).adjacent(cell),
        cell.adjacent(cell.plus(side_offset(side))),
{
}

/// Neighbour symmetry: where a translation across `side` takes the position
/// `from` to the position `to`, each of the two is a neighbour of the
/// other.
pub proof fn lemma_translated_is_neighbor(from: Position, side: Side, to: Position)
    requires
        to@ == from@.plus(side_offset(side)),
    ensures
        from@.adjacent(to@),
        to@.adjacent(from@),
{
    lemma_step_is_adjacent(from@, side);
}

/// Being neighbours is mutual.
pub proof fn lemma_adjacent_is_symmetric(a: Cube, b: Cube)
    ensures
        a.adjacent(b) == b.adjacent(a),
{
}

/// The sum and the difference of two triples that add up to zero add up
/// to zero, and so does the negative of one.
pub proof fn lemma_balanced_is_closed(a: Cube, b: Cube)
    requires
        a.balanced(),
        b.balanced(),
    ensures
        a.plus(b).balanced(),
        a.minus(b).balanced(),
        a.negated().balanced(),
{
}

impl From<Side> for Translation {
    fn from(src: Side) -> (t: Self)
        ensures
            t@ == side_offset(src),
            t@.balanced(),
            t@.norm() == 1,
    {
        match src {
            Side::NorthEast => Translation { x: 1, y: 0, z: -1 },
            Side::North => Translation { x: 0, y: 1, z: -1 },
            Side::NorthWest => Translation { x: -1, y: 1, z: 0 },
            Side::SouthWest => Translation { x: -1, y: 0, z: 1 },
            Side::South => Translation { x: 0, y: -1, z: 1 },
            Side::SouthEast => Translation { x: 1, y: -1, z: 0 },
        }
    }
}

impl vstd::std_specs::convert::FromSpecImpl<Side> for Translation {
    open spec fn obeys_from_spec() -> bool {
        true
    }

    closed spec fn from_spec(v: Side) -> Translation {
        Translation::holding(side_offset(v))
    }
}

impl core::ops::Neg for Translation {
    type Output = Translation;

    /// The translation that undoes this one.
    fn neg(self) -> (t: Translation)
        ensures
            t@ == self@.negated(),
            t@.balanced(),
    {
        proof {
            use_type_invariant(&self);
        }
        Translation { x: -self.x, y: -self.y, z: -self.z }
    }
}

impl vstd::std_specs::ops::NegSpecImpl for Translation {
    open spec fn obeys_neg_spec() -> bool {
        true
    }

    /// No component is the one coordinate that has no negative.
    open spec fn neg_req(self) -> bool {
        self@.negated().storable()
    }

    closed spec fn neg_spec(self) -> Translation {
        Translation::holding(self@.negated())
    }
}

fn fits_coordinate(v: i64) -> (b: bool)
    ensures
        b == (i32::MIN <= v <= i32::MAX),
{
    -0x8000_0000 <= v && v <= 0x7fff_ffff
}

/// Largest absolute value among three components.
fn largest_component(x: i64, y: i64, z: i64) -> (m: i64)
    requires
        -0x1_0000_0000 <= x <= 0x1_0000_0000,
        -0x1_0000_0000 <= y <= 0x1_0000_0000,
        -0x1_0000_0000 <= z <= 0x1_0000_0000,
    ensures
        m == (Cube { x: x as int, y: y as int, z: z as int }).norm(),
{
    let ax: i64 = if x < 0 { -x } else { x };
    let ay: i64 = if y < 0 { -y } else { y };
    let az: i64 = if z < 0 { -z } else { z };
    if ax > ay && ax > az {
        ax
    } else if ay > az {
        ay
    } else {
        az
    }
}

} // verus!
