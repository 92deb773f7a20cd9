//! The six directions of a hexagonal cell, towards its edges (`Side`) and
//! towards its corners (`Vertex`), and a provider that walks them in
//! rotational order.
//!
//! Angles are whole degrees, counter-clockwise from due East. Each direction
//! owns the sector of sixty degrees that is centred on its own angle.

use vstd::prelude::*;

use crate::context::Context;
use crate::coords::{side_offset, Translation};
use crate::entropy::random_between;
use crate::Randomizable;

verus! {

/// Number of directions of either kind.
pub const NUM_HEX_DIRECTIONS: usize = 6;

/// Degrees in a full turn.
pub const FULL_TURN: u32 = 360;

/// Degrees between one direction and the next.
pub const SECTOR: u32 = 60;

/// Angle of the direction with the given ordinal, where the first direction
/// of its kind points at `phase` degrees.
pub open spec fn angle_at(ordinal: int, phase: int) -> int {
    phase + 60 * ordinal
}

/// Ordinal of the direction whose sector holds `degrees`, where the first
/// sector begins at `start` degrees: the angle is reduced to one full turn
/// and rounded down to the beginning of its sector.
pub open spec fn sector_at(degrees: int, start: int) -> int {
    ((degrees - start) % 360) / 60
}

/// A family of six directions in rotational order.
pub trait HexDirection: Copy + Sized {
    /// Dense index of the direction, `0..6`, counter-clockwise.
    spec fn ordinal(self) -> int;

    /// The direction with the given dense index.
    spec fn at(ordinal: int) -> Self;

    /// Angle of the first direction, in degrees.
    spec fn phase() -> int;

    /// Angle at which the sector of the first direction begins, in degrees.
    spec fn sector_start() -> int;

    /// Every direction has an index below six, which names it.
    proof fn lemma_ordinal(self)
        ensures
            0 <= self.ordinal() < 6,
            Self::at(self.ordinal()) == self,
    ;

    /// Every index below six names a direction with that index.
    proof fn lemma_at(ordinal: int)
        requires
            0 <= ordinal < 6,
        ensures
            Self::at(ordinal).ordinal() == ordinal,
    ;

    /// The first direction points into the first sixty degrees, and into
    /// its own sector.
    proof fn lemma_phase()
        ensures
            0 <= Self::phase() < 60,
            0 <= Self::phase() - Self::sector_start() < 60,
    ;

    fn count() -> (n: usize)
        ensures
            n == NUM_HEX_DIRECTIONS,
    ;

    /// Dense index of the direction.
    fn index(self) -> (i: usize)
        ensures
            i == self.ordinal(),
    ;

    /// The direction with the given dense index.
    fn from_index(i: usize) -> (d: Self)
        requires
            i < NUM_HEX_DIRECTIONS,
        ensures
            d == Self::at(i as int),
    ;

    /// Angle of the direction, in degrees within one full turn.
    fn degrees(self) -> (a: u32)
        ensures
            a == angle_at(self.ordinal(), Self::phase()),
            a < FULL_TURN,
    ;

    /// The direction whose sector holds the given angle.
    fn from_degrees(a: u32) -> (d: Self)
        ensures
            d == Self::at(sector_at(a as int, Self::sector_start())),
    ;
}

#[derive(Debug, Copy, Clone, Eq, PartialEq, Hash, Structural)]
pub enum Side {
    NorthEast,
    North,
    NorthWest,
    SouthWest,
    South,
    SouthEast,
}

#[derive(Debug, Copy, Clone, Eq, PartialEq, Hash, Structural)]
pub enum Vertex {
    East,
    NorthEast,
    NorthWest,
    West,
    SouthWest,
    SouthEast,
}

impl HexDirection for Side {
    open spec fn ordinal(self) -> int {
        match self {
            Side::NorthEast => 0,
            Side::North => 1,
            Side::NorthWest => 2,
            Side::SouthWest => 3,
            Side::South => 4,
            Side::SouthEast => 5,
        }
    }

    open spec fn at(ordinal: int) -> Side {
        if ordinal == 0 {
            Side::NorthEast
        } else if ordinal == 1 {
            Side::North
        } else if ordinal == 2 {
            Side::NorthWest
        } else if ordinal == 3 {
            Side::SouthWest
        } else if ordinal == 4 {
            Side::South
        } else {
            Side::SouthEast
        }
    }

    open spec fn phase() -> int {
        30
    }

    open spec fn sector_start() -> int {
        0
    }

    proof fn lemma_ordinal(self) {
    }

    proof fn lemma_at(ordinal: int) {
    }

    proof fn lemma_phase() {
    }

    fn count() -> (n: usize) {
        NUM_HEX_DIRECTIONS
    }

    fn index(self) -> (i: usize) {
        match self {
            Side::NorthEast => 0,
            Side::North => 1,
            Side::NorthWest => 2,
            Side::SouthWest => 3,
            Side::South => 4,
            Side::SouthEast => 5,
        }
    }

    fn from_index(i: usize) -> (d: Side) {
        match i {
            0 => Side::NorthEast,
            1 => Side::North,
            2 => Side::NorthWest,
            3 => Side::SouthWest,
            4 => Side::South,
            _ => Side::SouthEast,
        }
    }

    fn degrees(self) -> (a: u32) {
        match self {
            Side::NorthEast => 30,
            Side::North => 90,
            Side::NorthWest => 150,
            Side::SouthWest => 210,
            Side::South => 270,
            Side::SouthEast => 330,
        }
    }

    fn from_degrees(a: u32) -> (d: Side) {
        let reduced: u32 = a % FULL_TURN;
        if reduced < 60 {
            Side::NorthEast
        } else if reduced < 120 {
            Side::North
        } else if reduced < 180 {
            Side::NorthWest
        } else if reduced < 240 {
            Side::SouthWest
        } else if reduced < 300 {
            Side::South
        } else {
            Side::SouthEast
        }
    }
}

impl HexDirection for Vertex {
    open spec fn ordinal(self) -> int {
        match self {
            Vertex::East => 0,
            Vertex::NorthEast => 1,
            Vertex::NorthWest => 2,
            Vertex::West => 3,
            Vertex::SouthWest => 4,
            Vertex::SouthEast => 5,
        }
    }

    open spec fn at(ordinal: int) -> Vertex {
        if ordinal == 0 {
            Vertex::East
        } else if ordinal == 1 {
            Vertex::NorthEast
        } else if ordinal == 2 {
            Vertex::NorthWest
        } else if ordinal == 3 {
            Vertex::West
        } else if ordinal == 4 {
            Vertex::SouthWest
        } else {
            Vertex::SouthEast
        }
    }

    open spec fn phase() -> int {
        0
    }

    open spec fn sector_start() -> int {
        -30
    }

    proof fn lemma_ordinal(self) {
    }

    proof fn lemma_at(ordinal: int) {
    }

    proof fn lemma_phase() {
    }

    fn count() -> (n: usize) {
        NUM_HEX_DIRECTIONS
    }

    fn index(self) -> (i: usize) {
        match self {
            Vertex::East => 0,
            Vertex::NorthEast => 1,
            Vertex::NorthWest => 2,
            Vertex::West => 3,
            Vertex::SouthWest => 4,
            Vertex::SouthEast => 5,
        }
    }

    fn from_index(i: usize) -> (d: Vertex) {
        match i {
            0 => Vertex::East,
            1 => Vertex::NorthEast,
            2 => Vertex::NorthWest,
            3 => Vertex::West,
            4 => Vertex::SouthWest,
            _ => Vertex::SouthEast,
        }
    }

    fn degrees(self) -> (a: u32) {
        match self {
            Vertex::East => 0,
            Vertex::NorthEast => 60,
            Vertex::NorthWest => 120,
            Vertex::West => 180,
            Vertex::SouthWest => 240,
            Vertex::SouthEast => 300,
        }
    }

    fn from_degrees(a: u32) -> (d: Vertex) {
        let reduced: u32 = a % FULL_TURN;
        if reduced < 30 {
            Vertex::East
        } else if reduced < 90 {
            Vertex::NorthEast
        } else if reduced < 150 {
            Vertex::NorthWest
        } else if reduced < 210 {
            Vertex::West
        } else if reduced < 270 {
            Vertex::SouthWest
        } else if reduced < 330 {
            Vertex::SouthEast
        } else {
            Vertex::East
        }
    }
}

impl Side {
    /// The two corners at the ends of the edge, counter-clockwise: the
    /// corner with the same ordinal, then the one after it.
    pub open spec fn adjacent_vertices(self) -> (Vertex, Vertex) {
        (Vertex::at(self.ordinal()), Vertex::at((self.ordinal() + 1) % 6))
    }

    /// Returns the adjacent vertices as a tuple in counter-clockwise order.
    pub fn get_adjacent_vertices(side: Self) -> (r: (Vertex, Vertex))
        ensures
            r == side.adjacent_vertices(),
    {
        match side {
            Side::NorthEast => (Vertex::East, Vertex::NorthEast),
            Side::North => (Vertex::NorthEast, Vertex::NorthWest),
            Side::NorthWest => (Vertex::NorthWest, Vertex::West),
            Side::SouthWest => (Vertex::West, Vertex::SouthWest),
            Side::South => (Vertex::SouthWest, Vertex::SouthEast),
            Side::SouthEast => (Vertex::SouthEast, Vertex::East),
        }
    }
}

impl Vertex {
    /// The two edges that meet in the corner, counter-clockwise: the edge
    /// before the one with the same ordinal, then that one.
    pub open spec fn adjacent_sides(self) -> (Side, Side) {
        (Side::at((self.ordinal() + 5) % 6), Side::at(self.ordinal()))
    }

    /// Returns the adjacent sides as a tuple in counter-clockwise order.
    pub fn get_adjacent_sides(vertex: Self) -> (r: (Side, Side))
        ensures
            r == vertex.adjacent_sides(),
    {
        match vertex {
            Vertex::East => (Side::SouthEast, Side::NorthEast),
            Vertex::NorthEast => (Side::NorthEast, Side::North),
            Vertex::NorthWest => (Side::North, Side::NorthWest),
            Vertex::West => (Side::NorthWest, Side::SouthWest),
            Vertex::SouthWest => (Side::SouthWest, Side::South),
            Vertex::SouthEast => (Side::South, Side::SouthEast),
        }
    }
}

impl From<Side> for usize {
    fn from(src: Side) -> (i: usize)
        ensures
            i == src.ordinal(),
    {
        src.index()
    }
}

impl vstd::std_specs::convert::FromSpecImpl<Side> for usize {
    open spec fn obeys_from_spec() -> bool {
        true
    }

    open spec fn from_spec(v: Side) -> usize {
        v.ordinal() as usize
    }
}

impl From<Vertex> for usize {
    fn from(src: Vertex) -> (i: usize)
        ensures
            i == src.ordinal(),
    {
        src.index()
    }
}

impl vstd::std_specs::convert::FromSpecImpl<Vertex> for usize {
    open spec fn obeys_from_spec() -> bool {
        true
    }

    open spec fn from_spec(v: Vertex) -> usize {
        v.ordinal() as usize
    }
}

impl Side {
    /// The side across which a translation of one cell leads.
    pub fn from_translation(src: Translation) -> (side: Side)
        requires
            src@.norm() == 1,
        ensures
            side_offset(side) == src@,
    {
        proof {
            use_type_invariant(&src);
        }
        let (x, y, z) = (src.x(), src.y(), src.z());
        if x == 1 && y == 0 {
            Side::NorthEast
        } else if x == 0 && y == 1 {
            Side::North
        } else if x == -1 && y == 1 {
            Side::NorthWest
        } else if x == -1 && y == 0 {
            Side::SouthWest
        } else if x == 0 && y == -1 {
            Side::South
        } else {
            Side::SouthEast
        }
    }
}

impl Default for Side {
    fn default() -> (d: Self)
        ensures
            d == Side::NorthEast,
    {
        Side::NorthEast
    }
}

impl Default for Vertex {
    fn default() -> (d: Self)
        ensures
            d == Vertex::East,
    {
        Vertex::East
    }
}

/// What a `Provider` holds: the direction it last arrived at and the number
/// of advances made so far.
pub struct ProviderView<T> {
    pub current: T,
    pub step: nat,
}

impl<T: HexDirection> ProviderView<T> {
    /// The direction `k` sectors counter-clockwise of the current one.
    pub open spec fn ahead(self, k: int) -> T {
        T::at((self.current.ordinal() + k) % 6)
    }

    /// The directions that the provider has yet to yield, in order.
    pub open spec fn remaining(self) -> Seq<T> {
        if self.step >= 6 {
            Seq::empty()
        } else {
            Seq::new((6 - self.step) as nat, |k: int| self.ahead(k + 1))
        }
    }

    /// State after one advance: the direction turns by one sector, and the
    /// count of advances grows until it has passed six.
    pub open spec fn advanced(self) -> ProviderView<T> {
        ProviderView {
            current: self.ahead(1),
            step: if self.step <= 6 {
                self.step + 1
            } else {
                self.step
            },
        }
    }
}

/// Walks the six directions of one kind in rotational order, beginning with
/// the direction after the one it was started at and ending with that one.
#[derive(Debug)]
pub struct Provider<T: HexDirection> {
    cur_direction: T,
    idx: usize,
}

impl<T: HexDirection> View for Provider<T> {
    type V = ProviderView<T>;

    closed spec fn view(&self) -> ProviderView<T> {
        ProviderView { current: self.cur_direction, step: self.idx as nat }
    }
}

impl<T: HexDirection> Provider<T> {
    pub fn new(start_direction: T) -> (p: Self)
        ensures
            p@ == (ProviderView { current: start_direction, step: 0 }),
    {
        Provider { cur_direction: start_direction, idx: 0 }
    }

    pub fn count(&self) -> (n: usize)
        ensures
            n == NUM_HEX_DIRECTIONS,
    {
        T::count()
    }

    /// The direction at which the provider stands: the one it was started
    /// at, or the one it yielded last.
    pub fn current(&self) -> (d: T)
        ensures
            d == self@.current,
    {
        self.cur_direction
    }

    /// Turns to the next direction and yields it, or yields nothing once
    /// six directions have been handed out.
    pub fn next(&mut self) -> (r: Option<T>)
        ensures
            final(self)@ == old(self)@.advanced(),
            r == if old(self)@.step < 6 {
                Some(old(self)@.ahead(1))
            } else {
                None
            },
            r is Some <==> old(self)@.remaining().len() > 0,
            r matches Some(d) ==> d == old(self)@.remaining()[0] && final(self)@.remaining()
                == old(self)@.remaining().drop_first(),
            r is None ==> final(self)@.remaining() == Seq::<T>::empty(),
    {
        proof {
            self.cur_direction.lemma_ordinal();
            T::lemma_phase();
        }
        let next_theta: u32 = self.cur_direction.degrees() + SECTOR;
        if self.idx <= NUM_HEX_DIRECTIONS {
            self.idx += 1;
        }
        self.cur_direction = T::from_degrees(next_theta);
        proof {
            lemma_next_sector(old(self)@.current.ordinal(), T::phase(), T::sector_start());
            if old(self)@.step < 6 {
                lemma_remaining_step(old(self)@);
            }
        }
        if self.idx > NUM_HEX_DIRECTIONS {
            None
        } else {
            Some(self.cur_direction)
        }
    }
}

impl<T: HexDirection> Randomizable for Provider<T> {
    /// A provider can be started under any limits.
    open spec fn can_rand(ctx: &Context) -> bool {
        true
    }

    /// A fresh provider started at the direction that owns a uniformly
    /// drawn angle, so that a search for a free neighbour favours no
    /// direction.
    fn rand(ctx: &Context) -> (p: Self)
        ensures
            p@.step == 0,
            p@.remaining().len() == 6,
    {
        let angle: i32 = random_between(0, 360);
        Provider::new(T::from_degrees(angle as u32))
    }
}

impl Randomizable for Side {
    open spec fn can_rand(ctx: &Context) -> bool {
        true
    }

    /// The side that owns a uniformly drawn angle.
    fn rand(ctx: &Context) -> (d: Self) {
        let angle: i32 = random_between(0, 360);
        Side::from_degrees(angle as u32)
    }
}

impl Randomizable for Vertex {
    open spec fn can_rand(ctx: &Context) -> bool {
        true
    }

    /// The vertex that owns a uniformly drawn angle.
    fn rand(ctx: &Context) -> (d: Self) {
        let angle: i32 = random_between(0, 360);
        Vertex::from_degrees(angle as u32)
    }
}

impl<T: HexDirection> Default for Provider<T> {
    /// A provider started at the first direction of its kind.
    fn default() -> (p: Self)
        ensures
            p@ == (ProviderView { current: T::at(0), step: 0 }),
    {
        Provider::new(T::from_index(0))
    }
}

/// A direction survives the way to its index and back.
pub proof fn lemma_index_round_trip<T: HexDirection>(d: T)
    ensures
        0 <= d.ordinal() < 6,
        T::at(d.ordinal()) == d,
{
    d.lemma_ordinal();
}

/// A direction survives the way to its angle and back: its angle lies in
/// its own sector.
pub proof fn lemma_degrees_round_trip<T: HexDirection>(d: T)
    ensures
        0 <= angle_at(d.ordinal(), T::phase()) < 360,
        T::at(sector_at(angle_at(d.ordinal(), T::phase()), T::sector_start())) == d,
{
    d.lemma_ordinal();
    T::lemma_phase();
}

/// A provider started at `d` yields exactly six directions. They come in
/// rotational order, beginning with the direction after `d` and ending
/// with `d` itself, and every direction of the kind is among them exactly
/// once.
pub proof fn lemma_provider_complete<T: HexDirection>(d: T)
    ensures
        ({
            let yields = (ProviderView { current: d, step: 0 }).remaining();
            &&& yields.len() == 6
            &&& yields[0] == T::at((d.ordinal() + 1) % 6)
            &&& yields[0] != d
            &&& yields[5] == d
            &&& forall|k: int|
                0 <= k < 5 ==> (#[trigger] yields[k + 1]).ordinal() == (yields[k].ordinal() + 1)
                    % 6
            &&& forall|v: T| #[trigger] yields.contains(v)
            &&& forall|i: int, j: int| 0 <= i < j < 6 ==> yields[i] != yields[j]
        }),
{
    let start = ProviderView { current: d, step: 0 };
    let yields = start.remaining();
    let o = d.ordinal();
    d.lemma_ordinal();
    assert forall|k: int| 0 <= k < 6 implies (#[trigger] yields[k]).ordinal() == (o + k + 1)
        % 6 by {
        T::lemma_at((o + k + 1) % 6);
    }
    assert(yields[5] == d);
    assert forall|v: T| #[trigger] yields.contains(v) by {
        v.lemma_ordinal();
        let k = (v.ordinal() + 5 - o) % 6;
        assert((o + k + 1) % 6 == v.ordinal());
        assert(yields[k] == v);
    }
    assert forall|k: int| 0 <= k < 5 implies (#[trigger] yields[k + 1]).ordinal() == (
    yields[k].ordinal() + 1) % 6 by {
        assert(((o + k + 1) % 6 + 1) % 6 == (o + k + 2) % 6);
    }
}

/// Sixty degrees past the angle of a direction lies the sector of the
/// direction that follows it.
proof fn lemma_next_sector(ordinal: int, phase: int, start: int)
    requires
        0 <= ordinal < 6,
        0 <= phase - start < 60,
    ensures
        sector_at(angle_at(ordinal, phase) + 60, start) == (ordinal + 1) % 6,
{
}

/// Taking the first of the remaining directions leaves the remaining
/// directions of the advanced provider.
proof fn lemma_remaining_step<T: HexDirection>(v: ProviderView<T>)
    requires
        v.step < 6,
    ensures
        v.remaining().len() == 6 - v.step,
        v.remaining()[0] == v.ahead(1),
        v.advanced().remaining() == v.remaining().drop_first(),
{
    v.current.lemma_ordinal();
    let next = v.advanced();
    T::lemma_at((v.current.ordinal() + 1) % 6);
    assert forall|k: int| 0 <= k < 5 - v.step implies #[trigger] next.ahead(k + 1) == v.ahead(
        k + 2,
    ) by {
        assert(((v.current.ordinal() + 1) % 6 + k + 1) % 6 == (v.current.ordinal() + k + 2) % 6);
    }
    assert(next.remaining() =~= v.remaining().drop_first());
}

} // verus!
