//! Obstacles: chains of neighbouring cells that stand in the way of actors
//! and resources. A single obstacle may occupy more than one cell.
//!
//! An obstacle is grown by a random walk. From a random first cell the walk
//! repeatedly rolls for an early end, then asks a freshly started direction
//! provider for the first of the six neighbours that lies on the grid and is
//! not yet part of the chain. It ends when the roll says so, when the cursor
//! is boxed in, or when the chain has reached the length that the context
//! allows.

use vstd::prelude::*;

use crate::context::Context;
use crate::coords::{cubes, side_offset, Cube, Position, Translation};
use crate::element::{Element, Elemental};
use crate::entropy::{is_random_uid, new_uid, random_between};
use crate::hex_directions::{Provider, ProviderView, Side};
use crate::{Plottable, Randomizable};

verus! {

/// Odds, in hundredths, that the walk ends before any one step. Long,
/// snaking obstacles are wanted, so the odds are well below a coin flip.
pub const OBSTACLE_TERMINATION_PERCENT: i32 = 5;

/// Each cell of the chain shares an edge with the cell before it.
pub open spec fn contiguous(chain: Seq<Cube>) -> bool {
    forall|i: int| 0 < i < chain.len() ==> (#[trigger] chain[i]).adjacent(chain[i - 1])
}

/// No cell occurs twice in the chain.
pub open spec fn self_avoiding(chain: Seq<Cube>) -> bool {
    forall|i: int, j: int| 0 <= i < j < chain.len() ==> chain[i] != chain[j]
}

/// Every cell of the chain is a cell of the grid of the given radius.
pub open spec fn on_grid(chain: Seq<Cube>, radius: int) -> bool {
    forall|i: int| 0 <= i < chain.len() ==> (#[trigger] chain[i]).balanced() && chain[i].within(radius)
}

/// Whether the walk may step from `cursor` across `side`: the cell there
/// exists on the grid and is not part of the chain. The grid is asked
/// first, the chain second.
pub open spec fn is_free(cursor: Cube, side: Side, chain: Seq<Cube>, radius: int) -> bool {
    let target = cursor.plus(side_offset(side));
    &&& target.within(radius)
    &&& target.storable()
    &&& !chain.contains(target)
}

/// The cell that the walk moves to from `cursor`: the neighbour across the
/// first side of `order` that is free, or none when no side is.
pub open spec fn first_free(cursor: Cube, order: Seq<Side>, chain: Seq<Cube>, radius: int) -> Option<Cube>
    decreases order.len(),
{
    if order.len() == 0 {
        None
    } else if is_free(cursor, order[0], chain, radius) {
        Some(cursor.plus(side_offset(order[0])))
    } else {
        first_free(cursor, order.drop_first(), chain, radius)
    }
}

/// Whether one step of the walk adds a cell to the chain: the roll does not
/// end the walk, and some side of the last cell is free.
pub open spec fn step_grows(chain: Seq<Cube>, roll: int, order: Seq<Side>, radius: int) -> bool {
    &&& roll >= OBSTACLE_TERMINATION_PERCENT
    &&& first_free(chain.last(), order, chain, radius) is Some
}

/// The chain after one step of the walk: longer by the first free
/// neighbour of its last cell if the step grows it, as it was otherwise.
pub open spec fn after_step(chain: Seq<Cube>, roll: int, order: Seq<Side>, radius: int) -> Seq<
    Cube,
> {
    if step_grows(chain, roll, order, radius) {
        chain.push(first_free(chain.last(), order, chain, radius)->0)
    } else {
        chain
    }
}

/// The chain after the given steps, one after another. Each step has its
/// roll and the order in which its provider yields the sides.
pub open spec fn walked(chain: Seq<Cube>, rolls: Seq<int>, orders: Seq<Seq<Side>>, radius: int) -> Seq<
    Cube,
>
    decreases rolls.len(),
{
    if rolls.len() == 0 {
        chain
    } else {
        after_step(
            walked(chain, rolls.drop_last(), orders.drop_last(), radius),
            rolls.last(),
            orders.last(),
            radius,
        )
    }
}

/// No step of the walk is hindered: no roll ends it, and it never boxes
/// itself in.
pub open spec fn unhindered(chain: Seq<Cube>, rolls: Seq<int>, orders: Seq<Seq<Side>>, radius: int) -> bool
    decreases rolls.len(),
{
    rolls.len() == 0 || {
        &&& unhindered(chain, rolls.drop_last(), orders.drop_last(), radius)
        &&& step_grows(
            walked(chain, rolls.drop_last(), orders.drop_last(), radius),
            rolls.last(),
            orders.last(),
            radius,
        )
    }
}

/// A walk that nothing hinders grows by one cell with every step: from a
/// single first cell, five steps leave a chain of six cells.
pub proof fn lemma_unhindered_walk_grows(
    chain: Seq<Cube>,
    rolls: Seq<int>,
    orders: Seq<Seq<Side>>,
    radius: int,
)
    requires
        rolls.len() == orders.len(),
        unhindered(chain, rolls, orders, radius),
    ensures
        walked(chain, rolls, orders, radius).len() == chain.len() + rolls.len(),
    decreases rolls.len(),
{
    if rolls.len() > 0 {
        lemma_unhindered_walk_grows(chain, rolls.drop_last(), orders.drop_last(), radius);
    }
}

/// A walk never loses a cell, and takes no more steps than it is given.
pub proof fn lemma_walk_is_bounded(
    chain: Seq<Cube>,
    rolls: Seq<int>,
    orders: Seq<Seq<Side>>,
    radius: int,
)
    requires
        rolls.len() == orders.len(),
    ensures
        chain.len() <= walked(chain, rolls, orders, radius).len() <= chain.len() + rolls.len(),
    decreases rolls.len(),
{
    if rolls.len() > 0 {
        lemma_walk_is_bounded(chain, rolls.drop_last(), orders.drop_last(), radius);
    }
}

/// What an `Obstacle` holds.
pub struct ObstacleView {
    pub uid: [u8; 16],
    pub positions: Seq<Cube>,
    pub element: Element,
}

#[derive(Debug)]
pub struct Obstacle {
    uid: [u8; 16],
    positions: Vec<Position>,
    element: Element,
}

#[derive(Debug, Clone, Copy, PartialEq, Eq, Structural)]
pub enum ObstacleError {
    /// Two consecutive cells of the chain do not share an edge.
    NoncontiguousObstacle,
}

impl View for Obstacle {
    type V = ObstacleView;

    closed spec fn view(&self) -> ObstacleView {
        ObstacleView { uid: self.uid, positions: cubes(self.positions@), element: self.element }
    }
}

/// Whether `target` is one of `positions`.
pub fn chain_contains(positions: &Vec<Position>, target: &Position) -> (found: bool)
    ensures
        found == cubes(positions@).contains(target@),
{
    let mut i: usize = 0;
    while i < positions.len()
        invariant
            i <= positions.len(),
            forall|k: int| 0 <= k < i ==> positions@[k]@ != target@,
        decreases positions.len() - i,
    {
        if positions[i] == *target {
            assert(cubes(positions@)[i as int] == target@);
            return true;
        }
        proof {
            Position::lemma_view_injective(positions@[i as int], *target);
        }
        i += 1;
    }
    assert forall|k: int| 0 <= k < cubes(positions@).len() implies cubes(positions@)[k]
        != target@ by {
        assert(cubes(positions@)[k] == positions@[k]@);
    }
    false
}

/// Whether a roll out of a hundred ends the walk.
pub fn is_termination_roll(roll: i32) -> (stop: bool)
    ensures
        stop == (roll < OBSTACLE_TERMINATION_PERCENT),
{
    roll < OBSTACLE_TERMINATION_PERCENT
}

/// One step of the walk: the first neighbour of `cursor`, in the order in
/// which `provider` yields the sides, that lies on the grid of `ctx` and is
/// not among `positions`; none when the cursor is boxed in.
pub fn next_free_cell(
    cursor: &Position,
    positions: &Vec<Position>,
    provider: Provider<Side>,
    ctx: &Context,
) -> (r: Option<Position>)
    ensures
        match r {
            Some(p) => Some(p@),
            None => None,
        } == first_free(
            cursor@,
            provider@.remaining(),
            cubes(positions@),
            ctx@.grid_radius as int,
        ),
        r matches Some(p) ==> {
            &&& p@.adjacent(cursor@)
            &&& p@.balanced()
            &&& p@.within(ctx@.grid_radius as int)
            &&& !cubes(positions@).contains(p@)
        },
{
    let mut direction_provider = provider;
    let ghost chain = cubes(positions@);
    let ghost radius = ctx@.grid_radius as int;
    loop
        invariant
            chain == cubes(positions@),
            radius == ctx@.grid_radius as int,
            first_free(cursor@, direction_provider@.remaining(), chain, radius) == first_free(
                cursor@,
                provider@.remaining(),
                chain,
                radius,
            ),
        decreases direction_provider@.remaining().len(),
    {
        let ghost before = direction_provider@;
        let direction = match direction_provider.next() {
            Some(direction) => direction,
            None => {
                return None;
            },
        };
        // Determine if we can move in the current direction
        let trans = Translation::from(direction);
        let mut trial_pos = *cursor;
        let moved = trial_pos.translate(&trans, ctx).is_ok();
        // Ensure the new position does not double back on the chain
        if moved && !chain_contains(positions, &trial_pos) {
            proof {
                crate::coords::lemma_step_is_adjacent(cursor@, direction);
            }
            return Some(trial_pos);
        }
    }
}

/// One iteration of the walk on the chain `positions`, given the roll out
/// of a hundred that was drawn for it and the provider that was started
/// for it. The chain grows by the first free neighbour of its last cell,
/// unless the roll ends the walk or the last cell is boxed in; then the
/// chain stays as it is.
pub fn walk_step(
    positions: &mut Vec<Position>,
    roll: i32,
    provider: Provider<Side>,
    ctx: &Context,
) -> (grown: bool)
    requires
        old(positions)@.len() > 0,
    ensures
        grown == step_grows(
            cubes(old(positions)@),
            roll as int,
            provider@.remaining(),
            ctx@.grid_radius as int,
        ),
        cubes(final(positions)@) == after_step(
            cubes(old(positions)@),
            roll as int,
            provider@.remaining(),
            ctx@.grid_radius as int,
        ),
        !grown ==> final(positions)@ == old(positions)@,
        grown ==> {
            &&& final(positions)@.len() == old(positions)@.len() + 1
            &&& final(positions)@.last()@.adjacent(old(positions)@.last()@)
            &&& final(positions)@.last()@.balanced()
            &&& final(positions)@.last()@.within(ctx@.grid_radius as int)
            &&& !cubes(old(positions)@).contains(final(positions)@.last()@)
        },
{
    let ghost before = cubes(positions@);
    assert(before.last() == positions@.last()@);
    // Long, snaking obstacles are wanted, so the walk ends on few rolls
    if is_termination_roll(roll) {
        return false;
    }
    let cursor = positions[positions.len() - 1];
    match next_free_cell(&cursor, positions, provider, ctx) {
        Some(next_pos) => {
            positions.push(next_pos);
            assert(cubes(positions@) =~= before.push(next_pos@));
            true
        },
        // Nowhere left to go: the obstacle ends here
        None => false,
    }
}

impl Obstacle {
    /// Every obstacle occupies at least one cell, and its cells form a
    /// chain of neighbours.
    #[verifier::type_invariant]
    pub open spec fn wf(self) -> bool {
        &&& self@.positions.len() > 0
        &&& contiguous(self@.positions)
    }

    /// Builds an obstacle from its cells, first to last, under a fresh
    /// identity.
    ///
    /// Fails with `NoncontiguousObstacle` exactly when some cell does not
    /// share an edge with the cell before it.
    pub fn new(positions: Vec<Position>, element: Element) -> (r: Result<Self, ObstacleError>)
        requires
            positions@.len() > 0,
        ensures
            r is Ok <==> contiguous(cubes(positions@)),
            r matches Ok(o) ==> {
                &&& o@.positions == cubes(positions@)
                &&& o@.element == element
                &&& is_random_uid(o@.uid)
            },
    {
        let mut i: usize = 1;
        while i < positions.len()
            invariant
                1 <= i <= positions.len(),
                forall|k: int| 0 < k < i ==> (#[trigger] cubes(positions@)[k]).adjacent(
                    cubes(positions@)[k - 1],
                ),
            decreases positions.len() - i,
        {
            if !positions[i].is_neighbor(&positions[i - 1]) {
                assert(!cubes(positions@)[i as int].adjacent(cubes(positions@)[i - 1]));
                return Err(ObstacleError::NoncontiguousObstacle);
            }
            i += 1;
        }
        Ok(Obstacle { uid: new_uid(), positions, element })
    }

    pub fn uid(&self) -> (r: &[u8; 16])
        ensures
            *r == self@.uid,
    {
        &self.uid
    }

    /// The cells of the obstacle, first to last.
    pub fn positions(&self) -> (r: &Vec<Position>)
        ensures
            cubes(r@) == self@.positions,
            r@.len() > 0,
            contiguous(cubes(r@)),
    {
        proof {
            use_type_invariant(self);
        }
        &self.positions
    }
}

impl Elemental for Obstacle {
    fn element(&self) -> (e: Element)
        ensures
            e == self@.element,
    {
        self.element
    }
}

impl Plottable for Obstacle {
    /// The first cell of the chain.
    fn origin(&self) -> (p: &Position)
        ensures
            p@ == self@.positions[0],
    {
        proof {
            use_type_invariant(self);
        }
        &self.positions[0]
    }
}

impl Randomizable for Obstacle {
    /// An obstacle can be grown on any grid on which a cell can be drawn.
    open spec fn can_rand(ctx: &Context) -> bool {
        ctx@.can_place()
    }

    /// Grows an obstacle by a random walk on the grid of `ctx`.
    ///
    /// The chain is what the walk makes of a first cell of the grid in at
    /// most as many steps as the context allows, each with a roll out of a
    /// hundred and the sides in the order of a fresh provider. Whatever
    /// the draws, it stays on the grid, moves from neighbour to neighbour
    /// and never returns to a cell. The element is one of `Fire` to `Dark`.
    fn rand(ctx: &Context) -> (o: Self)
        ensures
            exists|rolls: Seq<int>, orders: Seq<Seq<Side>>|
                {
                    &&& rolls.len() == orders.len()
                    &&& rolls.len() <= ctx@.max_obstacle_len
                    &&& o@.positions == #[trigger] walked(
                        seq![o@.positions[0]],
                        rolls,
                        orders,
                        ctx@.grid_radius as int,
                    )
                },
            1 <= o@.positions.len() <= ctx@.max_obstacle_len + 1,
            on_grid(o@.positions, ctx@.grid_radius as int),
            contiguous(o@.positions),
            self_avoiding(o@.positions),
            o@.element != Element::Unset,
            is_random_uid(o@.uid),
    {
        let uid = new_uid();

        // Generate the random origin
        let rand_origin = Position::rand(ctx);
        let mut positions: Vec<Position> = Vec::new();
        positions.push(rand_origin);
        let ghost radius = ctx@.grid_radius as int;
        let ghost start = seq![rand_origin@];
        let ghost rolls = Seq::<int>::empty();
        let ghost orders = Seq::<Seq<Side>>::empty();
        assert(cubes(positions@) =~= start);

        // Up to the limit of the context, make a randomly snaking chain
        let mut i: usize = 0;
        while i < ctx.max_obstacle_len()
            invariant_except_break
                rolls.len() == i,
            invariant
                i <= ctx@.max_obstacle_len,
                radius == ctx@.grid_radius as int,
                start.len() == 1,
                rolls.len() == orders.len(),
                1 <= positions@.len() <= i + 1,
                cubes(positions@)[0] == start[0],
                cubes(positions@) == walked(start, rolls, orders, radius),
                on_grid(cubes(positions@), radius),
                contiguous(cubes(positions@)),
                self_avoiding(cubes(positions@)),
            ensures
                rolls.len() <= ctx@.max_obstacle_len,
            decreases ctx@.max_obstacle_len - i,
        {
            let roll: i32 = random_between(0, 100);
            if is_termination_roll(roll) {
                proof {
                    // Such a step leaves the chain as it is, whatever the
                    // order of the sides
                    assert(rolls.push(roll as int).drop_last() =~= rolls);
                    assert(orders.push(Seq::empty()).drop_last() =~= orders);
                    rolls = rolls.push(roll as int);
                    orders = orders.push(Seq::empty());
                }
                break;
            }
            // A fresh provider for each step, so the walk does not keep
            // turning in the same pattern
            let direction_provider: Provider<Side> = Provider::rand(ctx);
            let ghost before = cubes(positions@);
            let ghost order = direction_provider@.remaining();
            let grown = walk_step(&mut positions, roll, direction_provider, ctx);
            proof {
                assert(rolls.push(roll as int).drop_last() =~= rolls);
                assert(orders.push(order).drop_last() =~= orders);
                rolls = rolls.push(roll as int);
                orders = orders.push(order);
                if grown {
                    lemma_push_keeps_chain(before, positions@.last()@, radius);
                }
            }
            if !grown {
                break;
            }
            i += 1;
        }

        // Finally, pick a random element
        let element = Element::sample();

        Obstacle { uid, positions, element }
    }
}

/// A chain stays a chain of the grid when a free neighbour of its last cell
/// is added to its end.
pub proof fn lemma_push_keeps_chain(chain: Seq<Cube>, next: Cube, radius: int)
    requires
        chain.len() > 0,
        on_grid(chain, radius),
        contiguous(chain),
        self_avoiding(chain),
        next.balanced(),
        next.within(radius),
        next.adjacent(chain.last()),
        !chain.contains(next),
    ensures
        on_grid(chain.push(next), radius),
        contiguous(chain.push(next)),
        self_avoiding(chain.push(next)),
{
    let longer = chain.push(next);
    assert forall|i: int| 0 < i < longer.len() implies (#[trigger] longer[i]).adjacent(
        longer[i - 1],
    ) by {
        if i < chain.len() {
            assert(longer[i] == chain[i]);
            assert(longer[i - 1] == chain[i - 1]);
        }
    }
    assert forall|i: int, j: int| 0 <= i < j < longer.len() implies longer[i] != longer[j] by {
        if j < chain.len() {
            assert(longer[i] == chain[i] && longer[j] == chain[j]);
        } else {
            assert(chain.contains(chain[i]));
        }
    }
}

} // verus!
