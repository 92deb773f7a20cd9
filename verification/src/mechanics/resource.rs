//! Resources: places on the grid from which an actor can draw a boost to the
//! potency of its abilities. A resource has an element, a radius within
//! which it can be drawn on, and a state that says how much of it is left.

use vstd::prelude::*;

use crate::context::Context;
use crate::coords::{Cube, Position};
use crate::element::{Element, Elemental};
use crate::entropy::{is_random_uid, new_uid, random_between, random_u8};
use crate::{Plottable, Randomizable};

verus! {

/// Largest value of `State`.
pub const MAX_VAL_STATE: u8 = 5;

/// How much of a resource is left.
#[derive(Debug, Copy, Clone, PartialEq, Eq, Hash, Structural)]
pub enum State {
    Depleted,
    Low,
    Partial,
    High,
    Full,
    Overflow,
}

/// What a `Resource` holds.
pub struct ResourceView {
    pub uid: [u8; 16],
    pub element: Element,
    pub state: State,
    pub origin: Cube,
    pub radius: usize,
}

#[derive(Debug)]
pub struct Resource {
    uid: [u8; 16],
    element: Element,
    state: State,
    origin: Position,
    radius: usize,
}

impl View for Resource {
    type V = ResourceView;

    closed spec fn view(&self) -> ResourceView {
        ResourceView {
            uid: self.uid,
            element: self.element,
            state: self.state,
            origin: self.origin@,
            radius: self.radius,
        }
    }
}

impl State {
    /// Numeric value of the state: `Depleted` is 0, `Overflow` is 5.
    pub open spec fn ordinal(self) -> int {
        match self {
            State::Depleted => 0,
            State::Low => 1,
            State::Partial => 2,
            State::High => 3,
            State::Full => 4,
            State::Overflow => 5,
        }
    }

    /// The state with the given numeric value; `Overflow` for every value
    /// beyond the others.
    pub open spec fn at(ordinal: int) -> State {
        if ordinal <= 0 {
            State::Depleted
        } else if ordinal == 1 {
            State::Low
        } else if ordinal == 2 {
            State::Partial
        } else if ordinal == 3 {
            State::High
        } else if ordinal == 4 {
            State::Full
        } else {
            State::Overflow
        }
    }

    /// The state one tick below; `Depleted` stays.
    pub open spec fn drawn_down(self) -> State {
        State::at(self.ordinal() - 1)
    }

    /// Every state is named by its numeric value.
    pub proof fn lemma_ordinal(self)
        ensures
            0 <= self.ordinal() <= MAX_VAL_STATE,
            State::at(self.ordinal()) == self,
    {
    }

    /// Numeric value of the state.
    pub fn index(self) -> (i: u8)
        ensures
            i == self.ordinal(),
            i <= MAX_VAL_STATE,
    {
        match self {
            State::Depleted => 0,
            State::Low => 1,
            State::Partial => 2,
            State::High => 3,
            State::Full => 4,
            State::Overflow => 5,
        }
    }

    /// The state with the given numeric value.
    pub fn from_index(val: u8) -> (s: State)
        requires
            val <= MAX_VAL_STATE,
        ensures
            s == State::at(val as int),
            s.ordinal() == val,
    {
        match val {
            0 => State::Depleted,
            1 => State::Low,
            2 => State::Partial,
            3 => State::High,
            4 => State::Full,
            _ => State::Overflow,
        }
    }

    /// The state that a raw random number selects: its remainder by the
    /// largest value picks one of `Low` to `Overflow`, never `Depleted`.
    pub fn from_roll(roll: u8) -> (s: State)
        ensures
            s == State::at(roll % MAX_VAL_STATE + 1),
            s != State::Depleted,
    {
        State::from_index(roll % MAX_VAL_STATE + 1)
    }

    /// Draws one of the states `Low` to `Overflow` at random.
    pub fn sample() -> (s: State)
        ensures
            s != State::Depleted,
    {
        State::from_roll(random_u8())
    }
}

impl Default for State {
    fn default() -> (s: Self)
        ensures
            s == State::Depleted,
    {
        State::Depleted
    }
}

impl Resource {
    /// Fully-qualified constructor. The identity is fresh.
    pub fn new(element: Element, state: State, origin: Position, radius: usize) -> (r: Self)
        ensures
            r@.element == element,
            r@.state == state,
            r@.origin == origin@,
            r@.radius == radius,
            is_random_uid(r@.uid),
    {
        Resource { uid: new_uid(), element, state, origin, radius }
    }

    pub fn uid(&self) -> (r: &[u8; 16])
        ensures
            *r == self@.uid,
    {
        &self.uid
    }

    pub fn state(&self) -> (s: State)
        ensures
            s == self@.state,
    {
        self.state
    }

    pub fn radius(&self) -> (r: usize)
        ensures
            r == self@.radius,
    {
        self.radius
    }

    /// Makes use of the resource: draws it down by one tick.
    ///
    /// Returns the boost to potency, which is the numeric value of the
    /// state before the call, or nothing if the resource was depleted.
    pub fn consume(&mut self) -> (boost: Option<u8>)
        ensures
            final(self)@ == (ResourceView { state: old(self)@.state.drawn_down(), ..old(self)@ }),
            boost == if old(self)@.state == State::Depleted {
                None
            } else {
                Some(old(self)@.state.ordinal() as u8)
            },
    {
        let initial_state = self.state;

        // draw down the resource one tick
        match initial_state {
            State::Depleted => {},
            State::Low => self.state = State::Depleted,
            State::Partial => self.state = State::Low,
            State::High => self.state = State::Partial,
            State::Full => self.state = State::High,
            State::Overflow => self.state = State::Full,
        }

        // the boost goes by the initial state
        match initial_state {
            State::Depleted => None,
            _ => Some(initial_state.index()),
        }
    }

    /// Replenishes the resource by the given number of ticks. What goes
    /// beyond `Full` is `Overflow`.
    pub fn replenish(&mut self, mag: u8)
        ensures
            final(self)@ == (ResourceView {
                state: State::at(old(self)@.state.ordinal() + mag),
                ..old(self)@
            }),
    {
        let state_val: u16 = self.state.index() as u16 + mag as u16;
        self.state = if state_val >= MAX_VAL_STATE as u16 {
            State::Overflow
        } else {
            State::from_index(state_val as u8)
        };
    }

    /// Widens the radius of the resource.
    pub fn intensify(&mut self, mag: usize)
        requires
            old(self)@.radius + mag <= usize::MAX,
        ensures
            final(self)@ == (ResourceView { radius: (old(self)@.radius + mag) as usize, ..old(self)@ }),
    {
        self.radius += mag;
    }

    /// Narrows the radius of the resource.
    pub fn weaken(&mut self, mag: usize)
        requires
            mag <= old(self)@.radius,
        ensures
            final(self)@ == (ResourceView { radius: (old(self)@.radius - mag) as usize, ..old(self)@ }),
    {
        self.radius -= mag;
    }
}

impl Default for Resource {
    /// A depleted resource without element or reach, at the centre of the
    /// grid, under a fresh identity.
    fn default() -> (r: Self)
        ensures
            r@.element == Element::Unset,
            r@.state == State::Depleted,
            r@.origin == Cube::origin(),
            r@.radius == 0,
            is_random_uid(r@.uid),
    {
        Resource {
            uid: new_uid(),
            element: Element::default(),
            state: State::default(),
            origin: Position::default(),
            radius: 0,
        }
    }
}

impl Elemental for Resource {
    fn element(&self) -> (e: Element)
        ensures
            e == self@.element,
    {
        self.element
    }
}

impl Plottable for Resource {
    /// The centre of the resource.
    fn origin(&self) -> (p: &Position)
        ensures
            p@ == self@.origin,
    {
        &self.origin
    }
}

impl Randomizable for Resource {
    /// A resource can be generated where a cell can be drawn and the
    /// largest resource still fits the grid.
    open spec fn can_rand(ctx: &Context) -> bool {
        ctx@.can_generate()
    }

    /// A resource that is set to an element, is not depleted, has a radius
    /// below the largest that the context allows, and lies at a cell from
    /// which it does not spill over the edge of the grid.
    fn rand(ctx: &Context) -> (r: Self)
        ensures
            is_random_uid(r@.uid),
            r@.element != Element::Unset,
            r@.state != State::Depleted,
            r@.radius < ctx@.max_resource_radius,
            r@.origin.balanced(),
            r@.origin.within(ctx@.grid_radius - r@.radius),
    {
        let uid = new_uid();

        // Generate random properties
        let element = Element::sample();
        let state = State::sample();
        let radius: usize = random_between(0, ctx.max_resource_radius() as i32) as usize;

        // Generate a random centre that keeps the resource inside the grid
        let origin = match Position::rand_constrained(ctx, radius) {
            Ok(origin) => origin,
            Err(_) => vstd::pervasive::unreached(),
        };

        Resource { uid, element, state, origin, radius }
    }
}

} // verus!
