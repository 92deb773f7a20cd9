//! Read-only configuration that every geometry and generation call receives.
//!
//! A `Context` carries the limits of one game: how far the hexagonal grid
//! reaches from its centre and how much the generators may produce. It is
//! built once, through `ContextBuilder`, and passed by reference afterwards.

use vstd::prelude::*;

verus! {

/// Default hexagonal grid radius, in cells.
pub const DEFAULT_GRID_RADIUS: usize = 10;

/// Default number of attempts before random generation is given up.
pub const DEFAULT_MAX_RAND_ATTEMPTS: usize = 10;

/// Default maximum radius of a resource, in cells.
pub const DEFAULT_MAX_RESOURCE_RADIUS: usize = 4;

/// Default maximum length of an obstacle, in cells.
pub const DEFAULT_MAX_OBSTACLE_LENGTH: usize = 10;

/// What a `Context` holds, as mathematical values.
pub struct ContextView {
    pub grid_radius: nat,
    pub max_obstacle_len: nat,
    pub max_rand_attempts: nat,
    pub max_resource_radius: nat,
}

impl ContextView {
    /// The limits that a freshly built context starts from.
    pub open spec fn defaults() -> ContextView {
        ContextView {
            grid_radius: DEFAULT_GRID_RADIUS as nat,
            max_obstacle_len: DEFAULT_MAX_OBSTACLE_LENGTH as nat,
            max_rand_attempts: DEFAULT_MAX_RAND_ATTEMPTS as nat,
            max_resource_radius: DEFAULT_MAX_RESOURCE_RADIUS as nat,
        }
    }

    /// Random positions can be drawn on this grid: it has at least one ring
    /// of cells round its centre, and its radius fits a signed coordinate.
    pub open spec fn can_place(self) -> bool {
        1 <= self.grid_radius <= i32::MAX
    }

    /// Every random generator of the engine can run under these limits: a
    /// position can be drawn, and a resource of the largest radius still
    /// has a centre that keeps it inside the grid.
    pub open spec fn can_generate(self) -> bool {
        &&& self.can_place()
        &&& 1 <= self.max_resource_radius <= self.grid_radius
    }
}

#[derive(Clone, Copy, Debug)]
pub struct Context {
    grid_radius: usize,
    max_obstacle_len: usize,
    max_rand_attempts: usize,
    max_resource_radius: usize,
}

pub struct ContextBuilder {
    context: Context,
}

impl View for Context {
    type V = ContextView;

    closed spec fn view(&self) -> ContextView {
        ContextView {
            grid_radius: self.grid_radius as nat,
            max_obstacle_len: self.max_obstacle_len as nat,
            max_rand_attempts: self.max_rand_attempts as nat,
            max_resource_radius: self.max_resource_radius as nat,
        }
    }
}

impl View for ContextBuilder {
    type V = ContextView;

    closed spec fn view(&self) -> ContextView {
        self.context@
    }
}

impl Context {
    pub fn grid_radius(&self) -> (r: usize)
        ensures
            r == self@.grid_radius,
    {
        self.grid_radius
    }

    pub fn max_obstacle_len(&self) -> (r: usize)
        ensures
            r == self@.max_obstacle_len,
    {
        self.max_obstacle_len
    }

    pub fn max_rand_attempts(&self) -> (r: usize)
        ensures
            r == self@.max_rand_attempts,
    {
        self.max_rand_attempts
    }

    pub fn max_resource_radius(&self) -> (r: usize)
        ensures
            r == self@.max_resource_radius,
    {
        self.max_resource_radius
    }
}

impl ContextBuilder {
    /// Hands out the context assembled so far; the builder stays usable.
    pub fn build(&self) -> (ctx: Context)
        ensures
            ctx@ == self@,
    {
        self.context
    }

    pub fn grid_radius(&mut self, radius: usize) -> (r: &mut Self)
        ensures
            r@ == (ContextView { grid_radius: radius as nat, ..old(self)@ }),
            *final(self) == *final(r),
    {
        self.context.grid_radius = radius;
        self
    }

    pub fn max_obstacle_len(&mut self, length: usize) -> (r: &mut Self)
        ensures
            r@ == (ContextView { max_obstacle_len: length as nat, ..old(self)@ }),
            *final(self) == *final(r),
    {
        self.context.max_obstacle_len = length;
        self
    }

    pub fn max_rand_attempts(&mut self, attempts: usize) -> (r: &mut Self)
        ensures
            r@ == (ContextView { max_rand_attempts: attempts as nat, ..old(self)@ }),
            *final(self) == *final(r),
    {
        self.context.max_rand_attempts = attempts;
        self
    }

    pub fn max_resource_radius(&mut self, radius: usize) -> (r: &mut Self)
        ensures
            r@ == (ContextView { max_resource_radius: radius as nat, ..old(self)@ }),
            *final(self) == *final(r),
    {
        self.context.max_resource_radius = radius;
        self
    }
}

impl Default for Context {
    fn default() -> (ctx: Self)
        ensures
            ctx@ == ContextView::defaults(),
    {
        Context {
            grid_radius: DEFAULT_GRID_RADIUS,
            max_obstacle_len: DEFAULT_MAX_OBSTACLE_LENGTH,
            max_rand_attempts: DEFAULT_MAX_RAND_ATTEMPTS,
            max_resource_radius: DEFAULT_MAX_RESOURCE_RADIUS,
        }
    }
}

impl Default for ContextBuilder {
    fn default() -> (b: Self)
        ensures
            b@ == ContextView::defaults(),
    {
        ContextBuilder { context: Context::default() }
    }
}

} // verus!
