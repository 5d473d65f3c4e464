//! Food on the grid: where it lies, and what happens when the snake reaches it.

use rand::rngs::ThreadRng;
use rand::Rng;
use vstd::prelude::*;

use super::math::{grid_nonempty, half, in_grid, Position};

verus! {

/// `rand::rngs::ThreadRng`, the handle to the thread-local generator. Nothing
/// is known of its state.
#[verifier::external_type_specification]
#[verifier::external_body]
pub struct ExThreadRng(ThreadRng);

/// `rand::thread_rng` hands out the handle. Nothing is claimed of it.
pub assume_specification[ rand::thread_rng ]() -> (rng: ThreadRng)
;

/// `Rng::gen_range` on an inclusive range of `i32`. It panics on an empty
/// range, which `requires` leaves out. Which value is drawn is up to the
/// generator; the contract claims only that it lies in the range, both ends
/// included.
#[verifier::external_body]
fn gen_range_inclusive(rng: &mut ThreadRng, low: i32, high: i32) -> (drawn: i32)
    requires
        low <= high,
    ensures
        low <= drawn <= high,
{
    rng.gen_range(low..=high)
}

pub struct Food {
    food_positions: Vec<Position>,
    thread_rng: ThreadRng,
}

impl View for Food {
    type V = Seq<Position>;

    /// The cells that hold food, in the order they were placed.
    closed spec fn view(&self) -> Seq<Position> {
        self.food_positions@
    }
}

impl Food {
    /// One piece of food somewhere on the grid.
    pub fn new(width: i32, height: i32) -> (food: Self)
        requires
            grid_nonempty(width as int, height as int),
        ensures
            food@.len() == 1,
            in_grid(food@[0], width as int, height as int),
    {
        let thread_rng = rand::thread_rng();
        let food_positions = Vec::with_capacity(1);

        let mut food = Self { food_positions, thread_rng };

        food.spawn_food(width, height);

        food
    }

    /// One piece of food on the given cell, whatever the grid.
    pub fn placed_at(spot: Position) -> (food: Self)
        ensures
            food@ == seq![spot],
    {
        let thread_rng = rand::thread_rng();
        let mut food_positions = Vec::with_capacity(1);
        food_positions.push(spot);

        Self { food_positions, thread_rng }
    }

    pub fn positions(&self) -> (cells: &[Position])
        ensures
            cells@ == self@,
    {
        self.food_positions.as_slice()
    }

    /// Whether food lies on `position`.
    pub fn contains(&self, position: &Position) -> (found: bool)
        ensures
            found == self@.contains(*position),
    {
        let mut i: usize = 0;
        while i < self.food_positions.len()
            invariant
                i <= self.food_positions.len(),
                forall|j: int| 0 <= j < i ==> self.food_positions@[j] != *position,
            decreases self.food_positions.len() - i,
        {
            if self.food_positions[i] == *position {
                return true;
            }
            i += 1;
        }
        false
    }

    /// Eats the food on `position`, if there is any. Then all food goes and
    /// one new piece appears somewhere on the grid. Otherwise nothing changes.
    pub fn try_eat_food(&mut self, position: &Position, width: i32, height: i32) -> (eaten: bool)
        requires
            old(self)@.contains(*position) ==> grid_nonempty(width as int, height as int),
        ensures
            eaten == old(self)@.contains(*position),
            !eaten ==> final(self)@ == old(self)@,
            eaten ==> final(self)@.len() == 1 && in_grid(
                final(self)@[0],
                width as int,
                height as int,
            ),
    {
        if self.contains(position) {
            self.food_positions.clear();
            self.spawn_food(width, height);
            true
        } else {
            false
        }
    }

    /// As `try_eat_food`, with the cell of the new piece chosen by the caller.
    pub fn try_eat_food_at(&mut self, position: &Position, spot: Position) -> (eaten: bool)
        ensures
            eaten == old(self)@.contains(*position),
            final(self)@ == Self::after_probe(old(self)@, *position, spot),
    {
        if self.contains(position) {
            self.food_positions.clear();
            self.food_positions.push(spot);
            true
        } else {
            false
        }
    }

    /// The food after the snake's head came to `position`, where `spot` is the
    /// cell that new food would appear on.
    pub open spec fn after_probe(food: Seq<Position>, position: Position, spot: Position) -> Seq<
        Position,
    > {
        if food.contains(position) {
            seq![spot]
        } else {
            food
        }
    }

    fn spawn_food(&mut self, width: i32, height: i32)
        requires
            grid_nonempty(width as int, height as int),
        ensures
            final(self)@.len() == old(self)@.len() + 1,
            final(self)@.drop_last() == old(self)@,
            in_grid(final(self)@.last(), width as int, height as int),
    {
        let reach_x = half(width);
        let reach_y = half(height);
        let x = gen_range_inclusive(&mut self.thread_rng, -reach_x, reach_x);
        let y = gen_range_inclusive(&mut self.thread_rng, -reach_y, reach_y);

        self.food_positions.push(Position::new(x, y));
        assert(self.food_positions@.drop_last() =~= old(self)@);
    }
}

} // verus!
