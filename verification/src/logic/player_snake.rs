//! The snake: a head, the cells behind it, and the direction it moves in.

use std::collections::VecDeque;
use vstd::prelude::*;

use super::math::Position;

verus! {

#[derive(Debug, Clone, Copy, PartialEq, Eq, Structural)]
pub enum Direction {
    Up,
    Down,
    Left,
    Right,
}

impl Direction {
    /// The unit step of this direction. `Up` decreases `y`.
    pub open spec fn delta(self) -> Position {
        match self {
            Direction::Up => Position { x: 0, y: -1i32 },
            Direction::Down => Position { x: 0, y: 1 },
            Direction::Left => Position { x: -1i32, y: 0 },
            Direction::Right => Position { x: 1, y: 0 },
        }
    }

    pub fn convert_to_position(&self) -> (step: Position)
        ensures
            step == self.delta(),
    {
        match self {
            Direction::Up => Position::new(0, -1),
            Direction::Down => Position::new(0, 1),
            Direction::Left => Position::new(-1, 0),
            Direction::Right => Position::new(1, 0),
        }
    }
}

/// What a snake is, as a mathematical value. `body[0]` is the cell the head
/// left most recently; the last element is the oldest segment.
pub struct SnakeState {
    pub head: Position,
    pub body: Seq<Position>,
    pub direction: Direction,
}

impl SnakeState {
    /// A snake of one cell at the origin, heading right.
    pub open spec fn initial() -> SnakeState {
        SnakeState { head: Position { x: 0, y: 0 }, body: Seq::empty(), direction: Direction::Right }
    }

    /// The cell one step ahead of the head, as unbounded integers.
    pub open spec fn ahead(self) -> (int, int) {
        (self.head.x + self.direction.delta().x, self.head.y + self.direction.delta().y)
    }

    /// The step ahead stays within the coordinate type.
    pub open spec fn can_advance(self) -> bool {
        &&& i32::MIN <= self.ahead().0 <= i32::MAX
        &&& i32::MIN <= self.ahead().1 <= i32::MAX
    }

    /// One plain move: the head steps ahead and every segment takes the place
    /// of the one in front of it, the first taking the head's.
    pub open spec fn moved(self) -> SnakeState {
        SnakeState {
            head: Position { x: self.ahead().0 as i32, y: self.ahead().1 as i32 },
            body: Seq::new(
                self.body.len(),
                |i: int|
                    if i == 0 {
                        self.head
                    } else {
                        self.body[i - 1]
                    },
            ),
            direction: self.direction,
        }
    }

    /// One more segment at the tail, on the head's cell.
    pub open spec fn grown(self) -> SnakeState {
        SnakeState { body: self.body.push(self.head), ..self }
    }

    pub open spec fn turned(self, direction: Direction) -> SnakeState {
        SnakeState { direction, ..self }
    }
}

pub struct PlayerSnake {
    head: Position,
    body: VecDeque<Position>,
    direction: Direction,
}

impl View for PlayerSnake {
    type V = SnakeState;

    closed spec fn view(&self) -> SnakeState {
        SnakeState { head: self.head, body: self.body@, direction: self.direction }
    }
}

impl Default for PlayerSnake {
    fn default() -> (snake: Self)
        ensures
            snake@ == SnakeState::initial(),
    {
        Self::new()
    }
}

impl PlayerSnake {
    pub fn new() -> (snake: Self)
        ensures
            snake@ == SnakeState::initial(),
    {
        let head = Position::new(0, 0);
        let body = VecDeque::new();

        Self { head, body, direction: Direction::Right }
    }

    /// Whether `update` may be called: the step ahead fits the coordinates.
    pub fn can_advance(&self) -> (ok: bool)
        ensures
            ok == self@.can_advance(),
    {
        let step = self.direction.convert_to_position();
        let x_fits = if step.x() > 0 {
            self.head.x() < i32::MAX
        } else if step.x() < 0 {
            self.head.x() > i32::MIN
        } else {
            true
        };
        let y_fits = if step.y() > 0 {
            self.head.y() < i32::MAX
        } else if step.y() < 0 {
            self.head.y() > i32::MIN
        } else {
            true
        };
        x_fits && y_fits
    }

    pub fn update(&mut self)
        requires
            old(self)@.can_advance(),
        ensures
            final(self)@ == old(self)@.moved(),
    {
        let new_head = Position::new(
            self.head.x() + self.direction.convert_to_position().x(),
            self.head.y() + self.direction.convert_to_position().y(),
        );

        self.body.push_front(self.head);
        self.head = new_head;
        self.body.pop_back();
        assert(self.body@ =~= old(self)@.moved().body);
    }

    pub fn grow(&mut self)
        ensures
            final(self)@ == old(self)@.grown(),
            final(self)@.body.len() == old(self)@.body.len() + 1,
            final(self)@.head == old(self)@.head,
    {
        self.body.push_back(self.head);
    }

    pub fn set_direction(&mut self, direction: Direction)
        ensures
            final(self)@ == old(self)@.turned(direction),
    {
        self.direction = direction;
    }

    pub fn direction(&self) -> (direction: Direction)
        ensures
            direction == self@.direction,
    {
        self.direction
    }

    pub fn head(&self) -> (head: &Position)
        ensures
            *head == self@.head,
    {
        &self.head
    }

    pub fn body(&self) -> (body: &VecDeque<Position>)
        ensures
            body@ == self@.body,
    {
        &self.body
    }
}

/// Turning to any direction and then moving puts the head exactly one step of
/// that direction further, keeps the number of segments, puts the old head
/// first in the body and shifts every other segment back by one.
pub proof fn lemma_turn_then_move(snake: SnakeState, direction: Direction)
    requires
        snake.turned(direction).can_advance(),
    ensures
        snake.turned(direction).moved().head.x == snake.head.x + direction.delta().x,
        snake.turned(direction).moved().head.y == snake.head.y + direction.delta().y,
        snake.turned(direction).moved().body.len() == snake.body.len(),
        snake.body.len() > 0 ==> snake.turned(direction).moved().body[0] == snake.head,
        forall|i: int|
            1 <= i < snake.body.len() ==> #[trigger] snake.turned(direction).moved().body[i]
                == snake.body[i - 1],
        snake.turned(direction).moved().direction == direction,
{
}

/// A move is the old head put in front of the body and the oldest segment
/// dropped from its end.
pub proof fn lemma_move_is_push_front_pop_back(snake: SnakeState)
    ensures
        snake.moved().body =~= (seq![snake.head] + snake.body).drop_last(),
{
}

/// Growing adds exactly one segment, on the head's cell, and leaves the head
/// and every earlier segment where they were.
pub proof fn lemma_grow_adds_one(snake: SnakeState)
    ensures
        snake.grown().body.len() == snake.body.len() + 1,
        snake.grown().head == snake.head,
        snake.grown().body.last() == snake.head,
        snake.grown().body.drop_last() =~= snake.body,
        snake.grown().direction == snake.direction,
{
}

} // verus!
