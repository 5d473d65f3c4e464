//! Game state and the rules that advance it.

use vstd::prelude::*;

use crate::event::{Event, Key, KeyState};
use food::Food;
use math::{grid_nonempty, in_grid, is_in_grid, Position};
use player_snake::{Direction, PlayerSnake, SnakeState};
use timer::{due_at, tick_rate_tenths, LogicTimer};

pub mod food;
pub mod math;
pub mod player_snake;
pub mod timer;

verus! {

/// The head left the grid. The game does not go on from here.
#[derive(Debug, Clone, Copy, PartialEq, Eq, Structural)]
pub enum GameError {
    GameOver,
}

impl GameError {
    pub fn message(&self) -> (text: &'static str)
        ensures
            text@ == "Game Over"@,
    {
        "Game Over"
    }
}

/// The direction that a key turns the snake to. The vertical keys are
/// crossed: the up arrow turns the snake to `Down`, whose step increases `y`,
/// and the down arrow to `Up`.
pub open spec fn key_direction(key: Key) -> Option<Direction> {
    match key {
        Key::ArrowUp => Some(Direction::Down),
        Key::ArrowDown => Some(Direction::Up),
        Key::ArrowLeft => Some(Direction::Left),
        Key::ArrowRight => Some(Direction::Right),
        Key::Other => None,
    }
}

/// The direction that an event turns the snake to: that of the key, for a key
/// press that is not synthetic; none for every other event.
pub open spec fn steering(event: Event) -> Option<Direction> {
    match event {
        Event::KeyboardInput { physical_key, state, is_synthetic } => if !is_synthetic && state
            == KeyState::Pressed {
            key_direction(physical_key)
        } else {
            None
        },
        _ => None,
    }
}

/// The whole game as a mathematical value.
pub struct GameState {
    pub snake: SnakeState,
    pub food: Seq<Position>,
    pub width: int,
    pub height: int,
    /// When the snake last moved, in nanoseconds since the game was made.
    pub last_tick: int,
}

impl GameState {
    /// The snake turned as the event says.
    pub open spec fn steered(self, event: Event) -> GameState {
        match steering(event) {
            Some(direction) => GameState { snake: self.snake.turned(direction), ..self },
            None => self,
        }
    }

    /// The next move brings the head onto food.
    pub open spec fn eats(self) -> bool {
        self.food.contains(self.snake.moved().head)
    }

    /// One tick: the snake moves; if its head then lies on food, it grows, all
    /// food goes and one new piece lies on `spot`.
    pub open spec fn ticked(self, spot: Position) -> GameState {
        GameState {
            snake: if self.eats() {
                self.snake.moved().grown()
            } else {
                self.snake.moved()
            },
            food: Food::after_probe(self.food, self.snake.moved().head, spot),
            ..self
        }
    }

    /// The number of cells that sets the tick rate: the body and the head.
    pub open spec fn effective_length(self) -> int {
        self.snake.body.len() as int + 1
    }

    /// Whether the event makes the snake move, when the clock reads `now`.
    pub open spec fn ticks_at(self, now: int) -> bool {
        due_at(self.last_tick, now, self.effective_length())
    }

    /// The game after one event, delivered when the clock reads `now`: the
    /// snake is steered, then it moves if a tick is due.
    pub open spec fn after_event(self, event: Event, now: int, spot: Position) -> GameState {
        let steered = self.steered(event);
        if steered.ticks_at(now) {
            GameState { last_tick: now, ..steered.ticked(spot) }
        } else {
            steered
        }
    }

    /// The head is off the grid.
    pub open spec fn is_over(self) -> bool {
        !in_grid(self.snake.head, self.width, self.height)
    }
}

pub struct SnakeGameLogic {
    pub player_snake: PlayerSnake,
    pub food: Food,
    width: i32,
    height: i32,
    timer: LogicTimer,
}

impl View for SnakeGameLogic {
    type V = GameState;

    closed spec fn view(&self) -> GameState {
        GameState {
            snake: self.player_snake@,
            food: self.food@,
            width: self.width as int,
            height: self.height as int,
            last_tick: self.timer@,
        }
    }
}

impl SnakeGameLogic {
    /// A new game on a grid of `width` by `height` cells: the snake at the
    /// origin, one piece of food somewhere on the grid.
    pub fn new(width: i32, height: i32) -> (logic: Self)
        requires
            grid_nonempty(width as int, height as int),
        ensures
            logic@.snake == SnakeState::initial(),
            logic@.food.len() == 1,
            in_grid(logic@.food[0], width as int, height as int),
            logic@.width == width,
            logic@.height == height,
            logic@.last_tick == 0,
    {
        let player_snake = PlayerSnake::new();
        let food = Food::new(width, height);
        let timer = LogicTimer::new();

        Self { player_snake, food, width, height, timer }
    }

    /// A new game with its piece of food on `spot`.
    pub fn with_food_at(width: i32, height: i32, spot: Position) -> (logic: Self)
        ensures
            logic@ == (GameState {
                snake: SnakeState::initial(),
                food: seq![spot],
                width: width as int,
                height: height as int,
                last_tick: 0,
            }),
    {
        let player_snake = PlayerSnake::new();
        let food = Food::placed_at(spot);
        let timer = LogicTimer::new();

        Self { player_snake, food, width, height, timer }
    }

    pub fn width(&self) -> (width: i32)
        ensures
            width == self@.width,
    {
        self.width
    }

    pub fn height(&self) -> (height: i32)
        ensures
            height == self@.height,
    {
        self.height
    }

    /// The snake, to read.
    pub fn snake(&self) -> (snake: &PlayerSnake)
        ensures
            snake@ == self@.snake,
    {
        &self.player_snake
    }

    /// The food, to read.
    pub fn food(&self) -> (food: &Food)
        ensures
            food@ == self@.food,
    {
        &self.food
    }

    /// One tick. Where the snake eats, the one new piece of food lies
    /// somewhere on the grid, and the game is the old one ticked with that
    /// cell. Where it does not, only the snake changes: it moves.
    pub fn update(&mut self)
        requires
            old(self)@.snake.can_advance(),
            old(self)@.eats() ==> grid_nonempty(old(self)@.width, old(self)@.height),
        ensures
            old(self)@.eats() ==> {
                &&& final(self)@.food.len() == 1
                &&& in_grid(final(self)@.food[0], old(self)@.width, old(self)@.height)
                &&& final(self)@ == old(self)@.ticked(final(self)@.food[0])
            },
            !old(self)@.eats() ==> final(self)@ == (GameState {
                snake: old(self)@.snake.moved(),
                ..old(self)@
            }),
    {
        self.player_snake.update();
        if self.food.try_eat_food(self.player_snake.head(), self.width, self.height) {
            self.player_snake.grow();
            assert(self.food@ =~= seq![self.food@[0]]);
        }
    }

    /// One tick, with the cell of the new food chosen by the caller.
    pub fn update_at(&mut self, spot: Position)
        requires
            old(self)@.snake.can_advance(),
        ensures
            final(self)@ == old(self)@.ticked(spot),
    {
        self.player_snake.update();
        if self.food.try_eat_food_at(self.player_snake.head(), spot) {
            self.player_snake.grow();
        }
    }

    /// Turns the snake on a key press that is not synthetic.
    pub fn keyboard_event(&mut self, physical_key: Key, state: KeyState, is_synthetic: bool)
        ensures
            final(self)@ == old(self)@.steered(
                Event::KeyboardInput { physical_key, state, is_synthetic },
            ),
    {
        if is_synthetic {
            return ;
        }
        if state == KeyState::Pressed {
            match physical_key {
                Key::ArrowUp => {
                    self.player_snake.set_direction(Direction::Down);
                },
                Key::ArrowDown => {
                    self.player_snake.set_direction(Direction::Up);
                },
                Key::ArrowLeft => {
                    self.player_snake.set_direction(Direction::Left);
                },
                Key::ArrowRight => {
                    self.player_snake.set_direction(Direction::Right);
                },
                Key::Other => {},
            }
        }
    }

    /// The number of cells that sets the tick rate. Beyond the cap of the
    /// rate the count no longer matters, so it may stop short of overflow.
    fn effective_length(&self) -> (cells: usize)
        ensures
            tick_rate_tenths(cells as int) == tick_rate_tenths(self@.effective_length()),
    {
        let segments = self.player_snake.body().len();
        if segments < usize::MAX {
            segments + 1
        } else {
            segments
        }
    }

    /// Whether the head is off the grid.
    pub fn is_over(&self) -> (over: bool)
        ensures
            over == self@.is_over(),
    {
        !is_in_grid(self.player_snake.head(), self.width, self.height)
    }

    /// Handles one event: steers, moves the snake if a tick is due now, and
    /// reports whether the head is still on the grid. The clock and the cell
    /// of new food are not in the caller's hand: the game is the old one after
    /// the event for some reading of the clock and some cell of the grid.
    pub fn window_event(&mut self, event: &Event) -> (outcome: Result<(), GameError>)
        requires
            old(self)@.steered(*event).snake.can_advance(),
            grid_nonempty(old(self)@.width, old(self)@.height),
        ensures
            exists|now: int, spot: Position|
                in_grid(spot, old(self)@.width, old(self)@.height) && final(self)@ == #[trigger] old(
                    self,
                )@.after_event(*event, now, spot),
            final(self)@.width == old(self)@.width,
            final(self)@.height == old(self)@.height,
            final(self)@.last_tick >= old(self)@.last_tick,
            outcome is Err <==> final(self)@.is_over(),
    {
        if let Event::KeyboardInput { physical_key, state, is_synthetic } = event {
            self.keyboard_event(*physical_key, *state, *is_synthetic);
        }
        let ghost steered = self@;
        let ghost origin = Position { x: 0, y: 0 };

        let cells = self.effective_length();
        if self.timer.should_update(cells) {
            self.update();
            proof {
                let now = self@.last_tick;
                let spot = if steered.eats() {
                    self@.food[0]
                } else {
                    origin
                };
                assert(steered.ticks_at(now));
                assert(self@ == old(self)@.after_event(*event, now, spot));
            }
        } else {
            proof {
                let now = self@.last_tick;
                assert(!steered.ticks_at(now));
                assert(self@ == old(self)@.after_event(*event, now, origin));
            }
        }

        if self.is_over() {
            return Err(GameError::GameOver);
        }
        Ok(())
    }

    /// Handles one event delivered when the clock reads `now_nanos`, with the
    /// cell of new food chosen by the caller.
    pub fn window_event_at(&mut self, event: &Event, now_nanos: u128, spot: Position) -> (outcome:
        Result<(), GameError>)
        requires
            old(self)@.steered(*event).ticks_at(now_nanos as int) ==> old(self)@.steered(
                *event,
            ).snake.can_advance(),
        ensures
            final(self)@ == old(self)@.after_event(*event, now_nanos as int, spot),
            outcome is Err <==> final(self)@.is_over(),
    {
        if let Event::KeyboardInput { physical_key, state, is_synthetic } = event {
            self.keyboard_event(*physical_key, *state, *is_synthetic);
        }
        let cells = self.effective_length();
        if self.timer.should_update_at(now_nanos, cells) {
            self.update_at(spot);
        }

        if self.is_over() {
            return Err(GameError::GameOver);
        }
        Ok(())
    }
}

/// While the head is on the grid the snake can take a step in any direction:
/// the grid never reaches the ends of the coordinate type. So a game that is
/// not over can always take the next event.
pub proof fn lemma_running_game_can_advance(logic: SnakeGameLogic, event: Event)
    requires
        !logic@.is_over(),
    ensures
        logic@.steered(event).snake.can_advance(),
{
}

/// An event leaves the game running whenever the head is on the grid and
/// the cell ahead of it, after steering, is too: whatever the clock reads and
/// wherever new food appears.
pub proof fn lemma_event_keeps_running(game: GameState, event: Event, now: int, spot: Position)
    requires
        !game.is_over(),
        game.steered(event).snake.can_advance(),
        in_grid(game.steered(event).snake.moved().head, game.width, game.height),
    ensures
        !game.after_event(event, now, spot).is_over(),
{
}

/// An event ends the game exactly when a tick is due and the cell ahead of
/// the head, after steering, is off the grid; given that the game was running.
pub proof fn lemma_event_ends_game(game: GameState, event: Event, now: int, spot: Position)
    requires
        !game.is_over(),
    ensures
        game.after_event(event, now, spot).is_over() <==> game.steered(event).ticks_at(now)
            && !in_grid(game.steered(event).snake.moved().head, game.width, game.height),
{
}

/// An event changes neither the grid nor, unless a tick is due, anything but
/// the snake's direction.
pub proof fn lemma_event_without_tick(game: GameState, event: Event, now: int, spot: Position)
    requires
        !game.steered(event).ticks_at(now),
    ensures
        game.after_event(event, now, spot) == game.steered(event),
        game.after_event(event, now, spot).snake.head == game.snake.head,
        game.after_event(event, now, spot).snake.body == game.snake.body,
        game.after_event(event, now, spot).food == game.food,
{
}

/// A tick keeps the number of segments unless the snake eats, and then adds
/// exactly one; after eating exactly one piece of food lies on the grid.
pub proof fn lemma_tick_length(game: GameState, spot: Position)
    ensures
        game.ticked(spot).snake.body.len() == game.snake.body.len() + if game.eats() {
            1int
        } else {
            0int
        },
        game.eats() ==> game.ticked(spot).food == seq![spot],
        !game.eats() ==> game.ticked(spot).food == game.food,
        game.ticked(spot).width == game.width,
        game.ticked(spot).height == game.height,
{
}

} // verus!
