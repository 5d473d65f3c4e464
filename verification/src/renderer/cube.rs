//! The cubes: one per segment of the snake, one for its head, one per piece
//! of food.

use vstd::prelude::*;

use super::{instance_upload, pixels, uniform_upload, Fraction, Upload, BLOCK_SIZE};
use crate::event::WindowSize;
use crate::logic::math::Position;
use crate::logic::{GameState, SnakeGameLogic};

verus! {

/// The share of the window that one block covers, along each axis.
#[derive(Debug, Clone, Copy, PartialEq, Eq, Structural)]
pub struct CubeBuffer {
    pub block_size_percentage_x: Fraction,
    pub block_size_percentage_y: Fraction,
}

impl CubeBuffer {
    pub open spec fn sized(window: WindowSize) -> CubeBuffer {
        CubeBuffer {
            block_size_percentage_x: Fraction {
                numerator: BLOCK_SIZE as i64,
                denominator: window.width,
            },
            block_size_percentage_y: Fraction {
                numerator: BLOCK_SIZE as i64,
                denominator: window.height,
            },
        }
    }

    pub fn from(window: &WindowSize) -> (buffer: Self)
        ensures
            buffer == Self::sized(*window),
    {
        Self {
            block_size_percentage_x: Fraction {
                numerator: BLOCK_SIZE as i64,
                denominator: window.width,
            },
            block_size_percentage_y: Fraction {
                numerator: BLOCK_SIZE as i64,
                denominator: window.height,
            },
        }
    }
}

/// A colour by its channels, each either off (0) or fully on (1).
#[derive(Debug, Clone, Copy, PartialEq, Eq, Structural)]
pub struct Color {
    pub r: u8,
    pub g: u8,
    pub b: u8,
    pub a: u8,
}

impl Color {
    pub open spec fn spec_green() -> Color {
        Color { r: 0, g: 1, b: 0, a: 1 }
    }

    pub open spec fn spec_blue() -> Color {
        Color { r: 0, g: 0, b: 1, a: 1 }
    }

    pub open spec fn spec_red() -> Color {
        Color { r: 1, g: 0, b: 0, a: 1 }
    }

    /// The colour of the snake's body.
    #[verifier::when_used_as_spec(spec_green)]
    pub fn green() -> (color: Color)
        ensures
            color == Self::spec_green(),
    {
        Color { r: 0, g: 1, b: 0, a: 1 }
    }

    /// The colour of the snake's head.
    #[verifier::when_used_as_spec(spec_blue)]
    pub fn blue() -> (color: Color)
        ensures
            color == Self::spec_blue(),
    {
        Color { r: 0, g: 0, b: 1, a: 1 }
    }

    /// The colour of food.
    #[verifier::when_used_as_spec(spec_red)]
    pub fn red() -> (color: Color)
        ensures
            color == Self::spec_red(),
    {
        Color { r: 1, g: 0, b: 0, a: 1 }
    }
}

/// One cube: where its cell lies, as a share of the window measured from the
/// window's centre, and its colour.
#[derive(Debug, Clone, Copy, PartialEq, Eq, Structural)]
pub struct CubeInstanceBuffer {
    pub position_x: Fraction,
    pub position_y: Fraction,
    pub color: Color,
}

impl CubeInstanceBuffer {
    /// The cube of a cell: two blocks per cell over the window's size, since
    /// the window spans two units from edge to edge.
    pub open spec fn cube(cell: Position, window: WindowSize, color: Color) -> CubeInstanceBuffer {
        CubeInstanceBuffer {
            position_x: Fraction {
                numerator: (2 * cell.x * BLOCK_SIZE) as i64,
                denominator: window.width,
            },
            position_y: Fraction {
                numerator: (2 * cell.y * BLOCK_SIZE) as i64,
                denominator: window.height,
            },
            color,
        }
    }

    /// The cubes of a game, in drawing order: the body's segments from the
    /// newest on, in green; the head, in blue; the pieces of food, in red.
    pub open spec fn cubes(game: GameState, window: WindowSize) -> Seq<CubeInstanceBuffer> {
        Seq::new(
            game.snake.body.len() + 1 + game.food.len(),
            |i: int|
                if i < game.snake.body.len() {
                    Self::cube(game.snake.body[i], window, Color::green())
                } else if i == game.snake.body.len() {
                    Self::cube(game.snake.head, window, Color::blue())
                } else {
                    Self::cube(game.food[i - game.snake.body.len() - 1], window, Color::red())
                },
        )
    }

    fn at(cell: &Position, window: &WindowSize, color: Color) -> (cube: Self)
        ensures
            cube == Self::cube(*cell, *window, color),
    {
        let x: i64 = pixels(2 * (cell.x() as i64));
        let y: i64 = pixels(2 * (cell.y() as i64));
        assert(2 * cell.x * BLOCK_SIZE == (2 * cell.x) * BLOCK_SIZE) by (nonlinear_arith);
        assert(2 * cell.y * BLOCK_SIZE == (2 * cell.y) * BLOCK_SIZE) by (nonlinear_arith);
        Self {
            position_x: Fraction { numerator: x, denominator: window.width },
            position_y: Fraction { numerator: y, denominator: window.height },
            color,
        }
    }

    pub fn from(logic: &SnakeGameLogic, window: &WindowSize) -> (instances: Vec<Self>)
        ensures
            instances@ == Self::cubes(logic@, *window),
    {
        let mut instances: Vec<Self> = Vec::new();
        let ghost wanted = Self::cubes(logic@, *window);

        // add snake
        let body = logic.snake().body();
        let mut i: usize = 0;
        while i < body.len()
            invariant
                i <= body.len(),
                body@ == logic@.snake.body,
                wanted == Self::cubes(logic@, *window),
                instances@ == wanted.subrange(0, i as int),
            decreases body.len() - i,
        {
            instances.push(Self::at(&body[i], window, Color::green()));
            assert(instances@ =~= wanted.subrange(0, i + 1));
            i += 1;
        }

        // add snake head
        let head = logic.snake().head();
        instances.push(Self::at(head, window, Color::blue()));
        assert(instances@ =~= wanted.subrange(0, body.len() + 1));

        // add foods
        let foods = logic.food().positions();
        let mut j: usize = 0;
        while j < foods.len()
            invariant
                j <= foods.len(),
                foods@ == logic@.food,
                body@ == logic@.snake.body,
                wanted == Self::cubes(logic@, *window),
                instances@ == wanted.subrange(0, body.len() + 1 + j),
            decreases foods.len() - j,
        {
            instances.push(Self::at(&foods[j], window, Color::red()));
            assert(instances@ =~= wanted.subrange(0, body.len() + 1 + j + 1));
            j += 1;
        }

        assert(instances@ =~= wanted);
        instances
    }
}

/// Whether two lists hold the same cubes in the same order.
pub fn same_cubes(left: &Vec<CubeInstanceBuffer>, right: &Vec<CubeInstanceBuffer>) -> (same: bool)
    ensures
        same == (left@ == right@),
{
    if left.len() != right.len() {
        return false;
    }
    let mut i: usize = 0;
    while i < left.len()
        invariant
            i <= left.len(),
            left.len() == right.len(),
            forall|k: int| 0 <= k < i ==> left@[k] == right@[k],
        decreases left.len() - i,
    {
        if left[i] != right[i] {
            return false;
        }
        i += 1;
    }
    assert(left@ =~= right@);
    true
}

/// What the cube buffers hold.
pub struct CubeCache {
    pub cube: CubeBuffer,
    pub instances: Seq<CubeInstanceBuffer>,
}

impl CubeCache {
    /// What the buffers are to hold for a game in a window.
    pub open spec fn wanted(game: GameState, window: WindowSize) -> CubeCache {
        CubeCache {
            cube: CubeBuffer::sized(window),
            instances: CubeInstanceBuffer::cubes(game, window),
        }
    }
}

/// What a frame has to upload for the cubes.
#[derive(Debug, Clone, Copy, PartialEq, Eq, Structural)]
pub struct CubeUpload {
    /// For the buffer of the block's size.
    pub cube: Upload,
    /// For the buffer of one record per cube.
    pub instances: Upload,
}

/// Keeps what the cubes' two buffers hold.
pub struct CubeRenderer {
    cube: CubeBuffer,
    cube_instances: Vec<CubeInstanceBuffer>,
}

impl View for CubeRenderer {
    type V = CubeCache;

    /// What was uploaded last.
    closed spec fn view(&self) -> CubeCache {
        CubeCache { cube: self.cube, instances: self.cube_instances@ }
    }
}

impl CubeRenderer {
    pub fn new(logic: &SnakeGameLogic, window: &WindowSize) -> (renderer: Self)
        ensures
            renderer@ == CubeCache::wanted(logic@, *window),
    {
        let cube = CubeBuffer::from(window);
        let cube_instances = CubeInstanceBuffer::from(logic, window);

        Self { cube, cube_instances }
    }

    /// The block's size as uploaded last.
    pub fn cube(&self) -> (cube: &CubeBuffer)
        ensures
            *cube == self@.cube,
    {
        &self.cube
    }

    /// The cubes as uploaded last.
    pub fn cube_instances(&self) -> (instances: &Vec<CubeInstanceBuffer>)
        ensures
            instances@ == self@.instances,
    {
        &self.cube_instances
    }

    /// Prepares a frame: says what has to happen to each buffer, and
    /// remembers the new contents. The buffer of the cubes is made anew only
    /// where their number changed.
    pub fn draw(&mut self, logic: &SnakeGameLogic, window: &WindowSize) -> (upload: CubeUpload)
        ensures
            final(self)@ == CubeCache::wanted(logic@, *window),
            upload.cube == uniform_upload(old(self)@.cube, final(self)@.cube),
            upload.instances == instance_upload(old(self)@.instances, final(self)@.instances),
    {
        let cube = CubeBuffer::from(window);
        let cube_upload = if self.cube != cube {
            self.cube = cube;
            Upload::Write
        } else {
            Upload::Keep
        };

        let cube_instances = CubeInstanceBuffer::from(logic, window);
        let instances_upload = if !same_cubes(&self.cube_instances, &cube_instances) {
            let recreate = self.cube_instances.len() != cube_instances.len();
            self.cube_instances = cube_instances;
            if recreate {
                Upload::Recreate
            } else {
                Upload::Write
            }
        } else {
            Upload::Keep
        };

        CubeUpload { cube: cube_upload, instances: instances_upload }
    }
}

/// A game shows one cube per segment, one for the head and one per piece of
/// food. So a frame makes the buffer anew exactly when that sum changed since
/// the last upload.
pub proof fn lemma_cube_count(game: GameState, window: WindowSize)
    ensures
        CubeInstanceBuffer::cubes(game, window).len() == game.snake.body.len() + 1
            + game.food.len(),
{
}

/// Between two frames with as many cubes, whatever else changed, the buffer
/// of the cubes is not made anew.
pub proof fn lemma_same_count_never_recreates(
    before: GameState,
    after: GameState,
    window_before: WindowSize,
    window_after: WindowSize,
)
    requires
        before.snake.body.len() + before.food.len() == after.snake.body.len() + after.food.len(),
    ensures
        instance_upload(
            CubeInstanceBuffer::cubes(before, window_before),
            CubeInstanceBuffer::cubes(after, window_after),
        ) != Upload::Recreate,
{
}

} // verus!
