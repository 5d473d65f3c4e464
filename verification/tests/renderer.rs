use wgpu_snake_game::event::{Event, Key, KeyState, WindowSize};
use wgpu_snake_game::logic::math::Position;
use wgpu_snake_game::logic::SnakeGameLogic;
use wgpu_snake_game::renderer::background::{BackgroundBuffer, BackgroundRenderer};
use wgpu_snake_game::renderer::cube::{
    same_cubes, Color, CubeBuffer, CubeInstanceBuffer, CubeRenderer, CubeUpload,
};
use wgpu_snake_game::renderer::{pixels, window_event, Fraction, RenderAction, Upload, BLOCK_SIZE};

const GREEN: Color = Color { r: 0, g: 1, b: 0, a: 1 };
const BLUE: Color = Color { r: 0, g: 0, b: 1, a: 1 };
const RED: Color = Color { r: 1, g: 0, b: 0, a: 1 };

fn window() -> WindowSize {
    WindowSize::new(800, 600)
}

fn cube(x: i64, y: i64, color: Color) -> CubeInstanceBuffer {
    CubeInstanceBuffer {
        position_x: Fraction { numerator: x, denominator: 800 },
        position_y: Fraction { numerator: y, denominator: 600 },
        color,
    }
}

#[test]
fn colours_of_body_head_and_food() {
    assert_eq!(Color::green(), GREEN);
    assert_eq!(Color::blue(), BLUE);
    assert_eq!(Color::red(), RED);
}

#[test]
fn block_is_twenty_pixels() {
    assert_eq!(BLOCK_SIZE, 20);
    assert_eq!(pixels(0), 0);
    assert_eq!(pixels(31), 620);
    assert_eq!(pixels(-3), -60);
    assert_eq!(pixels(4_294_967_296), 85_899_345_920);
}

#[test]
fn background_covers_one_block_more_than_the_grid() {
    let logic = SnakeGameLogic::with_food_at(30, 20, Position::new(0, 0));
    let background = BackgroundBuffer::from(&logic, &window());
    assert_eq!(background.width_percentage, Fraction { numerator: 620, denominator: 800 });
    assert_eq!(background.height_percentage, Fraction { numerator: 420, denominator: 600 });
}

#[test]
fn background_is_written_only_when_it_changes() {
    let logic = SnakeGameLogic::with_food_at(30, 20, Position::new(0, 0));
    let mut renderer = BackgroundRenderer::new(&logic, &window());
    assert_eq!(*renderer.background(), BackgroundBuffer::from(&logic, &window()));
    assert_eq!(renderer.draw(&logic, &window()), Upload::Keep);
    assert_eq!(renderer.draw(&logic, &window()), Upload::Keep);

    let wider = WindowSize::new(1024, 600);
    assert_eq!(renderer.draw(&logic, &wider), Upload::Write);
    assert_eq!(*renderer.background(), BackgroundBuffer::from(&logic, &wider));
    assert_eq!(renderer.draw(&logic, &wider), Upload::Keep);

    let taller = WindowSize::new(1024, 768);
    assert_eq!(renderer.draw(&logic, &taller), Upload::Write);
    assert_eq!(renderer.draw(&logic, &window()), Upload::Write);
    assert_eq!(*renderer.background(), BackgroundBuffer::from(&logic, &window()));
}

#[test]
fn background_does_not_depend_on_the_snake() {
    let mut logic = SnakeGameLogic::with_food_at(30, 20, Position::new(1, 0));
    let mut renderer = BackgroundRenderer::new(&logic, &window());
    logic.update_at(Position::new(5, 5));
    assert_eq!(renderer.draw(&logic, &window()), Upload::Keep);
}

#[test]
fn cube_is_one_block_of_the_window() {
    let buffer = CubeBuffer::from(&window());
    assert_eq!(buffer.block_size_percentage_x, Fraction { numerator: 20, denominator: 800 });
    assert_eq!(buffer.block_size_percentage_y, Fraction { numerator: 20, denominator: 600 });
}

#[test]
fn instances_are_body_then_head_then_food() {
    let mut logic = SnakeGameLogic::with_food_at(30, 20, Position::new(1, 0));
    assert_eq!(
        CubeInstanceBuffer::from(&logic, &window()),
        vec![cube(0, 0, BLUE), cube(40, 0, RED)]
    );

    logic.update_at(Position::new(2, 0));
    logic.update_at(Position::new(-3, 4));
    // head (2, 0), body [(1, 0), (2, 0)], food (-3, 4)
    assert_eq!(
        CubeInstanceBuffer::from(&logic, &window()),
        vec![
            cube(40, 0, GREEN),
            cube(80, 0, GREEN),
            cube(80, 0, BLUE),
            cube(-120, 160, RED),
        ]
    );

    logic.keyboard_event(Key::ArrowDown, KeyState::Pressed, false);
    logic.update_at(Position::new(0, 0));
    // head (2, -1), body [(2, 0), (1, 0)]
    assert_eq!(
        CubeInstanceBuffer::from(&logic, &window()),
        vec![
            cube(80, 0, GREEN),
            cube(40, 0, GREEN),
            cube(80, -40, BLUE),
            cube(-120, 160, RED),
        ]
    );
}

#[test]
fn instances_take_the_window_as_denominator() {
    let logic = SnakeGameLogic::with_food_at(30, 20, Position::new(-15, 10));
    let instances = CubeInstanceBuffer::from(&logic, &WindowSize::new(1, 0));
    assert_eq!(instances.len(), 2);
    assert_eq!(instances[1].position_x, Fraction { numerator: -600, denominator: 1 });
    assert_eq!(instances[1].position_y, Fraction { numerator: 400, denominator: 0 });
    assert_eq!(instances[1].color, RED);
}

#[test]
fn same_cubes_compares_in_order() {
    let a = vec![cube(0, 0, BLUE), cube(40, 0, RED)];
    let b = vec![cube(0, 0, BLUE), cube(40, 0, RED)];
    let swapped = vec![cube(40, 0, RED), cube(0, 0, BLUE)];
    let shorter = vec![cube(0, 0, BLUE)];
    let recoloured = vec![cube(0, 0, BLUE), cube(40, 0, GREEN)];
    assert!(same_cubes(&a, &b));
    assert!(!same_cubes(&a, &swapped));
    assert!(!same_cubes(&a, &shorter));
    assert!(!same_cubes(&shorter, &a));
    assert!(!same_cubes(&a, &recoloured));
    assert!(same_cubes(&Vec::new(), &Vec::new()));
}

#[test]
fn unchanged_frame_uploads_nothing() {
    let logic = SnakeGameLogic::with_food_at(30, 20, Position::new(5, 5));
    let mut renderer = CubeRenderer::new(&logic, &window());
    assert_eq!(*renderer.cube(), CubeBuffer::from(&window()));
    assert_eq!(renderer.cube_instances(), &CubeInstanceBuffer::from(&logic, &window()));
    assert_eq!(
        renderer.draw(&logic, &window()),
        CubeUpload { cube: Upload::Keep, instances: Upload::Keep }
    );
}

#[test]
fn same_count_rewrites_in_place() {
    let mut logic = SnakeGameLogic::with_food_at(30, 20, Position::new(5, 5));
    let mut renderer = CubeRenderer::new(&logic, &window());
    let count = renderer.cube_instances().len();

    logic.update_at(Position::new(0, 0));
    assert_eq!(
        renderer.draw(&logic, &window()),
        CubeUpload { cube: Upload::Keep, instances: Upload::Write }
    );
    assert_eq!(renderer.cube_instances().len(), count);
    assert_eq!(renderer.cube_instances(), &CubeInstanceBuffer::from(&logic, &window()));
    assert_eq!(
        renderer.draw(&logic, &window()),
        CubeUpload { cube: Upload::Keep, instances: Upload::Keep }
    );
}

#[test]
fn changed_count_makes_the_buffer_anew() {
    let mut logic = SnakeGameLogic::with_food_at(30, 20, Position::new(1, 0));
    let mut renderer = CubeRenderer::new(&logic, &window());
    assert_eq!(renderer.cube_instances().len(), 2);

    logic.update_at(Position::new(5, 5));
    assert_eq!(
        renderer.draw(&logic, &window()),
        CubeUpload { cube: Upload::Keep, instances: Upload::Recreate }
    );
    assert_eq!(renderer.cube_instances().len(), 3);
    assert_eq!(renderer.cube_instances(), &CubeInstanceBuffer::from(&logic, &window()));

    logic.update_at(Position::new(5, 5));
    assert_eq!(
        renderer.draw(&logic, &window()),
        CubeUpload { cube: Upload::Keep, instances: Upload::Write }
    );
    assert_eq!(renderer.cube_instances().len(), 3);
}

#[test]
fn resized_window_rewrites_both_cube_buffers_in_place() {
    let logic = SnakeGameLogic::with_food_at(30, 20, Position::new(5, 5));
    let mut renderer = CubeRenderer::new(&logic, &window());
    let wider = WindowSize::new(1024, 600);
    assert_eq!(
        renderer.draw(&logic, &wider),
        CubeUpload { cube: Upload::Write, instances: Upload::Write }
    );
    assert_eq!(*renderer.cube(), CubeBuffer::from(&wider));
    assert_eq!(
        renderer.draw(&logic, &wider),
        CubeUpload { cube: Upload::Keep, instances: Upload::Keep }
    );
}

#[test]
fn renderer_reacts_to_resize_and_redraw_of_its_own_window() {
    let size = WindowSize::new(640, 480);
    assert_eq!(window_event(true, &Event::Resized(size)), RenderAction::Resize(size));
    assert_eq!(window_event(true, &Event::RedrawRequested), RenderAction::Redraw);
    assert_eq!(window_event(true, &Event::CloseRequested), RenderAction::Ignore);
    assert_eq!(window_event(true, &Event::Other), RenderAction::Ignore);
    assert_eq!(
        window_event(
            true,
            &Event::KeyboardInput {
                physical_key: Key::ArrowUp,
                state: KeyState::Pressed,
                is_synthetic: false,
            }
        ),
        RenderAction::Ignore
    );
}

#[test]
fn renderer_ignores_events_of_other_windows() {
    let size = WindowSize::new(640, 480);
    assert_eq!(window_event(false, &Event::Resized(size)), RenderAction::Ignore);
    assert_eq!(window_event(false, &Event::RedrawRequested), RenderAction::Ignore);
    assert_eq!(window_event(false, &Event::Other), RenderAction::Ignore);
}
