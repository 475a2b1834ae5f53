use flappy::color::Palette;
use flappy::frame::{
    after_render, canvas_size, needs_resize, run_game_frame, run_world_frame, FrameAction,
    SurfaceOutcome,
};
use flappy::game;
use flappy::timer::FrameTimer;
use flappy::world;

#[test]
fn surface_outcomes_decide_how_the_loop_goes_on() {
    assert_eq!(after_render(SurfaceOutcome::Presented), FrameAction::Continue);
    assert_eq!(after_render(SurfaceOutcome::Lost), FrameAction::Reconfigure);
    assert_eq!(after_render(SurfaceOutcome::Outdated), FrameAction::Reconfigure);
    assert_eq!(after_render(SurfaceOutcome::Timeout), FrameAction::Skip);
    assert_eq!(after_render(SurfaceOutcome::OutOfMemory), FrameAction::Halt);
}

#[test]
fn canvas_is_at_least_one_by_one() {
    assert_eq!(canvas_size(800, 600), (800, 600));
    assert_eq!(canvas_size(0, 600), (1, 600));
    assert_eq!(canvas_size(800, 0), (800, 1));
    assert_eq!(canvas_size(-5, -7), (1, 1));
    assert_eq!(canvas_size(1, 1), (1, 1));
    assert_eq!(canvas_size(i32::MAX, i32::MIN), (i32::MAX as u32, 1));
}

#[test]
fn surface_is_configured_anew_for_another_size() {
    assert!(!needs_resize((800, 600), (800, 600)));
    assert!(needs_resize((801, 600), (800, 600)));
    assert!(needs_resize((800, 601), (800, 600)));
    assert!(!needs_resize((0, 600), (800, 600)));
    assert!(!needs_resize((800, 0), (800, 600)));
    assert!(!needs_resize((0, 0), (0, 0)));
}

#[test]
fn world_frame_makes_the_steps_that_are_due() {
    let mut game = world::Game::with_seed(1);
    let mut twin = world::Game::with_seed(1);
    let mut timer = FrameTimer::new();
    let mut pending = false;
    let steps = run_world_frame(&mut game, &mut timer, &mut pending, false, Some(2_500));
    assert_eq!(steps, 2);
    assert_eq!(timer.accumulator, 500);
    assert_eq!(timer.fps_frames, 1);
    assert!(!pending);
    twin.step(false);
    twin.step(false);
    assert_eq!(game.bird_y(), twin.bird_y());
    assert_eq!(game.pipes(), twin.pipes());
    let steps = run_world_frame(&mut game, &mut timer, &mut pending, true, Some(400));
    assert_eq!(steps, 0);
    assert!(pending);
    assert_eq!(timer.accumulator, 900);
    assert_eq!(game.bird_y(), twin.bird_y());
    let steps = run_world_frame(&mut game, &mut timer, &mut pending, false, Some(2_100));
    assert_eq!(steps, 3);
    assert!(!pending);
    assert_eq!(timer.accumulator, 0);
    twin.step(true);
    twin.step(false);
    twin.step(false);
    assert_eq!(game.bird_y(), twin.bird_y());
    assert_eq!(game.bird_v(), twin.bird_v());
    assert_eq!(game.bird_v(), -9_600 + 3 * 225);
}

#[test]
fn world_frame_catches_up_by_five_steps_at_most() {
    let mut game = world::Game::with_seed(2);
    let mut timer = FrameTimer::new();
    let mut pending = false;
    let steps = run_world_frame(&mut game, &mut timer, &mut pending, true, Some(1_000_000));
    assert_eq!(steps, 5);
    assert_eq!(timer.accumulator, 0);
    assert!(!pending);
    assert_eq!(game.bird_v(), -9_600 + 5 * 225);
    assert_eq!(timer.fps, 120_000_000 / 1_000_000);
}

#[test]
fn game_frame_makes_the_steps_that_are_due() {
    let mut game = game::Game::with_seed(Palette::default(), 3);
    let mut twin = game::Game::with_seed(Palette::default(), 3);
    let mut timer = FrameTimer::new();
    let mut pending = false;
    let steps = run_game_frame(&mut game, &mut timer, &mut pending, true, Some(0));
    assert_eq!(steps, 0);
    assert!(pending);
    assert_eq!(game.state(), game::GameState::Ready);
    let steps = run_game_frame(&mut game, &mut timer, &mut pending, false, Some(3_999));
    assert_eq!(steps, 3);
    assert!(!pending);
    assert_eq!(timer.accumulator, 999);
    twin.step(true);
    twin.step(false);
    twin.step(false);
    assert_eq!(game.state(), game::GameState::Running);
    assert_eq!(game.bird_y(), twin.bird_y());
    assert_eq!(game.bird_vel(), twin.bird_vel());
    assert_eq!(game.pipes(), twin.pipes());
    let steps = run_game_frame(&mut game, &mut timer, &mut pending, false, Some(5_000_000));
    assert_eq!(steps, 30);
    assert_eq!(timer.accumulator, 999);
}

#[test]
fn frame_of_unknown_time_leaves_the_clock_untouched() {
    let mut game = world::Game::with_seed(4);
    let mut timer = FrameTimer::new();
    let mut pending = false;
    run_world_frame(&mut game, &mut timer, &mut pending, false, Some(1_400));
    let clock = timer;
    let y = game.bird_y();
    let steps = run_world_frame(&mut game, &mut timer, &mut pending, true, None);
    assert_eq!(steps, 0);
    assert_eq!(timer, clock);
    assert_eq!(timer.fps_frames, 1);
    assert!(pending);
    assert_eq!(game.bird_y(), y);
    let steps = run_world_frame(&mut game, &mut timer, &mut pending, false, Some(600));
    assert_eq!(steps, 1);
    assert!(!pending);
    assert_eq!(game.bird_v(), -9_375);

    let mut screen = game::Game::with_seed(Palette::default(), 4);
    let mut timer = FrameTimer::new();
    let mut pending = false;
    let steps = run_game_frame(&mut screen, &mut timer, &mut pending, true, None);
    assert_eq!(steps, 0);
    assert_eq!(timer, FrameTimer::new());
    assert!(pending);
    assert_eq!(screen.state(), game::GameState::Ready);
}
