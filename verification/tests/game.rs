use flappy::bob;
use flappy::color::{srgb, Color};
use flappy::game::{
    bird_collides, Game, GameState, InstanceData, Palette, Pipe, Rect, BIRD_HALF_HEIGHT, BIRD_HEIGHT, BIRD_WIDTH,
    FLAP_VELOCITY, GAP_MARGIN, GAP_SLACK, GRAVITY, GROUND_EDGE_HEIGHT, PIPE_MAX_GAP, PIPE_MIN_GAP,
    PIPE_WIDTH, SCROLL_PER_STEP,
};
use flappy::random::SeedError;
use flappy::units::{pixels, Vec2, STEPS_PER_SECOND, UNITS_PER_PIXEL};
use rand::rngs::SmallRng;
use rand::SeedableRng;

const PX: i64 = 3600;

fn ground_top_of(game: &Game) -> i64 {
    let instances = game.instances();
    instances[instances.len() - 4].pos.y
}

fn spacing_of(game: &Game) -> i64 {
    let raw = 1620 * game.width() as i64;
    raw.clamp(260 * PX, 420 * PX)
}

fn collides(game: &Game) -> bool {
    let rect = game.bird_rect();
    rect.min.y + rect.size.y > ground_top_of(game)
        || game.pipes().iter().any(|pipe| pipe.hits(&rect))
        || game.bird_y() < BIRD_HALF_HEIGHT
}

fn autopilot(game: &Game) -> bool {
    match game.state() {
        GameState::Ready => true,
        GameState::Dead => false,
        GameState::Running => {
            let rect = game.bird_rect();
            let ahead = game.pipes().iter().find(|pipe| pipe.x + PIPE_WIDTH >= rect.min.x);
            let target = match ahead {
                Some(pipe) => pipe.gap_center,
                None => game.bird_y(),
            };
            game.bird_y() > target + 60 * PX
        }
    }
}

fn snapshot(game: &Game) -> (GameState, i64, i64, i64, Vec<Pipe>, u32, u32) {
    (
        game.state(),
        game.bird_y(),
        game.bird_vel(),
        game.bob_phase(),
        game.pipes().clone(),
        game.score(),
        game.best_score(),
    )
}

#[test]
fn units_are_as_documented() {
    assert_eq!(UNITS_PER_PIXEL, 3600);
    assert_eq!(STEPS_PER_SECOND, 120);
    assert_eq!(pixels(0), 0);
    assert_eq!(pixels(1), 3600);
    assert_eq!(pixels(1280), 4_608_000);
    assert_eq!(pixels(u32::MAX), 15_461_882_262_000);
    assert_eq!(GRAVITY * 120, 2200 * 30);
    assert_eq!(FLAP_VELOCITY, -750 * 30);
    assert_eq!(SCROLL_PER_STEP * 120, 300 * PX);
    assert_eq!(PIPE_WIDTH, 140 * PX);
    assert_eq!(PIPE_MIN_GAP, 220 * PX);
    assert_eq!(PIPE_MAX_GAP, 320 * PX);
    assert_eq!(BIRD_WIDTH, 64 * PX);
    assert_eq!(BIRD_HEIGHT, 48 * PX);
    assert_eq!(GAP_MARGIN, 40 * PX);
    assert_eq!(GAP_SLACK, 10 * PX);
    assert_eq!(GROUND_EDGE_HEIGHT, 6 * PX);
}

#[test]
fn default_palette_has_the_seven_colors() {
    let palette = Palette::default();
    assert_eq!(palette.background, Color { r: 0x87, g: 0xce, b: 0xeb, a: 255 });
    assert_eq!(palette.pipe, Color { r: 0x2e, g: 0xc4, b: 0x41, a: 255 });
    assert_eq!(palette.pipe_dark, Color { r: 0x1c, g: 0x8a, b: 0x2b, a: 255 });
    assert_eq!(palette.ground, Color { r: 0x4b, g: 0x26, b: 0x0b, a: 255 });
    assert_eq!(palette.ground_edge, Color { r: 0x75, g: 0x40, b: 0x19, a: 255 });
    assert_eq!(palette.bird_body, Color { r: 0xe6, g: 0x22, b: 0x2f, a: 255 });
    assert_eq!(palette.bird_beak, Color { r: 0xff, g: 0xd0, b: 0x2a, a: 255 });
    assert_eq!(srgb(1, 2, 3), Color { r: 1, g: 2, b: 3, a: 255 });
}

#[test]
fn new_game_waits_for_the_first_flap() {
    let game = Game::with_seed(Palette::default(), 1);
    assert_eq!(game.state(), GameState::Ready);
    assert_eq!(game.score(), 0);
    assert_eq!(game.best_score(), 0);
    assert_eq!(game.width(), 1280);
    assert_eq!(game.height(), 720);
    assert_eq!(game.bird_y(), 324 * PX);
    assert_eq!(game.bird_vel(), 0);
    assert_eq!(game.bob_phase(), 0);
    assert_eq!(game.status_text(), "Tap or press Space to start");
    let pipes = game.pipes();
    assert_eq!(pipes.len(), 4);
    for (i, pipe) in pipes.iter().enumerate() {
        assert_eq!(pipe.x, (1280 + 120) * PX + i as i64 * 420 * PX);
        assert!(!pipe.scored);
    }
}

#[test]
fn game_seeded_by_the_system_starts_like_any_other() {
    let game = Game::new(Palette::default()).unwrap();
    assert_eq!(game.state(), GameState::Ready);
    assert_eq!(game.pipes().len(), 4);
    assert_eq!(game.pipes()[0].x, 1400 * PX);
    assert_eq!(game.bird_y(), 324 * PX);
}

#[test]
fn status_text_follows_the_state() {
    let mut game = Game::with_seed(Palette::default(), 2);
    assert_eq!(game.status_text(), "Tap or press Space to start");
    game.step(true);
    assert_eq!(game.state(), GameState::Running);
    assert_eq!(game.status_text(), "");
    while game.state() == GameState::Running {
        game.step(false);
    }
    assert_eq!(game.state(), GameState::Dead);
    assert_eq!(game.status_text(), "Game over \u{2013} tap to retry");
}

#[test]
fn ready_bird_bobs_and_nothing_else_moves() {
    let mut game = Game::with_seed(Palette::default(), 3);
    let pipes = game.pipes().clone();
    game.step(false);
    assert_eq!(game.state(), GameState::Ready);
    assert_eq!(game.bob_phase(), 791);
    assert_eq!(game.bird_y(), 324 * PX + 1280);
    game.step(false);
    assert_eq!(game.bob_phase(), 1582);
    assert_eq!(game.bird_y(), 324 * PX + 2556);
    assert_eq!(game.bird_vel(), 0);
    assert_eq!(game.pipes(), &pipes);
    for _ in 0..1000 {
        game.step(false);
        let offset = game.bird_y() - 324 * PX;
        assert!((-bob::AMPLITUDE..=bob::AMPLITUDE).contains(&offset));
        assert_eq!(offset, bob::offset_at(game.bob_phase()));
    }
    assert_eq!(game.state(), GameState::Ready);
    assert_eq!(game.pipes(), &pipes);
}

#[test]
fn first_flap_starts_the_run_without_moving_the_pipes() {
    let mut game = Game::with_seed(Palette::default(), 4);
    let pipes = game.pipes().clone();
    game.step(true);
    assert_eq!(game.state(), GameState::Running);
    assert_eq!(game.bird_vel(), FLAP_VELOCITY);
    assert_eq!(game.bird_y(), 324 * PX + 1280);
    assert_eq!(game.pipes(), &pipes);
}

#[test]
fn running_step_integrates_gravity_then_velocity() {
    let mut game = Game::with_seed(Palette::default(), 5);
    game.step(true);
    let y0 = game.bird_y();
    game.step(false);
    assert_eq!(game.bird_vel(), -22_500 + 550);
    assert_eq!(game.bird_y(), y0 - 21_950);
    assert_eq!(game.pipes()[0].x, 1400 * PX - 9_000);
    game.step(false);
    assert_eq!(game.bird_vel(), -21_400);
    assert_eq!(game.bird_y(), y0 - 21_950 - 21_400);
    game.step(true);
    assert_eq!(game.bird_vel(), -21_950);
    assert_eq!(game.bird_y(), y0 - 21_950 - 21_400 - 21_950);
    assert_eq!(game.pipes()[0].x, 1400 * PX - 27_000);
}

#[test]
fn same_seed_and_same_flaps_give_the_same_run() {
    let mut one = Game::with_seed(Palette::default(), 99);
    let mut two = Game::with_seed(Palette::default(), 99);
    for step in 0..6000 {
        let flap = if step % 1500 == 1499 { true } else { autopilot(&one) };
        one.step(flap);
        two.step(flap);
        assert_eq!(snapshot(&one), snapshot(&two));
        assert_eq!(one.instances(), two.instances());
    }
}

#[test]
fn different_seeds_give_different_gaps() {
    let one = Game::with_seed(Palette::default(), 1);
    let two = Game::with_seed(Palette::default(), 2);
    assert_ne!(one.pipes(), two.pipes());
}

#[test]
fn gaps_vary_within_their_limits() {
    let mut game = Game::with_seed(Palette::default(), 7);
    let mut heights = Vec::new();
    let mut centers = Vec::new();
    for _ in 0..50 {
        game.reset();
        for pipe in game.pipes() {
            assert!((PIPE_MIN_GAP..=PIPE_MAX_GAP).contains(&pipe.gap_height));
            assert_eq!(pipe.gap_height % 2, 0);
            heights.push(pipe.gap_height);
            centers.push(pipe.gap_center);
        }
    }
    heights.sort();
    centers.sort();
    assert!(heights[0] < heights[heights.len() - 1]);
    assert!(centers[0] < centers[centers.len() - 1]);
    assert!(heights[0] < PIPE_MIN_GAP + 20 * PX);
    assert!(heights[heights.len() - 1] > PIPE_MAX_GAP - 20 * PX);
}

#[test]
fn score_rises_by_one_per_pipe_and_flags_stay_set() {
    let mut game = Game::with_seed(Palette::default(), 11);
    let bird_x = game.bird_rect().min.x + BIRD_WIDTH / 2;
    assert_eq!(bird_x, 1008 * 1280);
    let mut best_seen = 0;
    for _ in 0..20_000 {
        let before = snapshot(&game);
        let flap = autopilot(&game);
        game.step(flap);
        let reset = before.0 == GameState::Dead && flap;
        if !reset {
            assert!(game.score() >= before.5);
            assert!(game.score() <= before.5 + 1);
        }
        if before.0 == GameState::Running {
            let old_pipes = &before.4;
            let dropped = old_pipes[0].x - SCROLL_PER_STEP + PIPE_WIDTH < -720 * 1280;
            let from = if dropped { 1 } else { 0 };
            let mut turned = 0;
            for (i, old) in old_pipes.iter().enumerate().skip(from) {
                let new = game.pipes()[i - from];
                assert_eq!(new.x, old.x - SCROLL_PER_STEP);
                assert_eq!(new.gap_center, old.gap_center);
                assert_eq!(new.gap_height, old.gap_height);
                if old.scored {
                    assert!(new.scored);
                } else if new.scored {
                    turned += 1;
                }
            }
            assert_eq!(game.score(), before.5 + turned);
        } else if !reset {
            assert_eq!(game.pipes(), &before.4);
            assert_eq!(game.score(), before.5);
        }
        for pipe in game.pipes() {
            assert_eq!(pipe.scored, pipe.x + PIPE_WIDTH < bird_x);
        }
        best_seen = best_seen.max(game.score());
        if game.state() == GameState::Dead {
            break;
        }
    }
    assert!(best_seen >= 3, "the autopilot passed only {} pipes", best_seen);
}

#[test]
fn bird_stays_between_top_and_ground_while_running_and_rests_when_dead() {
    for seed in 0..8u64 {
        let mut game = Game::with_seed(Palette::default(), seed);
        let ground_top = ground_top_of(&game);
        assert_eq!(ground_top, 720 * PX - 466_560);
        for step in 0..4000 {
            let before = game.state();
            let flap = match before {
                GameState::Ready => true,
                GameState::Running => step % (20 + seed as usize * 7) == 0,
                GameState::Dead => false,
            };
            game.step(flap);
            if before == GameState::Running {
                assert_eq!(game.state() == GameState::Dead, collides(&game));
            }
            if game.state() == GameState::Running && before == GameState::Running {
                assert!(game.bird_y() >= BIRD_HALF_HEIGHT);
                assert!(game.bird_y() + BIRD_HALF_HEIGHT <= ground_top);
            }
            if before == GameState::Dead {
                assert_eq!(game.state(), GameState::Dead);
                assert!(game.bird_y() + BIRD_HALF_HEIGHT <= ground_top);
            }
        }
        assert_eq!(game.state(), GameState::Dead);
        assert_eq!(game.bird_y(), ground_top - BIRD_HALF_HEIGHT);
        assert_eq!(game.bird_vel(), 0);
    }
}

#[test]
fn bird_that_rises_above_the_top_dies() {
    let mut game = Game::with_seed(Palette::default(), 21);
    game.step(true);
    let mut steps = 0;
    while game.state() == GameState::Running {
        game.step(true);
        steps += 1;
        assert!(steps < 200);
    }
    assert_eq!(game.state(), GameState::Dead);
    assert!(game.bird_y() < BIRD_HALF_HEIGHT);
    assert!(game.bird_y() >= BIRD_HALF_HEIGHT - 21_950);
}

#[test]
fn dead_bird_falls_to_the_ground_and_stays() {
    let mut game = Game::with_seed(Palette::default(), 22);
    game.step(true);
    while game.state() == GameState::Running {
        game.step(true);
    }
    let ground_top = ground_top_of(&game);
    let mut vel = game.bird_vel();
    let mut y = game.bird_y();
    loop {
        game.step(false);
        vel += GRAVITY;
        y += vel;
        if y + BIRD_HALF_HEIGHT > ground_top {
            break;
        }
        assert_eq!(game.bird_vel(), vel);
        assert_eq!(game.bird_y(), y);
    }
    assert_eq!(game.bird_y(), ground_top - BIRD_HALF_HEIGHT);
    assert_eq!(game.bird_vel(), 0);
    game.step(false);
    assert_eq!(game.bird_y(), ground_top - BIRD_HALF_HEIGHT);
    assert_eq!(game.bird_vel(), 0);
}

#[test]
fn queue_always_reaches_one_spacing_past_the_right_edge() {
    for (width, height) in [(1280u32, 720u32), (320, 480), (1, 1), (4000, 2000)] {
        let mut game = Game::with_seed(Palette::default(), 31);
        game.resize(width, height);
        let spacing = spacing_of(&game);
        for step in 0..3000 {
            let flap = match game.state() {
                GameState::Running => autopilot(&game),
                _ => step % 50 == 0,
            };
            game.step(flap);
            let pipes = game.pipes();
            let last = pipes[pipes.len() - 1];
            assert!(last.x >= width as i64 * PX + spacing);
            assert!(last.x >= width as i64 * PX + spacing - SCROLL_PER_STEP);
            assert!(pipes[0].x + PIPE_WIDTH >= -720 * width as i64);
            for pair in pipes.windows(2) {
                assert_eq!(pair[1].x, pair[0].x + spacing);
            }
        }
    }
}

#[test]
fn gaps_keep_their_margins() {
    for (width, height) in [(1280u32, 720u32), (800, 500), (1920, 1200), (3000, 5000)] {
        let mut game = Game::with_seed(Palette::default(), 41);
        game.resize(width, height);
        let ground_top = ground_top_of(&game);
        for _ in 0..200 {
            game.reset();
            for pipe in game.pipes() {
                let top = pipe.gap_center - pipe.gap_height / 2;
                let bottom = pipe.gap_center + pipe.gap_height / 2;
                assert!(top >= GAP_MARGIN);
                assert!(bottom <= ground_top - GAP_MARGIN);
            }
        }
    }
}

#[test]
fn gaps_on_the_smallest_screen_keep_the_upper_margin() {
    let mut game = Game::with_seed(Palette::default(), 42);
    game.resize(1, 1);
    assert_eq!(ground_top_of(&game), PX - 80 * PX);
    for _ in 0..200 {
        game.reset();
        for pipe in game.pipes() {
            let half = pipe.gap_height / 2;
            assert!(pipe.gap_center - half >= GAP_MARGIN);
            assert!(pipe.gap_center >= half + GAP_MARGIN);
            assert!(pipe.gap_center <= half + GAP_MARGIN + GAP_SLACK);
        }
    }
}

#[test]
fn reset_restores_the_start_and_keeps_the_best_score() {
    let mut game = Game::with_seed(Palette::default(), 11);
    for _ in 0..20_000 {
        let flap = autopilot(&game);
        game.step(flap);
        if game.state() == GameState::Dead {
            break;
        }
    }
    let score = game.score();
    assert!(score >= 1);
    game.reset();
    assert_eq!(game.state(), GameState::Ready);
    assert_eq!(game.score(), 0);
    assert_eq!(game.best_score(), score);
    assert_eq!(game.bird_y(), 324 * PX);
    assert_eq!(game.bird_vel(), 0);
    assert_eq!(game.bob_phase(), 0);
    assert_eq!(game.pipes().len(), 4);
    for (i, pipe) in game.pipes().iter().enumerate() {
        assert_eq!(pipe.x, 1400 * PX + i as i64 * 420 * PX);
        assert!(!pipe.scored);
    }
    game.reset();
    assert_eq!(game.best_score(), score);
    game.step(true);
    game.step(false);
    game.reset();
    assert_eq!(game.best_score(), score);
    assert_eq!(game.score(), 0);
}

#[test]
fn flap_on_a_dead_bird_resets_to_ready() {
    let mut game = Game::with_seed(Palette::default(), 51);
    game.step(true);
    while game.state() != GameState::Dead {
        game.step(false);
    }
    let pipes = game.pipes().clone();
    game.step(true);
    assert_eq!(game.state(), GameState::Ready);
    assert_eq!(game.bird_y(), 324 * PX);
    assert_eq!(game.bird_vel(), 0);
    assert_eq!(game.score(), 0);
    assert_eq!(game.pipes().len(), 4);
    assert_eq!(game.pipes()[0].x, 1400 * PX);
    assert_ne!(game.pipes(), &pipes);
}

#[test]
fn resize_recomputes_ground_and_spacing_and_resets() {
    let mut game = Game::with_seed(Palette::default(), 61);
    for _ in 0..20_000 {
        let flap = autopilot(&game);
        game.step(flap);
        if game.state() == GameState::Dead {
            break;
        }
    }
    let score = game.score();
    assert!(score >= 1);
    game.resize(400, 300);
    assert_eq!(game.width(), 400);
    assert_eq!(game.height(), 300);
    assert_eq!(game.state(), GameState::Ready);
    assert_eq!(game.score(), 0);
    assert_eq!(game.best_score(), score);
    assert_eq!(game.bird_y(), 135 * PX);
    assert_eq!(game.bird_rect().min.x, 112 * PX - 32 * PX);
    assert_eq!(ground_top_of(&game), 300 * PX - 80 * PX);
    let pipes = game.pipes();
    assert_eq!(pipes.len(), 4);
    assert_eq!(pipes[0].x, 520 * PX);
    assert_eq!(pipes[1].x, 520 * PX + 260 * PX);
    assert_eq!(pipes[3].x, 520 * PX + 3 * 260 * PX);
    game.resize(0, 0);
    assert_eq!(game.width(), 1);
    assert_eq!(game.height(), 1);
    assert_eq!(game.best_score(), score);
    game.resize(2000, 2000);
    assert_eq!(ground_top_of(&game), 2000 * PX - 200 * PX);
    assert_eq!(game.pipes()[1].x - game.pipes()[0].x, 420 * PX);
    game.resize(800, 1000);
    assert_eq!(ground_top_of(&game), 1000 * PX - 180 * PX);
    assert_eq!(game.pipes()[1].x - game.pipes()[0].x, 360 * PX);
}

#[test]
fn box_inside_the_gap_passes_and_one_unit_lower_collides() {
    let pipe = Pipe { x: 1000, gap_center: 500_000, gap_height: 200_000, scored: false };
    let inside = Rect { min: Vec2 { x: 900, y: 500_000 }, size: Vec2 { x: 200, y: 100_000 } };
    assert!(!pipe.hits(&inside));
    let lower = Rect { min: Vec2 { x: 900, y: 500_001 }, size: Vec2 { x: 200, y: 100_000 } };
    assert!(pipe.hits(&lower));
    let upper_edge = Rect { min: Vec2 { x: 900, y: 400_000 }, size: Vec2 { x: 200, y: 100_000 } };
    assert!(!pipe.hits(&upper_edge));
    let higher = Rect { min: Vec2 { x: 900, y: 399_999 }, size: Vec2 { x: 200, y: 100_000 } };
    assert!(pipe.hits(&higher));
    let left_of = Rect { min: Vec2 { x: 0, y: 0 }, size: Vec2 { x: 999, y: 100_000 } };
    assert!(!pipe.hits(&left_of));
    let touching_left = Rect { min: Vec2 { x: 0, y: 0 }, size: Vec2 { x: 1000, y: 100_000 } };
    assert!(pipe.hits(&touching_left));
    let right_of = Rect {
        min: Vec2 { x: 1001 + PIPE_WIDTH, y: 0 },
        size: Vec2 { x: 10, y: 100_000 },
    };
    assert!(!pipe.hits(&right_of));
    let touching_right = Rect {
        min: Vec2 { x: 1000 + PIPE_WIDTH, y: 0 },
        size: Vec2 { x: 10, y: 100_000 },
    };
    assert!(pipe.hits(&touching_right));
}

#[test]
fn bird_dies_on_the_very_step_it_leaves_the_gap() {
    let mut died_on_pipe = 0;
    for seed in 0..40u64 {
        let mut game = Game::with_seed(Palette::default(), seed);
        game.step(true);
        let mut steps = 0;
        while game.state() == GameState::Running {
            let hover = game.bird_y() > 200 * PX;
            game.step(hover);
            assert_eq!(game.state() == GameState::Dead, collides(&game));
            steps += 1;
            assert!(steps < 5000);
        }
        let rect = game.bird_rect();
        if game.pipes().iter().any(|pipe| pipe.hits(&rect)) {
            died_on_pipe += 1;
        }
    }
    assert!(died_on_pipe >= 1);
}

#[test]
fn instances_come_in_drawing_order() {
    let mut game = Game::with_seed(Palette::default(), 71);
    game.step(true);
    for _ in 0..10 {
        game.step(false);
    }
    let palette = Palette::default();
    let instances = game.instances();
    let pipes = game.pipes();
    assert_eq!(instances.len(), 2 * pipes.len() + 5);
    assert_eq!(
        instances[0],
        InstanceData {
            pos: Vec2 { x: 0, y: 0 },
            size: Vec2 { x: 1280 * PX, y: 720 * PX },
            color: palette.background,
        }
    );
    let ground_top = 720 * PX - 466_560;
    for (i, pipe) in pipes.iter().enumerate() {
        let top = pipe.gap_center - pipe.gap_height / 2;
        let bottom = pipe.gap_center + pipe.gap_height / 2;
        assert_eq!(
            instances[1 + 2 * i],
            InstanceData {
                pos: Vec2 { x: pipe.x, y: 0 },
                size: Vec2 { x: PIPE_WIDTH, y: top },
                color: palette.pipe,
            }
        );
        assert_eq!(
            instances[2 + 2 * i],
            InstanceData {
                pos: Vec2 { x: pipe.x, y: bottom },
                size: Vec2 { x: PIPE_WIDTH, y: ground_top - bottom },
                color: palette.pipe_dark,
            }
        );
    }
    let n = instances.len();
    assert_eq!(
        instances[n - 4],
        InstanceData {
            pos: Vec2 { x: 0, y: ground_top },
            size: Vec2 { x: 1280 * PX, y: 466_560 },
            color: palette.ground,
        }
    );
    assert_eq!(
        instances[n - 3],
        InstanceData {
            pos: Vec2 { x: 0, y: ground_top - 6 * PX },
            size: Vec2 { x: 1280 * PX, y: 6 * PX },
            color: palette.ground_edge,
        }
    );
    let bird_min = Vec2 { x: 1008 * 1280 - 32 * PX, y: game.bird_y() - 24 * PX };
    assert_eq!(
        instances[n - 2],
        InstanceData {
            pos: bird_min,
            size: Vec2 { x: 64 * PX, y: 48 * PX },
            color: palette.bird_body,
        }
    );
    assert_eq!(
        instances[n - 1],
        InstanceData {
            pos: Vec2 { x: bird_min.x + 48 * PX, y: bird_min.y + 60_480 },
            size: Vec2 { x: 16 * PX, y: 12 * PX },
            color: palette.bird_beak,
        }
    );
}

#[test]
fn lower_pipe_parts_below_the_ground_have_no_height() {
    let mut game = Game::with_seed(Palette::default(), 72);
    game.resize(300, 100);
    let instances = game.instances();
    let pipes = game.pipes().clone();
    let ground_top = 100 * PX - 80 * PX;
    for (i, pipe) in pipes.iter().enumerate() {
        let bottom = pipe.gap_center + pipe.gap_height / 2;
        assert!(bottom > ground_top);
        assert_eq!(instances[2 + 2 * i].pos.y, bottom);
        assert_eq!(instances[2 + 2 * i].size.y, 0);
        assert!(instances[1 + 2 * i].size.y > 0);
    }
}

#[test]
fn set_background_changes_only_the_background() {
    let mut game = Game::with_seed(Palette::default(), 81);
    let before = game.instances();
    let pink = Color { r: 255, g: 0, b: 128, a: 255 };
    game.set_background(pink);
    let after = game.instances();
    assert_eq!(after[0].color, pink);
    assert_eq!(after[0].pos, before[0].pos);
    assert_eq!(after[0].size, before[0].size);
    assert_eq!(&after[1..], &before[1..]);
    assert_eq!(game.palette().background, pink);
    assert_eq!(game.palette().pipe, Palette::default().pipe);
    game.reset();
    assert_eq!(game.instances()[0].color, pink);
}

#[test]
fn game_is_made_just_when_the_seeding_succeeded() {
    let seeded = Game::from_seeding(Palette::default(), Ok(SmallRng::seed_from_u64(5))).unwrap();
    assert_eq!(seeded.state(), GameState::Ready);
    assert_eq!(seeded.pipes().len(), 4);
    assert_eq!(seeded.pipes(), Game::with_seed(Palette::default(), 5).pipes());
    let refused = Game::from_seeding(Palette::default(), Err(rand::Error::new("no entropy")));
    assert_eq!(refused.unwrap_err(), SeedError::NoEntropy);
}

#[test]
fn bird_beside_a_single_pipe_dies_one_unit_below_the_gap() {
    let pipes = vec![Pipe { x: 300 * PX, gap_center: 300 * PX, gap_height: 220 * PX, scored: false }];
    assert!(!bird_collides(1280, 720, 300 * PX, &pipes));
    assert!(!bird_collides(1280, 720, 386 * PX, &pipes));
    assert!(bird_collides(1280, 720, 386 * PX + 1, &pipes));
    assert!(bird_collides(1280, 720, 387 * PX, &pipes));
    assert!(!bird_collides(1280, 720, 214 * PX, &pipes));
    assert!(bird_collides(1280, 720, 214 * PX - 1, &pipes));
}

#[test]
fn bird_without_pipes_dies_at_the_ground_and_at_the_top() {
    let none: Vec<Pipe> = Vec::new();
    let ground_top = 720 * PX - 466_560;
    assert!(!bird_collides(1280, 720, 24 * PX, &none));
    assert!(bird_collides(1280, 720, 24 * PX - 1, &none));
    assert!(!bird_collides(1280, 720, ground_top - 24 * PX, &none));
    assert!(bird_collides(1280, 720, ground_top - 24 * PX + 1, &none));
    assert!(bird_collides(1, 1, 0, &none));
    let far = vec![Pipe { x: 600 * PX, gap_center: 0, gap_height: 0, scored: false }];
    assert!(!bird_collides(1280, 720, 300 * PX, &far));
}
