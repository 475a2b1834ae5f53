use flappy::hud::{
    fps_css, root_css, score_css, status_css, status_style_css, Hud, HudError, StatusStyle,
};

#[test]
fn panel_needs_a_body() {
    assert_eq!(Hud::new(false).unwrap_err(), HudError::NoBody);
    assert!(Hud::new(true).is_ok());
}

#[test]
fn new_panel_shows_the_defaults() {
    let hud = Hud::new(true).unwrap();
    assert_eq!(hud.fps_line(), "FPS: --");
    assert_eq!(hud.score_line(), "Score: 0");
    assert_eq!(hud.status_line(), "Tap or press Space to start");
    assert_eq!(hud.status_style(), StatusStyle::Shown);
}

#[test]
fn frame_rate_is_shown_as_a_whole_number_up_to_999() {
    let mut hud = Hud::new(true).unwrap();
    hud.set_fps(0);
    assert_eq!(hud.fps_line(), "FPS:   0");
    hud.set_fps(499);
    assert_eq!(hud.fps_line(), "FPS:   0");
    hud.set_fps(500);
    assert_eq!(hud.fps_line(), "FPS:   1");
    hud.set_fps(5_400);
    assert_eq!(hud.fps_line(), "FPS:   5");
    hud.set_fps(59_600);
    assert_eq!(hud.fps_line(), "FPS:  60");
    hud.set_fps(120_000);
    assert_eq!(hud.fps_line(), "FPS: 120");
    hud.set_fps(998_499);
    assert_eq!(hud.fps_line(), "FPS: 998");
    hud.set_fps(998_500);
    assert_eq!(hud.fps_line(), "FPS: 999");
    hud.set_fps(1_500_000);
    assert_eq!(hud.fps_line(), "FPS: 999");
    hud.set_fps(u64::MAX);
    assert_eq!(hud.fps_line(), "FPS: 999");
    assert_eq!(hud.score_line(), "Score: 0");
}

#[test]
fn score_line_shows_the_best_score_once_there_is_one() {
    let mut hud = Hud::new(true).unwrap();
    hud.set_score(3, 0);
    assert_eq!(hud.score_line(), "Score: 3");
    hud.set_score(3, 7);
    assert_eq!(hud.score_line(), "Score: 3  (best: 7)");
    hud.set_score(0, 1);
    assert_eq!(hud.score_line(), "Score: 0  (best: 1)");
    hud.set_score(4_294_967_295, 4_294_967_295);
    assert_eq!(hud.score_line(), "Score: 4294967295  (best: 4294967295)");
    hud.set_score(1_000, 0);
    assert_eq!(hud.score_line(), "Score: 1000");
}

#[test]
fn empty_status_fades_out_and_text_brings_it_back() {
    let mut hud = Hud::new(true).unwrap();
    hud.set_status("");
    assert_eq!(hud.status_line(), "");
    assert_eq!(hud.status_style(), StatusStyle::Hidden);
    hud.set_status("Game over");
    assert_eq!(hud.status_line(), "Game over");
    assert_eq!(hud.status_style(), StatusStyle::Shown);
    assert_eq!(hud.fps_line(), "FPS: --");
}

#[test]
fn error_is_shown_as_a_warning() {
    let mut hud = Hud::new(true).unwrap();
    hud.set_error("GPU not available");
    assert_eq!(hud.status_line(), "GPU not available");
    assert_eq!(hud.status_style(), StatusStyle::Error);
    hud.set_error("");
    assert_eq!(hud.status_style(), StatusStyle::Error);
}

#[test]
fn style_sheets_are_the_panels() {
    assert_eq!(
        root_css(),
        "position:fixed;top:16px;left:16px;color:white;font-family:'Inter',sans-serif;font-size:16px;pointer-events:none;text-shadow:0 0 6px rgba(0,0,0,0.45);z-index:1000;"
    );
    assert_eq!(fps_css(), "margin-bottom:4px;font-weight:600;");
    assert_eq!(score_css(), "margin-bottom:4px;");
    assert_eq!(status_css(), "max-width:320px;line-height:1.4;");
    assert_eq!(
        status_style_css(StatusStyle::Shown),
        "opacity:1;transition:opacity 0.2s ease;max-width:320px;line-height:1.4;"
    );
    assert_eq!(
        status_style_css(StatusStyle::Hidden),
        "opacity:0;transition:opacity 0.2s ease;max-width:320px;line-height:1.4;"
    );
    assert_eq!(
        status_style_css(StatusStyle::Error),
        "color:#ff8080;font-weight:600;max-width:320px;line-height:1.4;"
    );
}
