//! The overlay of the screen-relative game: three lines of text in the top
//! left corner, and how they are styled.
//!
//! A [`Hud`] holds what the panel shows.  Whoever owns the page puts the
//! texts and the styles of a `Hud` into the page's elements.
use crate::text::{decimal, owned, push_decimal, push_decimal_aligned, right_aligned};
use crate::units::min;
use vstd::prelude::*;
use vstd::string::StringExecFns;

verus! {

/// How the status line is styled.
#[derive(Clone, Copy, Debug, PartialEq, Eq, Structural)]
pub enum StatusStyle {
    /// In full view.
    Shown,
    /// Faded out: there is nothing to say.
    Hidden,
    /// Bold and in the colour of a warning.
    Error,
}

/// Why a panel could not be made.
#[derive(Clone, Copy, Debug, PartialEq, Eq, Structural)]
pub enum HudError {
    /// The page has no body to put the panel in.
    NoBody,
}

/// What the overlay shows.
#[derive(Debug)]
pub struct Hud {
    fps: String,
    score: String,
    status: String,
    status_style: StatusStyle,
}

/// What the overlay shows, as mathematical text.
pub ghost struct HudView {
    pub fps: Seq<char>,
    pub score: Seq<char>,
    pub status: Seq<char>,
    pub status_style: StatusStyle,
}

/// A frame rate of `fps` thousandths of a frame per second as a whole
/// number of frames per second, rounded half up and held to 999.
pub open spec fn whole_rate(fps: int) -> int {
    min((fps + 500) / 1000, 999)
}

/// The frame-rate line for a frame rate of `fps` thousandths.
pub open spec fn fps_text(fps: int) -> Seq<char> {
    "FPS: "@ + right_aligned(decimal(whole_rate(fps) as nat), 3)
}

/// The score line: the score, and the best score once there is one.
pub open spec fn score_text(score: int, best: int) -> Seq<char> {
    if best > 0 {
        "Score: "@ + decimal(score as nat) + "  (best: "@ + decimal(best as nat) + ")"@
    } else {
        "Score: "@ + decimal(score as nat)
    }
}

/// The style of a status line that says `text`.
pub open spec fn style_for(text: Seq<char>) -> StatusStyle {
    if text.len() == 0 {
        StatusStyle::Hidden
    } else {
        StatusStyle::Shown
    }
}

impl View for Hud {
    type V = HudView;

    closed spec fn view(&self) -> HudView {
        HudView {
            fps: self.fps@,
            score: self.score@,
            status: self.status@,
            status_style: self.status_style,
        }
    }
}

impl HudView {
    /// What a new panel shows.
    pub open spec fn initial() -> HudView {
        HudView {
            fps: "FPS: --"@,
            score: "Score: 0"@,
            status: "Tap or press Space to start"@,
            status_style: StatusStyle::Shown,
        }
    }
}

impl Hud {
    /// A new panel, if the page has a body to put it in.
    pub fn new(has_body: bool) -> (made: Result<Hud, HudError>)
        ensures
            has_body ==> made is Ok && made->Ok_0@ == HudView::initial(),
            !has_body ==> made == Err::<Hud, HudError>(HudError::NoBody),
    {
        if !has_body {
            return Err(HudError::NoBody);
        }
        Ok(
            Hud {
                fps: owned("FPS: --"),
                score: owned("Score: 0"),
                status: owned("Tap or press Space to start"),
                status_style: StatusStyle::Shown,
            },
        )
    }

    /// Shows a frame rate of `fps` thousandths of a frame per second, as a
    /// whole number.
    pub fn set_fps(&mut self, fps: u64)
        ensures
            final(self)@ == (HudView { fps: fps_text(fps as int), ..old(self)@ }),
    {
        let whole: u64 = if fps >= 998_500 {
            999
        } else {
            (fps + 500) / 1000
        };
        let mut text = owned("FPS: ");
        push_decimal_aligned(&mut text, whole, 3);
        self.fps = text;
    }

    /// Shows the score, and the best score once there is one.
    pub fn set_score(&mut self, score: u32, best: u32)
        ensures
            final(self)@ == (HudView {
                score: score_text(score as int, best as int),
                ..old(self)@
            }),
    {
        let mut text = owned("Score: ");
        push_decimal(&mut text, score as u64);
        if best > 0 {
            text.append("  (best: ");
            push_decimal(&mut text, best as u64);
            text.append(")");
        }
        assert(text@ =~= score_text(score as int, best as int));
        self.score = text;
    }

    /// Shows `text` on the status line; a line with nothing to say is faded
    /// out.
    pub fn set_status(&mut self, text: &str)
        ensures
            final(self)@ == (HudView {
                status: text@,
                status_style: style_for(text@),
                ..old(self)@
            }),
    {
        self.status = owned(text);
        self.status_style = if text.is_empty() {
            StatusStyle::Hidden
        } else {
            StatusStyle::Shown
        };
    }

    /// Shows `text` on the status line as an error.
    pub fn set_error(&mut self, text: &str)
        ensures
            final(self)@ == (HudView {
                status: text@,
                status_style: StatusStyle::Error,
                ..old(self)@
            }),
    {
        self.status = owned(text);
        self.status_style = StatusStyle::Error;
    }

    /// The frame-rate line.
    pub fn fps_line(&self) -> (text: &str)
        ensures
            text@ == self@.fps,
    {
        self.fps.as_str()
    }

    /// The score line.
    pub fn score_line(&self) -> (text: &str)
        ensures
            text@ == self@.score,
    {
        self.score.as_str()
    }

    /// The status line.
    pub fn status_line(&self) -> (text: &str)
        ensures
            text@ == self@.status,
    {
        self.status.as_str()
    }

    /// How the status line is styled.
    pub fn status_style(&self) -> (style: StatusStyle)
        ensures
            style == self@.status_style,
    {
        self.status_style
    }
}

/// The style sheet of the panel.
pub fn root_css() -> (css: &'static str)
    ensures
        css@
            == "position:fixed;top:16px;left:16px;color:white;font-family:'Inter',sans-serif;font-size:16px;pointer-events:none;text-shadow:0 0 6px rgba(0,0,0,0.45);z-index:1000;"@,
{
    "position:fixed;top:16px;left:16px;color:white;font-family:'Inter',sans-serif;font-size:16px;pointer-events:none;text-shadow:0 0 6px rgba(0,0,0,0.45);z-index:1000;"
}

/// The style sheet of the frame-rate line.
pub fn fps_css() -> (css: &'static str)
    ensures
        css@ == "margin-bottom:4px;font-weight:600;"@,
{
    "margin-bottom:4px;font-weight:600;"
}

/// The style sheet of the score line.
pub fn score_css() -> (css: &'static str)
    ensures
        css@ == "margin-bottom:4px;"@,
{
    "margin-bottom:4px;"
}

/// The style sheet of the status line of a new panel.
pub fn status_css() -> (css: &'static str)
    ensures
        css@ == "max-width:320px;line-height:1.4;"@,
{
    "max-width:320px;line-height:1.4;"
}

/// The style sheet that goes with a style of the status line.
pub fn status_style_css(style: StatusStyle) -> (css: &'static str)
    ensures
        css@ == status_style_css_text(style),
{
    match style {
        StatusStyle::Shown => "opacity:1;transition:opacity 0.2s ease;max-width:320px;line-height:1.4;",
        StatusStyle::Hidden => "opacity:0;transition:opacity 0.2s ease;max-width:320px;line-height:1.4;",
        StatusStyle::Error => "color:#ff8080;font-weight:600;max-width:320px;line-height:1.4;",
    }
}

/// The style sheet that goes with a style of the status line, as text.
pub open spec fn status_style_css_text(style: StatusStyle) -> Seq<char> {
    match style {
        StatusStyle::Shown => "opacity:1;transition:opacity 0.2s ease;max-width:320px;line-height:1.4;"@,
        StatusStyle::Hidden => "opacity:0;transition:opacity 0.2s ease;max-width:320px;line-height:1.4;"@,
        StatusStyle::Error => "color:#ff8080;font-weight:600;max-width:320px;line-height:1.4;"@,
    }
}

} // verus!
