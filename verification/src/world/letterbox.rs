//! The letterbox: how the world is scaled and centred into a screen, and
//! the game as the list of rectangles that the screen shows.
use crate::color::Color;
use crate::units::{min, Vec2};
use crate::world::rules::{
    PipePair, WorldView, BIRD_HALF_HEIGHT, BIRD_HEIGHT, BIRD_LEFT, BIRD_WIDTH, GROUND_HEIGHT,
    GROUND_TOP, PIPE_WIDTH, WORLD_HEIGHT, WORLD_WIDTH,
};
use vstd::prelude::*;

verus! {

/// The scale of the letterbox is a whole number of this many parts: a scale
/// of `SCALE_DENOMINATOR` shows the world at its own size.
pub const SCALE_DENOMINATOR: i64 = 4608;

/// Screen units in one pixel.  A length in position units times a scale in
/// parts of [`SCALE_DENOMINATOR`] is a length in screen units.
pub const SCREEN_UNITS_PER_PIXEL: i64 = 16_588_800;

/// No position or extent that the game hands to the letterbox is farther
/// from zero than this.
pub const REACH: i64 = 30_000_000;

/// One coloured rectangle to draw, in screen units.
#[derive(Clone, Copy, Debug, PartialEq, Eq, Structural)]
pub struct InstanceData {
    pub position: Vec2,
    pub size: Vec2,
    pub color: Color,
}

/// The colour of the ground.
pub open spec fn ground_color() -> Color {
    Color { r: 217, g: 189, b: 115, a: 255 }
}

/// The colour of a living bird: bright yellow.
pub open spec fn bird_color() -> Color {
    Color { r: 255, g: 237, b: 0, a: 255 }
}

/// The colour of a dead bird: muted red.
pub open spec fn dead_bird_color() -> Color {
    Color { r: 179, g: 77, b: 77, a: 255 }
}

/// The colour of the pipes.
pub open spec fn pipe_color() -> Color {
    Color { r: 94, g: 209, b: 99, a: 255 }
}

/// The scale that fits the world into a screen of `screen_w` by `screen_h`
/// pixels, in parts of [`SCALE_DENOMINATOR`]: the smaller of the scale that fits
/// the width, `screen_w / 288`, and the scale that fits the height,
/// `screen_h / 512`.
pub open spec fn letterbox_scale(screen_w: int, screen_h: int) -> int {
    min(16 * screen_w, 9 * screen_h)
}

/// The offset that centres the scaled world in the screen, in screen units:
/// half of what the scaled world leaves free, in each direction.
pub open spec fn letterbox_offset(screen_w: int, screen_h: int) -> Vec2 {
    Vec2 {
        x: ((16 * screen_w - letterbox_scale(screen_w, screen_h)) * 518_400) as i64,
        y: ((9 * screen_h - letterbox_scale(screen_w, screen_h)) * 921_600) as i64,
    }
}

/// The scale and the offset that letterbox the world into a screen of
/// `screen_w` by `screen_h` pixels.
pub fn compute_scale_and_offset(screen_w: u32, screen_h: u32) -> (fit: (i64, Vec2))
    ensures
        fit.0 == letterbox_scale(screen_w as int, screen_h as int),
        fit.1 == letterbox_offset(screen_w as int, screen_h as int),
        0 <= fit.0 <= 16 * u32::MAX,
        fit.1.x == (16 * screen_w - fit.0) * 518_400,
        fit.1.y == (9 * screen_h - fit.0) * 921_600,
{
    let scale_x: i64 = 16 * (screen_w as i64);
    let scale_y: i64 = 9 * (screen_h as i64);
    let scale: i64 = if scale_x <= scale_y {
        scale_x
    } else {
        scale_y
    };
    let offset = Vec2 { x: (scale_x - scale) * 518_400, y: (scale_y - scale) * 921_600 };
    (scale, offset)
}

/// On a screen of the world's own proportions the world fills the screen.
/// On a screen that is narrower than that the world is as wide as the screen and
/// centred vertically; on one that is wider it is as high as the screen and
/// centred horizontally.
pub proof fn lemma_letterbox_centres(screen_w: int, screen_h: int)
    requires
        0 <= screen_w <= u32::MAX,
        0 <= screen_h <= u32::MAX,
    ensures
        16 * screen_w == 9 * screen_h ==> letterbox_offset(screen_w, screen_h) == (Vec2 {
            x: 0,
            y: 0,
        }),
        16 * screen_w < 9 * screen_h ==> letterbox_offset(screen_w, screen_h).x == 0
            && letterbox_offset(screen_w, screen_h).y > 0,
        16 * screen_w > 9 * screen_h ==> letterbox_offset(screen_w, screen_h).y == 0
            && letterbox_offset(screen_w, screen_h).x > 0,
        letterbox_scale(screen_w, screen_h) * WORLD_WIDTH + 2 * letterbox_offset(
            screen_w,
            screen_h,
        ).x == screen_w * SCREEN_UNITS_PER_PIXEL,
        letterbox_scale(screen_w, screen_h) * WORLD_HEIGHT + 2 * letterbox_offset(
            screen_w,
            screen_h,
        ).y == screen_h * SCREEN_UNITS_PER_PIXEL,
{
}

/// The rectangle at `position` of extent `size` in the world, as the
/// letterbox shows it.
pub open spec fn placed(position: Vec2, size: Vec2, color: Color, scale: int, offset: Vec2) -> InstanceData {
    InstanceData {
        position: Vec2 {
            x: (position.x * scale + offset.x) as i64,
            y: (position.y * scale + offset.y) as i64,
        },
        size: Vec2 { x: (size.x * scale) as i64, y: (size.y * scale) as i64 },
        color,
    }
}

/// A product of a length within [`REACH`] and a scale fits with room to
/// spare.
proof fn lemma_scaled_fits(length: int, scale: int)
    by (nonlinear_arith)
    requires
        -30_000_000 <= length <= 30_000_000,
        0 <= scale <= 68_719_476_720,
    ensures
        -2_061_584_301_600_000_000 <= length * scale <= 2_061_584_301_600_000_000,
{
}

/// The rectangle at `position` of extent `size` in the world, as a
/// letterbox of the given scale and offset shows it.
pub fn rect(position: Vec2, size: Vec2, color: Color, scale: i64, offset: Vec2) -> (instance:
    InstanceData)
    requires
        -REACH <= position.x <= REACH,
        -REACH <= position.y <= REACH,
        -REACH <= size.x <= REACH,
        -REACH <= size.y <= REACH,
        0 <= scale <= 16 * u32::MAX,
        0 <= offset.x <= 1_000_000_000_000_000_000,
        0 <= offset.y <= 1_000_000_000_000_000_000,
    ensures
        instance == placed(position, size, color, scale as int, offset),
{
    proof {
        lemma_scaled_fits(position.x as int, scale as int);
        lemma_scaled_fits(position.y as int, scale as int);
        lemma_scaled_fits(size.x as int, scale as int);
        lemma_scaled_fits(size.y as int, scale as int);
    }
    InstanceData {
        position: Vec2 { x: position.x * scale + offset.x, y: position.y * scale + offset.y },
        size: Vec2 { x: size.x * scale, y: size.y * scale },
        color,
    }
}

impl PipePair {
    /// Height of the part of the pipe above the gap; none where the gap
    /// starts at or above the top of the world.
    pub open spec fn upper_height(self) -> int {
        if self.gap_top() > 0 {
            self.gap_top()
        } else {
            0
        }
    }

    /// Height of the part of the pipe between the gap and the ground; none
    /// where the gap ends at or below the ground.
    pub open spec fn lower_height(self) -> int {
        if GROUND_TOP - self.gap_bottom() > 0 {
            GROUND_TOP - self.gap_bottom()
        } else {
            0
        }
    }

    /// The rectangles of the pipe under a letterbox: its upper part and its
    /// lower part, each only if it has any height.
    pub open spec fn instances(self, scale: int, offset: Vec2) -> Seq<InstanceData> {
        let upper = if self.upper_height() > 0 {
            seq![
                placed(
                    Vec2 { x: self.x, y: 0 },
                    Vec2 { x: PIPE_WIDTH, y: self.upper_height() as i64 },
                    pipe_color(),
                    scale,
                    offset,
                ),
            ]
        } else {
            Seq::<InstanceData>::empty()
        };
        let lower = if self.lower_height() > 0 {
            seq![
                placed(
                    Vec2 { x: self.x, y: self.gap_bottom() as i64 },
                    Vec2 { x: PIPE_WIDTH, y: self.lower_height() as i64 },
                    pipe_color(),
                    scale,
                    offset,
                ),
            ]
        } else {
            Seq::<InstanceData>::empty()
        };
        upper + lower
    }
}

/// The rectangles of the pipes of `pipes`, pipe by pipe.
pub open spec fn pipe_instances(pipes: Seq<PipePair>, scale: int, offset: Vec2) -> Seq<InstanceData>
    decreases pipes.len(),
{
    if pipes.len() == 0 {
        Seq::<InstanceData>::empty()
    } else {
        pipe_instances(pipes.drop_last(), scale, offset) + pipes.last().instances(scale, offset)
    }
}

impl WorldView {
    /// The ground under a letterbox.
    pub open spec fn ground_instance(scale: int, offset: Vec2) -> InstanceData {
        placed(
            Vec2 { x: 0, y: GROUND_TOP },
            Vec2 { x: WORLD_WIDTH, y: GROUND_HEIGHT },
            ground_color(),
            scale,
            offset,
        )
    }

    /// The bird under a letterbox: 34 by 24 pixels of the world around its
    /// centre, yellow while it lives and red when it is dead.
    pub open spec fn bird_instance(self, scale: int, offset: Vec2) -> InstanceData {
        placed(
            Vec2 { x: BIRD_LEFT, y: (self.bird_y - BIRD_HALF_HEIGHT) as i64 },
            Vec2 { x: BIRD_WIDTH, y: BIRD_HEIGHT },
            if self.is_dead {
                dead_bird_color()
            } else {
                bird_color()
            },
            scale,
            offset,
        )
    }

    /// Everything to draw on a screen of `screen_w` by `screen_h` pixels, back
    /// to front: the ground, the bird, the pipes.
    pub open spec fn instances(self, screen_w: int, screen_h: int) -> Seq<InstanceData> {
        let scale = letterbox_scale(screen_w, screen_h);
        let offset = letterbox_offset(screen_w, screen_h);
        seq![Self::ground_instance(scale, offset), self.bird_instance(scale, offset)]
            + pipe_instances(self.pipes, scale, offset)
    }
}

} // verus!
