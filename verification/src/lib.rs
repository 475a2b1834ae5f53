//! A flap-and-dodge arcade game as a deterministic fixed-step simulation.
//!
//! Everything is computed in integers.  Lengths are counted in position
//! units, [`units::UNITS_PER_PIXEL`] to the pixel; speeds in velocity units,
//! [`units::VELOCITY_UNITS_PER_PIXEL_PER_SECOND`] to one pixel per second; time
//! in fixed steps, [`units::STEPS_PER_SECOND`] to the second.  The units are
//! chosen so that one step at a speed of one velocity unit moves a body by
//! exactly one position unit, and so that every constant of the game is a
//! whole number of them.
//!
//! There are two games.  [`game`] is played in a world as large as the
//! screen; [`world`] is played in a fixed virtual world that is letterboxed
//! into the screen.  Around them stand what a frame loop needs beside the
//! games: the frame clock in [`timer`], the decisions of one frame in
//! [`frame`], the overlay in [`hud`], the options of the page in [`query`],
//! the keys in [`input`], and the sizes and choices of the renderer in
//! [`renderer`].

pub mod bob;
pub mod color;
pub mod frame;
pub mod game;
pub mod hud;
pub mod input;
pub mod query;
pub mod random;
pub mod renderer;
pub mod text;
pub mod timer;
pub mod units;
pub mod world;
