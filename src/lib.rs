//! A fixed-timestep game loop core: the step scheduler, the keyboard state
//! fed from buffered key events, the single-shot completion slot that turns
//! racing load callbacks into one outcome, and the geometry, images and
//! sprite sheets the games use.
pub mod clock;
pub mod input;
pub mod resource;
pub mod geometry;
pub mod sprite;
