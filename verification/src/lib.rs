//! Verified core of a desktop "bongo cat" overlay: the placeholder sprite
//! renderer, the classification of raw input events into key presses and
//! releases, and the animation state machine that drives the overlay window.

pub mod animation;
pub mod config;
pub mod event;
pub mod input;
pub mod sprite;

pub use event::AppEvent;
