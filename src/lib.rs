//! Board-support logic for a 5x5 LED matrix (wired as 3x9 on the older
//! board) and two push-buttons: images, per-row brightness schedules, the
//! display's scan state machine, the frames of scrolling text, and the
//! buttons' hysteresis filter.

pub mod button;
pub mod display;
pub mod font;
pub mod image;
pub mod schedule;
pub mod scroll;

pub use button::Button;
pub use display::DisplayState;
pub use image::Image;
