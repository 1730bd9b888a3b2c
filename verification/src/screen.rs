//! The screen that an image is rendered for.
pub use crate::camera::{rgb_to_string, Rgb};
