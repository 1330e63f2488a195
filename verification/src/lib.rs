//! Placement and fill colour of a strip-shaped overlay window that clings to
//! one edge of the desktop.
//!
//! [`geometry`] computes where the strip goes and how large it is;
//! [`color`] reads a `#rrggbb` or `#rrggbbaa` colour and hands out its
//! alpha-premultiplied channels. Both work on whole numbers only, so every
//! result is exact.

pub mod color;
pub mod geometry;

pub use color::{hex_digit, Channel, Color, ColorParseError, CHANNEL_SCALE};
pub use geometry::{compute_window_bounds, Anchor};
