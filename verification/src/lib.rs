//! Coordinate and state engine of a hexagonal tile-map painter.
//!
//! Cells are named by a spiral index that winds outwards ring by ring, and
//! located by cube coordinates `(q, r, s)` with `q + r + s == 0`.
//!
//! - [`cube`]: cube coordinates and the step metric.
//! - [`spiral`]: the spiral numbering and its two conversions, with the proof
//!   that each undoes the other.
//! - [`reach`]: movement ranges and their size.
//! - [`tags`]: the catalog of terrain tags.
//! - [`tiles`]: the store of painted cells.
//! - [`events`]: the command queues that the host fills and each tick drains.
//! - [`paint`]: what a tick does with the pointer and the button.
//! - [`highlight`]: what a click on a cell highlights.
//! - [`camera`]: which way the held keys push the camera.
//! - [`text`]: comparing and lowercasing names.

pub mod camera;
pub mod cube;
pub mod events;
pub mod highlight;
pub mod paint;
pub mod reach;
pub mod spiral;
pub mod tags;
pub mod text;
pub mod tiles;
