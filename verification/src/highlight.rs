//! What a click on a cell highlights: the cells in movement range of it,
//! and the cells on its three axes.

use vstd::prelude::*;
use crate::cube::{view_determines_cell, Cube};
use crate::reach::{disk, movement_range};
use crate::spiral::{spiral_cube, to_cube};

verus! {

/// The number of steps that the highlighted movement range reaches.
pub const HIGHLIGHT_STEPS: i64 = 2;

/// How a cell is coloured after a click.
#[derive(Clone, Copy, Debug, PartialEq, Eq, Structural)]
pub enum Highlight {
    /// The clicked cell itself.
    Clicked,
    /// A cell in movement range of the clicked one.
    Reachable,
    /// Any other cell.
    Plain,
}

/// The highlight of a cell: its colour, and whether it is darkened because
/// it lies on an axis of the clicked cell.
#[derive(Clone, Copy, Debug, PartialEq, Eq, Structural)]
pub struct TileHighlight {
    pub colour: Highlight,
    pub on_axis: bool,
}

/// The colour of the cell `tile` after a click on the cell `clicked`.
pub open spec fn colour_after_click(clicked: Cube, tile: Cube) -> Highlight {
    if tile == clicked {
        Highlight::Clicked
    } else if disk(clicked, HIGHLIGHT_STEPS as int).contains(tile) {
        Highlight::Reachable
    } else {
        Highlight::Plain
    }
}

/// The colour of the cell of index `tile` after a click on the cell of
/// index `clicked`.
fn highlight_movement_range_on_tile_click(clicked: u64, tile: u64) -> (colour: Highlight)
    ensures
        colour == colour_after_click(spiral_cube(clicked as nat), spiral_cube(tile as nat)),
{
    let centre = to_cube(clicked);
    let cell = to_cube(tile);
    let range = movement_range(centre, HIGHLIGHT_STEPS);
    proof {
        view_determines_cell(centre, cell);
    }
    if centre == cell {
        Highlight::Clicked
    } else if range.contains(&cell) {
        Highlight::Reachable
    } else {
        Highlight::Plain
    }
}

/// Whether the cell of index `tile` lies on an axis of the cell of index
/// `clicked`.
fn highlight_axes_on_tile_click(clicked: u64, tile: u64) -> (on_axis: bool)
    ensures
        on_axis == spiral_cube(tile as nat).shares_axis(spiral_cube(clicked as nat)),
{
    let centre = to_cube(clicked);
    let cell = to_cube(tile);
    cell.shares_axis(&centre)
}

/// The highlight of the cell of index `tile` after a click on the cell of
/// index `clicked`.
pub fn highlight_on_tile_click(clicked: u64, tile: u64) -> (highlight: TileHighlight)
    ensures
        highlight.colour == colour_after_click(spiral_cube(clicked as nat), spiral_cube(tile as nat)),
        highlight.on_axis == spiral_cube(tile as nat).shares_axis(spiral_cube(clicked as nat)),
{
    TileHighlight {
        colour: highlight_movement_range_on_tile_click(clicked, tile),
        on_axis: highlight_axes_on_tile_click(clicked, tile),
    }
}

} // verus!
