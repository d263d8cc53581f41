//! The paint controller: what one tick does with the pointer and the button.
//!
//! Painting is level-triggered. While the button is held, every tick paints
//! the cell under the pointer, so that dragging paints a stroke.

use vstd::prelude::*;
use crate::cube::{Cube, CubeCoordinate};
use crate::events::SelectedHex;
use crate::spiral::{checked_to_index, cube_spiral};
use crate::tags::AssetTag;
use crate::tiles::TileStore;

verus! {

/// What the controller did in a tick.
#[derive(Clone, Copy, Debug, PartialEq, Eq, Structural)]
pub enum PaintPhase {
    /// No pointer was over the map.
    Idle,
    /// The pointer was over the cell of this index.
    Hovering(u64),
    /// The pointer was over the cell of this index with the button held,
    /// and the cell was painted.
    Painting(u64),
}

/// The cell that a phase points at.
pub open spec fn phase_index(phase: PaintPhase) -> Option<u64> {
    match phase {
        PaintPhase::Idle => None,
        PaintPhase::Hovering(index) => Some(index),
        PaintPhase::Painting(index) => Some(index),
    }
}

/// The phase that a tick ends in. A pointer over a cell whose index does not
/// fit in 64 bits counts as no pointer.
pub open spec fn next_phase(pointer: Option<Cube>, pressed: bool) -> PaintPhase {
    match pointer {
        Some(cell) => if cube_spiral(cell) > u64::MAX {
            PaintPhase::Idle
        } else if pressed {
            PaintPhase::Painting(cube_spiral(cell) as u64)
        } else {
            PaintPhase::Hovering(cube_spiral(cell) as u64)
        },
        None => PaintPhase::Idle,
    }
}

/// The cells after a tick that ended in `phase` with `tag` selected.
pub open spec fn painted(cells: Map<u64, AssetTag>, phase: PaintPhase, tag: AssetTag) -> Map<u64, AssetTag> {
    match phase {
        PaintPhase::Painting(index) => cells.insert(index, tag),
        _ => cells,
    }
}

/// A tick never removes a cell, and creates at most the painted one.
pub proof fn painting_keeps_cells(cells: Map<u64, AssetTag>, phase: PaintPhase, tag: AssetTag)
    ensures
        cells.dom().subset_of(painted(cells, phase, tag).dom()),
        forall|index: u64|
            painted(cells, phase, tag).contains_key(index) && !cells.contains_key(index)
                ==> phase == PaintPhase::Painting(index),
        forall|index: u64|
            cells.contains_key(index) && phase != PaintPhase::Painting(index)
                ==> painted(cells, phase, tag)[index] == cells[index],
{
}

/// The view of the pointer's cell.
pub open spec fn pointer_view(pointer: Option<CubeCoordinate>) -> Option<Cube> {
    match pointer {
        Some(cell) => Some(cell@),
        None => None,
    }
}

/// The cell that the pointer is over, if any.
#[derive(Clone, Copy, Debug)]
pub struct HoveredTile {
    cell: Option<u64>,
}

impl HoveredTile {
    /// The index of the hovered cell.
    pub closed spec fn spec_index(&self) -> Option<u64> {
        self.cell
    }

    /// No cell is hovered.
    pub fn new() -> (hovered: HoveredTile)
        ensures
            hovered.spec_index().is_none(),
    {
        HoveredTile { cell: None }
    }

    /// The index of the hovered cell.
    pub fn index(&self) -> (index: Option<u64>)
        ensures
            index == self.spec_index(),
    {
        self.cell
    }

    /// Whether the cell of `index` is the hovered one.
    pub fn is_hovered(&self, index: u64) -> (hit: bool)
        ensures
            hit == (self.spec_index() == Some(index)),
    {
        match self.cell {
            Some(hovered) => hovered == index,
            None => false,
        }
    }
}

impl Default for HoveredTile {
    /// No cell is hovered.
    fn default() -> (hovered: HoveredTile)
        ensures
            hovered.spec_index().is_none(),
    {
        HoveredTile::new()
    }
}

/// One tick of the paint controller.
///
/// Without a pointer nothing happens and the tick ends idle. With one, the
/// cell under it becomes the hovered cell; with the button held it is also
/// painted with the selected tag, and created if the store did not hold it.
pub fn cursor_system(
    store: &mut TileStore,
    hovered: &mut HoveredTile,
    selected: &SelectedHex,
    pointer: Option<CubeCoordinate>,
    pressed: bool,
) -> (phase: PaintPhase)
    ensures
        phase == next_phase(pointer_view(pointer), pressed),
        final(hovered).spec_index() == phase_index(phase),
        final(store)@ == painted(old(store)@, phase, selected.0),
{
    let index = match pointer {
        Some(cell) => checked_to_index(cell),
        None => None,
    };
    match index {
        Some(index) => {
            hovered.cell = Some(index);
            if pressed {
                store.upsert_tag(index, selected.0);
                PaintPhase::Painting(index)
            } else {
                PaintPhase::Hovering(index)
            }
        },
        None => {
            hovered.cell = None;
            PaintPhase::Idle
        },
    }
}

} // verus!
