//! The tile store: which cells exist, and what each is painted with.

use std::collections::HashMap;
use vstd::prelude::*;
use vstd::std_specs::hash::group_hash_axioms;
use crate::tags::AssetTag;

verus! {

broadcast use group_hash_axioms;

/// The number of cells that a fresh map starts with: the centre and the
/// four rings around it.
pub const NUM_TILES: u64 = 61;

/// One cell of the map: its spiral index and the tag it is painted with.
#[derive(Clone, Copy, Debug, PartialEq, Eq, Structural)]
pub struct TileMarker {
    pub index: u64,
    pub tag: AssetTag,
}

/// The cells of the map, each under its spiral index. A cell is created when
/// it is first painted and is never removed.
#[derive(Debug)]
pub struct TileStore {
    tiles: HashMap<u64, AssetTag>,
}

impl View for TileStore {
    type V = Map<u64, AssetTag>;

    closed spec fn view(&self) -> Map<u64, AssetTag> {
        self.tiles@
    }
}

/// The cells `0..count`, each painted `Blank`.
pub open spec fn blank_cells(count: u64) -> Map<u64, AssetTag> {
    Map::new(|i: u64| i < count, |i: u64| AssetTag::Blank)
}

impl TileStore {
    /// A store without cells.
    pub fn new() -> (store: TileStore)
        ensures
            store@ == Map::<u64, AssetTag>::empty(),
    {
        TileStore { tiles: HashMap::new() }
    }

    /// A store that holds the cells `0..count`, each painted `Blank`.
    pub fn with_blank_cells(count: u64) -> (store: TileStore)
        ensures
            store@ == blank_cells(count),
    {
        let mut tiles: HashMap<u64, AssetTag> = HashMap::new();
        let mut i: u64 = 0;
        while i < count
            invariant
                i <= count,
                tiles@ =~= blank_cells(i),
            decreases count - i,
        {
            tiles.insert(i, AssetTag::Blank);
            i += 1;
        }
        TileStore { tiles }
    }

    /// The cell under `index`, if the store holds one.
    pub fn get(&self, index: u64) -> (tile: Option<TileMarker>)
        ensures
            tile == if self@.contains_key(index) {
                Some(TileMarker { index, tag: self@[index] })
            } else {
                None
            },
    {
        match self.tiles.get(&index) {
            Some(tag) => Some(TileMarker { index, tag: *tag }),
            None => None,
        }
    }

    /// Whether the store holds a cell under `index`.
    pub fn contains(&self, index: u64) -> (held: bool)
        ensures
            held == self@.contains_key(index),
    {
        self.tiles.contains_key(&index)
    }

    /// The number of cells in the store.
    pub fn len(&self) -> (count: usize)
        ensures
            count == self@.len(),
            self@.dom().finite(),
    {
        self.tiles.len()
    }

    /// Paints the cell under `index` with `tag`, creating the cell if the
    /// store does not hold it yet. No other cell changes.
    pub fn upsert_tag(&mut self, index: u64, tag: AssetTag)
        ensures
            final(self)@ == old(self)@.insert(index, tag),
    {
        self.tiles.insert(index, tag);
    }
}

/// The store that a fresh map starts with: the cells `0..NUM_TILES`, each
/// painted `Blank`.
pub fn setup() -> (store: TileStore)
    ensures
        store@ == blank_cells(NUM_TILES),
{
    TileStore::with_blank_cells(NUM_TILES)
}

/// Painting a cell leaves the store with exactly one entry for it, holding
/// the tag painted last, and creates at most that one cell.
pub proof fn upsert_keeps_one_entry(cells: Map<u64, AssetTag>, index: u64, first: AssetTag, second: AssetTag)
    requires
        cells.dom().finite(),
    ensures
        cells.insert(index, first).insert(index, second) == cells.insert(index, second),
        cells.insert(index, second)[index] == second,
        cells.insert(index, second).dom() == cells.dom().insert(index),
        cells.insert(index, second).len() == if cells.contains_key(index) {
            cells.len()
        } else {
            cells.len() + 1
        },
{
    assert(cells.insert(index, first).insert(index, second) =~= cells.insert(index, second));
    assert(cells.insert(index, second).dom() =~= cells.dom().insert(index));
    if cells.contains_key(index) {
        assert(cells.dom().insert(index) =~= cells.dom());
    }
}

} // verus!
