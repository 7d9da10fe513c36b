//! The tile highlights shown on the map, and the markers of their entities.
use vstd::prelude::*;
use crate::hex::Hex;

verus! {

/// Tiles the active unit can reach or target.
#[derive(Clone, Debug, PartialEq, Eq)]
pub struct RangeHighlights {
    pub tiles: Vec<Hex>,
}

/// Tiles a skill would hit.
#[derive(Clone, Debug, PartialEq, Eq)]
pub struct AttackHighlights {
    pub tiles: Vec<Hex>,
}

/// Tiles of the path the active unit would walk.
#[derive(Clone, Debug, PartialEq, Eq)]
pub struct PathHighlights {
    pub tiles: Vec<Hex>,
}

/// The tile of the unit whose turn it is.
#[derive(Clone, Copy, Debug, PartialEq, Eq, Structural)]
pub struct ActiveUnitHighlights {
    pub tile: Hex,
}

/// The tile under the mouse cursor.
#[derive(Clone, Debug, PartialEq, Eq)]
pub struct CursorOnTile {
    pub temp_hexes: Vec<Hex>,
    pub hex: Hex,
}

/// Marks the entities drawn for `RangeHighlights`.
#[derive(Clone, Copy, Debug, Default, PartialEq, Eq, Structural)]
pub struct RangeHighlightMarker;

/// Marks the entities drawn for `PathHighlights`.
#[derive(Clone, Copy, Debug, Default, PartialEq, Eq, Structural)]
pub struct PathHighlightMarker;

/// Marks the entities drawn for `AttackHighlights`.
#[derive(Clone, Copy, Debug, Default, PartialEq, Eq, Structural)]
pub struct AttackHighlightMarker;

/// Marks the entity drawn for `ActiveUnitHighlights`.
#[derive(Clone, Copy, Debug, Default, PartialEq, Eq, Structural)]
pub struct ActiveUnitHighlightMarker;

/// Marks the entity drawn for `CursorOnTile`.
#[derive(Clone, Copy, Debug, Default, PartialEq, Eq, Structural)]
pub struct CursorHighlightMarker;

/// Whether `tiles` holds `hex`.
pub fn tiles_contain(tiles: &Vec<Hex>, hex: Hex) -> (r: bool)
    ensures
        r == tiles@.contains(hex),
{
    let mut i: usize = 0;
    while i < tiles.len()
        invariant
            i <= tiles@.len(),
            forall|k: int| 0 <= k < i ==> tiles@[k] != hex,
        decreases tiles@.len() - i,
    {
        if tiles[i] == hex {
            assert(tiles@[i as int] == hex);
            return true;
        }
        i = i + 1;
    }
    false
}

} // verus!
