//! Following the mouse cursor across the map's tiles.
use vstd::prelude::*;
use crate::hex::Hex;
use crate::highlights::{tiles_contain, CursorOnTile};

verus! {

/// How the tile-under-cursor record changed.
#[derive(Clone, Copy, Debug, PartialEq, Eq, Structural)]
pub enum CursorChange {
    Unchanged,
    Moved,
    Inserted,
    Removed,
}

/// Follows the raycast's nearest tile `hit`: a hit on the recorded tile changes
/// nothing (so that nothing reacts to it), a hit on another tile moves the
/// record there (with that tile as its only temporary tile), a hit without a
/// record creates one, and no hit removes the record.
pub fn update_mouse_cursor(cursor: &mut Option<CursorOnTile>, hit: Option<Hex>) -> (r: CursorChange)
    ensures
        match hit {
            Some(h) => match *old(cursor) {
                Some(c) => if c.hex == h {
                    &&& r == CursorChange::Unchanged
                    &&& *final(cursor) == *old(cursor)
                } else {
                    &&& r == CursorChange::Moved
                    &&& *final(cursor) matches Some(n) && n.hex == h && n.temp_hexes@ == seq![h]
                },
                None => {
                    &&& r == CursorChange::Inserted
                    &&& *final(cursor) matches Some(n) && n.hex == h && n.temp_hexes@ == seq![h]
                },
            },
            None => if (*old(cursor)) is Some {
                r == CursorChange::Removed && (*final(cursor)) is None
            } else {
                r == CursorChange::Unchanged && (*final(cursor)) is None
            },
        },
{
    match hit {
        Some(h) => {
            let same = match cursor {
                Some(c) => c.hex == h,
                None => false,
            };
            if same {
                return CursorChange::Unchanged;
            }
            let was_some = cursor.is_some();
            *cursor = Some(CursorOnTile { hex: h, temp_hexes: vec![h] });
            if was_some {
                CursorChange::Moved
            } else {
                CursorChange::Inserted
            }
        },
        None => {
            if cursor.is_some() {
                *cursor = None;
                CursorChange::Removed
            } else {
                CursorChange::Unchanged
            }
        },
    }
}

/// Selected tiles that have no cursor among `existing` yet.
pub open spec fn without_cursor(existing: Seq<Hex>) -> spec_fn(Hex) -> bool {
    |h: Hex| !existing.contains(h)
}

/// Which tile cursors stay and which are added for this frame's selected tiles:
/// an existing cursor stays where its tile is selected, and each selected tile
/// without a cursor gets one.
pub fn tile_cursor_changes(existing: &Vec<Hex>, selection: &Vec<Hex>) -> (r: (Vec<bool>, Vec<Hex>))
    ensures
        r.0@.len() == existing@.len(),
        forall|i: int| 0 <= i < existing@.len() ==> r.0@[i] == selection@.contains(#[trigger] existing@[i]),
        r.1@ == selection@.filter(without_cursor(existing@)),
{
    let mut keep: Vec<bool> = Vec::new();
    let mut i: usize = 0;
    while i < existing.len()
        invariant
            i <= existing@.len(),
            keep@.len() == i,
            forall|k: int| 0 <= k < i ==> keep@[k] == selection@.contains(#[trigger] existing@[k]),
        decreases existing@.len() - i,
    {
        keep.push(tiles_contain(selection, existing[i]));
        i = i + 1;
    }
    let mut spawn: Vec<Hex> = Vec::new();
    let mut j: usize = 0;
    while j < selection.len()
        invariant
            j <= selection@.len(),
            spawn@ == selection@.subrange(0, j as int).filter(without_cursor(existing@)),
        decreases selection@.len() - j,
    {
        let h = selection[j];
        proof {
            reveal(Seq::filter);
            assert(selection@.subrange(0, j as int + 1).drop_last() == selection@.subrange(
                0,
                j as int,
            ));
            assert(selection@.subrange(0, j as int + 1).last() == h);
        }
        if !tiles_contain(existing, h) {
            spawn.push(h);
        }
        j = j + 1;
    }
    proof {
        assert(selection@.subrange(0, selection@.len() as int) == selection@);
    }
    (keep, spawn)
}

} // verus!
