//! Choosing which of the player's units to place next at the start of a
//! combat.
use vstd::prelude::*;
use crate::hex::Hex;
use crate::combat::{CombatData, UnitId};

verus! {

/// Which of the player's units is selected for placement: its index in the
/// player's unit list.
#[derive(Clone, Copy, Debug, PartialEq, Eq, Structural)]
pub struct CurrentlyPlacedUnit {
    pub array_index: usize,
}

/// Asks the server to place a unit on a tile.
#[derive(Clone, Copy, Debug, PartialEq, Eq, Structural)]
pub struct PlaceUnitRequest {
    pub unit_id: UnitId,
    pub hex: Hex,
}

/// The unit at `index` of the player's list already stands in the combat.
pub open spec fn unit_placed(data: CombatData, units: Seq<UnitId>, index: int) -> bool {
    data.unit_map().contains_key(units[index])
}

/// Some unit of the player's list is not placed yet.
pub open spec fn some_unit_unplaced(data: CombatData, units: Seq<UnitId>) -> bool {
    exists|j: int| 0 <= j < units.len() && !#[trigger] unit_placed(data, units, j)
}

/// One step forward through the list, wrapping to the front.
pub open spec fn step_forward(index: int, len: int) -> int {
    if index + 1 >= len {
        0
    } else {
        index + 1
    }
}

/// One step back through the list, wrapping to the end.
pub open spec fn step_back(index: int, len: int) -> int {
    if index == 0 {
        len - 1
    } else {
        index - 1
    }
}

/// Steps forward from `from` to `to` (both in the list), wrapping around.
pub open spec fn forward_offset(from: int, to: int, len: int) -> int {
    if to >= from {
        to - from
    } else {
        to - from + len
    }
}

/// Steps back from `from` to `to` (both in the list), wrapping around.
pub open spec fn backward_offset(from: int, to: int, len: int) -> int {
    if to <= from {
        from - to
    } else {
        from - to + len
    }
}

/// `r` is the first unplaced unit met going forward from the one after `index`.
pub open spec fn is_next_unplaced(data: CombatData, units: Seq<UnitId>, index: int, r: int) -> bool {
    let start = step_forward(index, units.len() as int);
    &&& 0 <= r < units.len()
    &&& !unit_placed(data, units, r)
    &&& forall|j: int|
        0 <= j < units.len() && forward_offset(start, j, units.len() as int) < forward_offset(
            start,
            r,
            units.len() as int,
        ) ==> #[trigger] unit_placed(data, units, j)
}

/// `r` is the first unplaced unit met going back from the one before `index`.
pub open spec fn is_previous_unplaced(data: CombatData, units: Seq<UnitId>, index: int, r: int) -> bool {
    let start = step_back(index, units.len() as int);
    &&& 0 <= r < units.len()
    &&& !unit_placed(data, units, r)
    &&& forall|j: int|
        0 <= j < units.len() && backward_offset(start, j, units.len() as int) < backward_offset(
            start,
            r,
            units.len() as int,
        ) ==> #[trigger] unit_placed(data, units, j)
}

/// Whether the unit at `index` of the player's list already stands in the
/// combat.
pub fn is_unit_already_placed(data: &CombatData, units: &Vec<UnitId>, index: usize) -> (r: bool)
    requires
        data.wf(),
        index < units@.len(),
    ensures
        r == unit_placed(*data, units@, index as int),
{
    data.find_unit(units[index]).is_some()
}

/// Whether some unit of the player's list still waits to be placed.
pub fn has_unplaced_unit(data: &CombatData, units: &Vec<UnitId>) -> (r: bool)
    requires
        data.wf(),
    ensures
        r == some_unit_unplaced(*data, units@),
{
    let mut i: usize = 0;
    while i < units.len()
        invariant
            data.wf(),
            i <= units@.len(),
            forall|j: int| 0 <= j < i ==> #[trigger] unit_placed(*data, units@, j),
        decreases units@.len() - i,
    {
        if !is_unit_already_placed(data, units, i) {
            assert(!unit_placed(*data, units@, i as int));
            return true;
        }
        i = i + 1;
    }
    false
}

/// The next unit to place after the one at `index` (or the first one, for
/// `index` equal to the list's length): the first unplaced unit going forward,
/// wrapping around.
pub fn get_next_unplaced_unit_index(data: &CombatData, units: &Vec<UnitId>, index: usize) -> (r:
    usize)
    requires
        data.wf(),
        index <= units@.len(),
        some_unit_unplaced(*data, units@),
    ensures
        is_next_unplaced(*data, units@, index as int, r as int),
{
    let n = units.len();
    let ghost len = n as int;
    let ghost w = choose|j: int| 0 <= j < units@.len() && !#[trigger] unit_placed(*data, units@, j);
    assert(n >= 1);
    let start: usize = if index >= n - 1 {
        0
    } else {
        index + 1
    };
    let mut result: usize = start;
    while is_unit_already_placed(data, units, result)
        invariant
            data.wf(),
            n == units@.len(),
            len == n,
            0 <= w < len,
            !unit_placed(*data, units@, w),
            start as int == step_forward(index as int, len),
            start < n,
            result < n,
            forward_offset(start as int, result as int, len) <= forward_offset(start as int, w, len),
            forall|j: int|
                0 <= j < len && forward_offset(start as int, j, len) < forward_offset(
                    start as int,
                    result as int,
                    len,
                ) ==> #[trigger] unit_placed(*data, units@, j),
        decreases forward_offset(start as int, w, len) - forward_offset(
            start as int,
            result as int,
            len,
        ),
    {
        assert(result as int != w);
        result = if result + 1 >= n {
            0
        } else {
            result + 1
        };
    }
    result
}

/// The previous unit to place before the one at `index`: the first unplaced
/// unit going back, wrapping around.
pub fn get_previous_unplaced_unit_index(data: &CombatData, units: &Vec<UnitId>, index: usize) -> (r:
    usize)
    requires
        data.wf(),
        index < units@.len(),
        some_unit_unplaced(*data, units@),
    ensures
        is_previous_unplaced(*data, units@, index as int, r as int),
{
    let n = units.len();
    let ghost len = n as int;
    let ghost w = choose|j: int| 0 <= j < units@.len() && !#[trigger] unit_placed(*data, units@, j);
    let start: usize = if index == 0 {
        n - 1
    } else {
        index - 1
    };
    let mut result: usize = start;
    while is_unit_already_placed(data, units, result)
        invariant
            data.wf(),
            n == units@.len(),
            len == n,
            0 <= w < len,
            !unit_placed(*data, units@, w),
            start as int == step_back(index as int, len),
            start < n,
            result < n,
            backward_offset(start as int, result as int, len) <= backward_offset(
                start as int,
                w,
                len,
            ),
            forall|j: int|
                0 <= j < len && backward_offset(start as int, j, len) < backward_offset(
                    start as int,
                    result as int,
                    len,
                ) ==> #[trigger] unit_placed(*data, units@, j),
        decreases backward_offset(start as int, w, len) - backward_offset(
            start as int,
            result as int,
            len,
        ),
    {
        assert(result as int != w);
        result = if result == 0 {
            n - 1
        } else {
            result - 1
        };
    }
    result
}

/// Going back to the previous unplaced unit and then forward to the next one
/// returns to the unplaced unit one started from.
pub proof fn lemma_next_after_previous(
    data: CombatData,
    units: Seq<UnitId>,
    index: int,
    previous: int,
    next: int,
)
    requires
        0 <= index < units.len(),
        !unit_placed(data, units, index),
        is_previous_unplaced(data, units, index, previous),
        is_next_unplaced(data, units, previous, next),
    ensures
        next == index,
{
    let len = units.len() as int;
    let b = step_back(index, len);
    let f = step_forward(previous, len);
    if next != index {
        if forward_offset(f, index, len) < forward_offset(f, next, len) {
            assert(unit_placed(data, units, index));
        } else {
            assert(forward_offset(f, next, len) < forward_offset(f, index, len));
            assert(backward_offset(b, next, len) < backward_offset(b, previous, len));
            assert(unit_placed(data, units, next));
        }
    }
}

/// Going forward to the next unplaced unit and then back to the previous one
/// returns to the unplaced unit one started from.
pub proof fn lemma_previous_after_next(
    data: CombatData,
    units: Seq<UnitId>,
    index: int,
    next: int,
    previous: int,
)
    requires
        0 <= index < units.len(),
        !unit_placed(data, units, index),
        is_next_unplaced(data, units, index, next),
        is_previous_unplaced(data, units, next, previous),
    ensures
        previous == index,
{
    let len = units.len() as int;
    let f = step_forward(index, len);
    let b = step_back(next, len);
    if previous != index {
        if backward_offset(b, index, len) < backward_offset(b, previous, len) {
            assert(unit_placed(data, units, index));
        } else {
            assert(backward_offset(b, previous, len) < backward_offset(b, index, len));
            assert(forward_offset(f, previous, len) < forward_offset(f, next, len));
            assert(unit_placed(data, units, previous));
        }
    }
}

/// Handles the placement keys of one frame: the next-unit key selects the next
/// unplaced unit, else the previous-unit key the previous one, else a click on
/// a tile under the cursor asks to place the selected unit there.
pub fn on_placement_input(
    data: &CombatData,
    units: &Vec<UnitId>,
    current: &mut CurrentlyPlacedUnit,
    next_pressed: bool,
    previous_pressed: bool,
    select_pressed: bool,
    cursor: Option<Hex>,
) -> (r: Option<PlaceUnitRequest>)
    requires
        data.wf(),
        old(current).array_index < units@.len(),
        some_unit_unplaced(*data, units@),
    ensures
        final(current).array_index < units@.len(),
        next_pressed ==> r is None && is_next_unplaced(
            *data,
            units@,
            old(current).array_index as int,
            final(current).array_index as int,
        ),
        !next_pressed && previous_pressed ==> r is None && is_previous_unplaced(
            *data,
            units@,
            old(current).array_index as int,
            final(current).array_index as int,
        ),
        !next_pressed && !previous_pressed ==> *final(current) == *old(current) && r == (
        if select_pressed && cursor is Some {
            Some(
                PlaceUnitRequest {
                    unit_id: units@[old(current).array_index as int],
                    hex: cursor.unwrap(),
                },
            )
        } else {
            None::<PlaceUnitRequest>
        }),
{
    if next_pressed {
        current.array_index = get_next_unplaced_unit_index(data, units, current.array_index);
        None
    } else if previous_pressed {
        current.array_index = get_previous_unplaced_unit_index(data, units, current.array_index);
        None
    } else if select_pressed {
        match cursor {
            Some(hex) => Some(PlaceUnitRequest { unit_id: units[current.array_index], hex }),
            None => None,
        }
    } else {
        None
    }
}

} // verus!
