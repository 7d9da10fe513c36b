//! The client's copy of a combat: units, who stands where, and whose turn it is.
use vstd::prelude::*;
use crate::hex::Hex;
use crate::keyed::{
    has_key, index_of_key, key_map, lemma_index_of_key, lemma_push, lemma_remove, lemma_update,
    unique_keys,
};

verus! {

/// Identifies a unit within a combat.
pub type UnitId = u32;

/// Identifies a player (an actor that owns units).
pub type ActorId = u32;

/// Identifies a skill.
pub type SkillId = u32;

/// A unit taking part in a combat, as far as the combat rules read it.
#[derive(Clone, Copy, Debug, PartialEq, Eq, Hash, Structural)]
pub struct CombatUnit {
    pub id: UnitId,
    pub owner: ActorId,
    pub hp: u32,
    pub position: Hex,
}

/// The unit standing on a tile.
#[derive(Clone, Copy, Debug, PartialEq, Eq, Hash, Structural)]
pub struct UnitPosition {
    pub hex: Hex,
    pub unit_id: UnitId,
}

/// A player's turn to place a unit.
#[derive(Clone, Copy, Debug, PartialEq, Eq, Hash, Structural)]
pub struct PlaceUnitTurn {
    pub player_id: ActorId,
}

/// A unit's turn, with the movement and actions it has left.
#[derive(Clone, Copy, Debug, PartialEq, Eq, Hash, Structural)]
pub struct UnitTurn {
    pub unit_id: UnitId,
    pub remaining_movement: u8,
    pub remaining_actions: u8,
}

/// Whose turn it is.
#[derive(Clone, Copy, Debug, PartialEq, Eq, Hash, Structural)]
pub enum CombatTurn {
    Undefined,
    PlaceUnit(PlaceUnitTurn),
    UnitTurn(UnitTurn),
}

impl CombatTurn {
    /// The turn in which `player_id` places a unit.
    pub fn place_unit(player_id: ActorId) -> (r: CombatTurn)
        ensures
            r == CombatTurn::PlaceUnit(PlaceUnitTurn { player_id }),
    {
        CombatTurn::PlaceUnit(PlaceUnitTurn { player_id })
    }

    /// The unit turn, if this is one.
    pub fn as_unit_turn(&self) -> (r: Option<UnitTurn>)
        ensures
            r == (match *self {
                CombatTurn::UnitTurn(t) => Some(t),
                _ => None::<UnitTurn>,
            }),
    {
        match self {
            CombatTurn::UnitTurn(t) => Some(*t),
            _ => None,
        }
    }
}

/// Key of a unit record: its id.
pub open spec fn unit_key() -> spec_fn(CombatUnit) -> UnitId {
    |u: CombatUnit| u.id
}

/// Key of a position record: its tile.
pub open spec fn position_key() -> spec_fn(UnitPosition) -> Hex {
    |p: UnitPosition| p.hex
}

/// The combat as the client knows it.
#[derive(Clone, Debug)]
pub struct CombatData {
    pub units: Vec<CombatUnit>,
    pub unit_positions: Vec<UnitPosition>,
    pub current_turn: CombatTurn,
}

impl CombatData {
    /// Unit ids and occupied tiles each occur at most once.
    pub open spec fn wf(&self) -> bool {
        &&& unique_keys(self.units@, unit_key())
        &&& unique_keys(self.unit_positions@, position_key())
    }

    /// The units by id.
    pub open spec fn unit_map(&self) -> Map<UnitId, CombatUnit> {
        key_map(self.units@, unit_key())
    }

    /// The occupied tiles, each with the id of the unit on it.
    pub open spec fn position_map(&self) -> Map<Hex, UnitId> {
        key_map(self.unit_positions@, position_key()).map_values(|p: UnitPosition| p.unit_id)
    }

    /// A combat without units, at an undefined turn.
    pub fn new() -> (r: CombatData)
        ensures
            r.wf(),
            r.unit_map() == Map::<UnitId, CombatUnit>::empty(),
            r.position_map() == Map::<Hex, UnitId>::empty(),
            r.current_turn == CombatTurn::Undefined,
    {
        let r = CombatData {
            units: Vec::new(),
            unit_positions: Vec::new(),
            current_turn: CombatTurn::Undefined,
        };
        assert(r.unit_map() =~= Map::<UnitId, CombatUnit>::empty());
        assert(r.position_map() =~= Map::<Hex, UnitId>::empty());
        r
    }

    /// Position of the unit `id` in the unit list.
    pub fn find_unit(&self, id: UnitId) -> (r: Option<usize>)
        requires
            self.wf(),
        ensures
            r is None <==> !self.unit_map().contains_key(id),
            r matches Some(i) ==> i < self.units@.len() && self.units@[i as int].id == id
                && self.unit_map()[id] == self.units@[i as int],
    {
        let mut i: usize = 0;
        while i < self.units.len()
            invariant
                self.wf(),
                i <= self.units@.len(),
                forall|k: int| 0 <= k < i ==> (#[trigger] self.units@[k]).id != id,
            decreases self.units@.len() - i,
        {
            if self.units[i].id == id {
                proof {
                    lemma_index_of_key(self.units@, unit_key(), i as int);
                }
                return Some(i);
            }
            i = i + 1;
        }
        proof {
            if has_key(self.units@, unit_key(), id) {
                let j = index_of_key(self.units@, unit_key(), id);
                assert(self.units@[j].id == id);
            }
        }
        None
    }

    /// The unit `id`, if the combat has it.
    pub fn get_unit(&self, id: UnitId) -> (r: Option<CombatUnit>)
        requires
            self.wf(),
        ensures
            r == (if self.unit_map().contains_key(id) {
                Some(self.unit_map()[id])
            } else {
                None::<CombatUnit>
            }),
    {
        match self.find_unit(id) {
            Some(i) => Some(self.units[i]),
            None => None,
        }
    }

    /// Adds `unit`, replacing the unit with the same id.
    pub fn insert_unit(&mut self, unit: CombatUnit)
        requires
            old(self).wf(),
        ensures
            final(self).wf(),
            final(self).unit_map() == old(self).unit_map().insert(unit.id, unit),
            final(self).unit_positions == old(self).unit_positions,
            final(self).current_turn == old(self).current_turn,
    {
        match self.find_unit(unit.id) {
            Some(i) => {
                proof {
                    lemma_update(self.units@, unit_key(), i as int, unit);
                }
                self.units.set(i, unit);
            },
            None => {
                proof {
                    lemma_push(self.units@, unit_key(), unit);
                }
                self.units.push(unit);
            },
        }
    }

    /// Position of the record for tile `hex` in the position list.
    pub fn find_position(&self, hex: Hex) -> (r: Option<usize>)
        requires
            self.wf(),
        ensures
            r is None <==> !self.position_map().contains_key(hex),
            r matches Some(i) ==> i < self.unit_positions@.len()
                && self.unit_positions@[i as int].hex == hex && self.position_map()[hex]
                == self.unit_positions@[i as int].unit_id,
    {
        let mut i: usize = 0;
        while i < self.unit_positions.len()
            invariant
                self.wf(),
                i <= self.unit_positions@.len(),
                forall|k: int| 0 <= k < i ==> (#[trigger] self.unit_positions@[k]).hex != hex,
            decreases self.unit_positions@.len() - i,
        {
            if self.unit_positions[i].hex == hex {
                proof {
                    lemma_index_of_key(self.unit_positions@, position_key(), i as int);
                }
                return Some(i);
            }
            i = i + 1;
        }
        proof {
            if has_key(self.unit_positions@, position_key(), hex) {
                let j = index_of_key(self.unit_positions@, position_key(), hex);
                assert(self.unit_positions@[j].hex == hex);
            }
        }
        None
    }

    /// The unit standing on `hex`, if any.
    pub fn unit_at(&self, hex: Hex) -> (r: Option<UnitId>)
        requires
            self.wf(),
        ensures
            r == (if self.position_map().contains_key(hex) {
                Some(self.position_map()[hex])
            } else {
                None::<UnitId>
            }),
    {
        match self.find_position(hex) {
            Some(i) => Some(self.unit_positions[i].unit_id),
            None => None,
        }
    }

    /// Records that unit `unit_id` stands on `hex`, replacing what was recorded
    /// for that tile.
    pub fn insert_position(&mut self, hex: Hex, unit_id: UnitId)
        requires
            old(self).wf(),
        ensures
            final(self).wf(),
            final(self).position_map() == old(self).position_map().insert(hex, unit_id),
            final(self).units == old(self).units,
            final(self).current_turn == old(self).current_turn,
    {
        let rec = UnitPosition { hex, unit_id };
        let ghost pre = self.unit_positions@;
        match self.find_position(hex) {
            Some(i) => {
                proof {
                    lemma_update(pre, position_key(), i as int, rec);
                }
                self.unit_positions.set(i, rec);
            },
            None => {
                proof {
                    lemma_push(pre, position_key(), rec);
                }
                self.unit_positions.push(rec);
            },
        }
        assert(self.position_map() =~= old(self).position_map().insert(hex, unit_id));
    }

    /// Forgets what stands on `hex`.
    pub fn remove_position(&mut self, hex: Hex)
        requires
            old(self).wf(),
        ensures
            final(self).wf(),
            final(self).position_map() == old(self).position_map().remove(hex),
            final(self).units == old(self).units,
            final(self).current_turn == old(self).current_turn,
    {
        let ghost pre = self.unit_positions@;
        match self.find_position(hex) {
            Some(i) => {
                proof {
                    lemma_remove(pre, position_key(), i as int);
                }
                self.unit_positions.remove(i);
            },
            None => {},
        }
        assert(self.position_map() =~= old(self).position_map().remove(hex));
    }
}

} // verus!
