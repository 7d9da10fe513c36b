//! How the client's combat data and combat state follow the server's combat
//! events.
use vstd::prelude::*;
use crate::hex::Hex;
use crate::combat::{ActorId, CombatData, CombatTurn, CombatUnit, PlaceUnitTurn, UnitId, UnitTurn};
use crate::states::CombatState;

verus! {

/// The state the client waits in while `owner`'s unit acts: its own turn when
/// the unit is the local player's, else waiting for the other player.
pub open spec fn turn_state_for(owner: ActorId, local: ActorId) -> CombatState {
    if owner == local {
        CombatState::ThisPlayerUnitTurn
    } else {
        CombatState::WaitingForOtherPlayer
    }
}

/// Each tile in the position index holds a unit that stands there, and each
/// unit stands on a tile that the index gives to it.
pub open spec fn positions_consistent(
    units: Map<UnitId, CombatUnit>,
    positions: Map<Hex, UnitId>,
) -> bool {
    &&& forall|h: Hex| #[trigger]
        positions.contains_key(h) ==> units.contains_key(positions[h])
            && units[positions[h]].position == h
    &&& forall|id: UnitId| #[trigger]
        units.contains_key(id) ==> positions.contains_key(units[id].position)
            && positions[units[id].position] == id
}

/// The server gave `player` the turn to place a unit: the turn becomes that
/// placement, and the client places a unit itself if `player` is the local
/// player, else waits for the other player.
pub fn on_player_turn_to_place_unit(data: &mut CombatData, player: ActorId, local: ActorId) -> (r:
    CombatState)
    ensures
        final(data).current_turn == CombatTurn::PlaceUnit(PlaceUnitTurn { player_id: player }),
        final(data).units == old(data).units,
        final(data).unit_positions == old(data).unit_positions,
        r == (if player == local {
            CombatState::PlaceUnit
        } else {
            CombatState::WaitingForOtherPlayer
        }),
{
    data.current_turn = CombatTurn::place_unit(player);
    if player == local {
        CombatState::PlaceUnit
    } else {
        CombatState::WaitingForOtherPlayer
    }
}

/// What the client does when a unit's turn starts.
#[derive(Clone, Copy, Debug, PartialEq, Eq, Structural)]
pub struct UnitTurnStart {
    /// The combat state to switch to.
    pub state: CombatState,
    /// The tile to mark as the active unit's.
    pub active_tile: Hex,
}

/// The server started the turn of `unit_id`; `locally_computed_next` is the
/// unit the client's own turn order puts next. Returns whether both agree, and,
/// where the combat has that unit, the state to switch to (by the unit's owner)
/// and the tile to mark; `None` where the unit is unknown.
pub fn on_start_unit_turn(
    data: &CombatData,
    unit_id: UnitId,
    locally_computed_next: UnitId,
    local: ActorId,
) -> (r: (bool, Option<UnitTurnStart>))
    requires
        data.wf(),
    ensures
        r.0 == (locally_computed_next == unit_id),
        r.1 == (if data.unit_map().contains_key(unit_id) {
            Some(
                UnitTurnStart {
                    state: turn_state_for(data.unit_map()[unit_id].owner, local),
                    active_tile: data.unit_map()[unit_id].position,
                },
            )
        } else {
            None::<UnitTurnStart>
        }),
{
    let in_sync = locally_computed_next == unit_id;
    match data.get_unit(unit_id) {
        None => (in_sync, None),
        Some(unit) => {
            let state = if unit.owner == local {
                CombatState::ThisPlayerUnitTurn
            } else {
                CombatState::WaitingForOtherPlayer
            };
            (in_sync, Some(UnitTurnStart { state, active_tile: unit.position }))
        },
    }
}

/// The server placed `unit` on the map: the combat records the unit and the
/// tile it stands on, and the client waits for the server.
pub fn on_server_placed_unit(data: &mut CombatData, unit: CombatUnit) -> (r: CombatState)
    requires
        old(data).wf(),
    ensures
        final(data).wf(),
        final(data).position_map() == old(data).position_map().insert(unit.position, unit.id),
        final(data).unit_map() == old(data).unit_map().insert(unit.id, unit),
        final(data).current_turn == old(data).current_turn,
        r == CombatState::WaitingForServer,
{
    data.insert_position(unit.position, unit.id);
    data.insert_unit(unit);
    CombatState::WaitingForServer
}

/// The unit turn in `turn`, assumed to be one.
pub open spec fn unit_turn_of(turn: CombatTurn) -> UnitTurn {
    match turn {
        CombatTurn::UnitTurn(t) => t,
        _ => arbitrary(),
    }
}

/// Movement points a path of `len` tiles uses up: one per step, counted in
/// `u8` as the client does (the length is truncated to 8 bits).
pub open spec fn path_cost(len: nat) -> int {
    (len as u8) - 1
}

/// The server moved the active unit along `path` (start to end). The tile index
/// forgets the start and records the unit on the end, the unit's position
/// becomes the end, its turn loses one movement point per step, and the client
/// waits in the state its owner calls for. Returns that state and the tile to
/// mark as the active unit's.
pub fn on_move_unit(data: &mut CombatData, path: &Vec<Hex>, local: ActorId) -> (r: (
    CombatState,
    Hex,
))
    requires
        old(data).wf(),
        path@.len() >= 2,
        old(data).current_turn is UnitTurn,
        old(data).unit_map().contains_key(unit_turn_of(old(data).current_turn).unit_id),
        path_cost(path@.len()) >= 0,
        unit_turn_of(old(data).current_turn).remaining_movement >= path_cost(path@.len()),
    ensures
        ({
            let turn = unit_turn_of(old(data).current_turn);
            let start = path@[0];
            let end = path@[path@.len() - 1];
            let unit = old(data).unit_map()[turn.unit_id];
            &&& final(data).wf()
            &&& final(data).position_map() == old(data).position_map().remove(start).insert(
                end,
                turn.unit_id,
            )
            &&& final(data).unit_map() == old(data).unit_map().insert(
                turn.unit_id,
                CombatUnit { position: end, ..unit },
            )
            &&& final(data).current_turn == CombatTurn::UnitTurn(
                UnitTurn {
                    remaining_movement: (turn.remaining_movement - path_cost(path@.len())) as u8,
                    ..turn
                },
            )
            &&& r == (turn_state_for(unit.owner, local), end)
        }),
{
    let old_pos = path[0];
    let new_pos = path[path.len() - 1];
    let turn = match data.current_turn {
        CombatTurn::UnitTurn(t) => t,
        _ => {
            proof {
                assert(false);
            }
            return (CombatState::WaitingForServer, new_pos);
        },
    };
    let unit_id = turn.unit_id;
    data.remove_position(old_pos);
    data.insert_position(new_pos, unit_id);
    let cost: u8 = (path.len() as u8) - 1;
    data.current_turn = CombatTurn::UnitTurn(
        UnitTurn { remaining_movement: turn.remaining_movement - cost, ..turn },
    );
    let unit = match data.get_unit(unit_id) {
        Some(u) => u,
        None => {
            proof {
                assert(false);
            }
            return (CombatState::WaitingForServer, new_pos);
        },
    };
    let moved = CombatUnit { position: new_pos, ..unit };
    data.insert_unit(moved);
    let state = if moved.owner == local {
        CombatState::ThisPlayerUnitTurn
    } else {
        CombatState::WaitingForOtherPlayer
    };
    (state, moved.position)
}

/// Placing a unit with a new id on a free tile keeps the tile index consistent
/// with the units.
pub proof fn lemma_placement_keeps_positions_consistent(
    units: Map<UnitId, CombatUnit>,
    positions: Map<Hex, UnitId>,
    unit: CombatUnit,
)
    requires
        positions_consistent(units, positions),
        !units.contains_key(unit.id),
        !positions.contains_key(unit.position),
    ensures
        positions_consistent(
            units.insert(unit.id, unit),
            positions.insert(unit.position, unit.id),
        ),
{
    let u2 = units.insert(unit.id, unit);
    let p2 = positions.insert(unit.position, unit.id);
    assert forall|h: Hex| #[trigger] p2.contains_key(h) implies u2.contains_key(p2[h])
        && u2[p2[h]].position == h by {
        if h != unit.position {
            assert(positions.contains_key(h));
            assert(units.contains_key(positions[h]));
        }
    }
    assert forall|id: UnitId| #[trigger] u2.contains_key(id) implies p2.contains_key(
        u2[id].position,
    ) && p2[u2[id].position] == id by {
        if id != unit.id {
            assert(units.contains_key(id));
            assert(positions.contains_key(units[id].position));
        }
    }
}

/// Moving a unit from the tile it stands on to a free tile (or back onto its
/// own) keeps the tile index consistent with the units.
pub proof fn lemma_move_keeps_positions_consistent(
    units: Map<UnitId, CombatUnit>,
    positions: Map<Hex, UnitId>,
    id: UnitId,
    start: Hex,
    end: Hex,
)
    requires
        positions_consistent(units, positions),
        units.contains_key(id),
        units[id].position == start,
        !positions.contains_key(end) || end == start,
    ensures
        positions_consistent(
            units.insert(id, CombatUnit { position: end, ..units[id] }),
            positions.remove(start).insert(end, id),
        ),
{
    let u2 = units.insert(id, CombatUnit { position: end, ..units[id] });
    let p2 = positions.remove(start).insert(end, id);
    assert forall|h: Hex| #[trigger] p2.contains_key(h) implies u2.contains_key(p2[h])
        && u2[p2[h]].position == h by {
        if h != end {
            assert(h != start);
            assert(positions.contains_key(h));
            let other = positions[h];
            assert(units.contains_key(other));
            if other == id {
                assert(units[id].position == h);
            }
        }
    }
    assert forall|j: UnitId| #[trigger] u2.contains_key(j) implies p2.contains_key(
        u2[j].position,
    ) && p2[u2[j].position] == j by {
        if j != id {
            assert(units.contains_key(j));
            let h = units[j].position;
            assert(positions.contains_key(h) && positions[h] == j);
            if h == start {
                assert(positions[start] == id);
            }
            if h == end {
                assert(positions.contains_key(end));
                assert(end == start);
                assert(positions[start] == id);
            }
        }
    }
}

/// One hit of a skill: the unit hit and the physical damage dealt.
#[derive(Clone, Copy, Debug, PartialEq, Eq, Hash, Structural)]
pub struct SkillHit {
    pub target_unit_id: UnitId,
    pub physical_damage: u32,
}

/// Hit points left after taking `damage`: never below zero.
pub open spec fn hp_after_hit(hp: u32, damage: u32) -> u32 {
    if hp < damage {
        0
    } else {
        (hp - damage) as u32
    }
}

/// The units after the hits in `hits` have been dealt in order.
pub open spec fn apply_hits(units: Map<UnitId, CombatUnit>, hits: Seq<SkillHit>) -> Map<
    UnitId,
    CombatUnit,
>
    decreases hits.len(),
{
    if hits.len() == 0 {
        units
    } else {
        let before = apply_hits(units, hits.drop_last());
        let hit = hits.last();
        let target = before[hit.target_unit_id];
        before.insert(
            hit.target_unit_id,
            CombatUnit { hp: hp_after_hit(target.hp, hit.physical_damage), ..target },
        )
    }
}

/// The units that a hit in `hits` fells with more damage than they had hit
/// points left (in the order of the hits): their sprites turn into fallen ones.
pub open spec fn felled_by_hits(units: Map<UnitId, CombatUnit>, hits: Seq<SkillHit>) -> Seq<
    UnitId,
>
    decreases hits.len(),
{
    if hits.len() == 0 {
        Seq::empty()
    } else {
        let before = apply_hits(units, hits.drop_last());
        let hit = hits.last();
        let earlier = felled_by_hits(units, hits.drop_last());
        if before[hit.target_unit_id].hp < hit.physical_damage {
            earlier.push(hit.target_unit_id)
        } else {
            earlier
        }
    }
}

/// Every hit of `hits` targets a unit of `units`.
pub open spec fn hits_known_units(units: Map<UnitId, CombatUnit>, hits: Seq<SkillHit>) -> bool {
    forall|i: int| 0 <= i < hits.len() ==> units.contains_key(#[trigger] hits[i].target_unit_id)
}

/// Dealing hits to known units keeps the set of units, their ids, owners and
/// positions, and never raises hit points.
pub proof fn lemma_apply_hits_only_lowers_hp(units: Map<UnitId, CombatUnit>, hits: Seq<SkillHit>)
    requires
        hits_known_units(units, hits),
    ensures
        apply_hits(units, hits).dom() == units.dom(),
        forall|id: UnitId| #[trigger]
            units.contains_key(id) ==> apply_hits(units, hits)[id].hp <= units[id].hp
                && apply_hits(units, hits)[id].position == units[id].position
                && apply_hits(units, hits)[id].owner == units[id].owner
                && apply_hits(units, hits)[id].id == units[id].id,
    decreases hits.len(),
{
    if hits.len() > 0 {
        let rest = hits.drop_last();
        assert(hits_known_units(units, rest)) by {
            assert forall|i: int| 0 <= i < rest.len() implies units.contains_key(
                #[trigger] rest[i].target_unit_id,
            ) by {
                assert(rest[i] == hits[i]);
            }
        }
        lemma_apply_hits_only_lowers_hp(units, rest);
        assert(units.contains_key(hits[hits.len() - 1].target_unit_id));
        assert(apply_hits(units, hits).dom() =~= units.dom());
    }
}

/// Dealing a skill's hits never moves a unit, so it keeps the tile index
/// consistent with the units.
pub proof fn lemma_hits_keep_positions_consistent(
    units: Map<UnitId, CombatUnit>,
    positions: Map<Hex, UnitId>,
    hits: Seq<SkillHit>,
)
    requires
        positions_consistent(units, positions),
        hits_known_units(units, hits),
    ensures
        positions_consistent(apply_hits(units, hits), positions),
{
    lemma_apply_hits_only_lowers_hp(units, hits);
}

/// The server reports that the active unit used a skill with `hits`. Each hit
/// lowers its target's hit points by the damage, down to zero at most; the
/// active unit's turn loses one action; the client waits in the state the
/// active unit's owner calls for. Returns that state, the units that a hit
/// felled (in hit order) and the active unit's id.
pub fn on_use_skill(data: &mut CombatData, hits: &Vec<SkillHit>, local: ActorId) -> (r: (
    CombatState,
    Vec<UnitId>,
    UnitId,
))
    requires
        old(data).wf(),
        hits_known_units(old(data).unit_map(), hits@),
        old(data).current_turn is UnitTurn,
        unit_turn_of(old(data).current_turn).remaining_actions >= 1,
        old(data).unit_map().contains_key(unit_turn_of(old(data).current_turn).unit_id),
    ensures
        ({
            let turn = unit_turn_of(old(data).current_turn);
            let after = apply_hits(old(data).unit_map(), hits@);
            &&& final(data).wf()
            &&& final(data).unit_map() == after
            &&& final(data).position_map() == old(data).position_map()
            &&& final(data).current_turn == CombatTurn::UnitTurn(
                UnitTurn { remaining_actions: (turn.remaining_actions - 1) as u8, ..turn },
            )
            &&& r.0 == turn_state_for(after[turn.unit_id].owner, local)
            &&& r.1@ == felled_by_hits(old(data).unit_map(), hits@)
            &&& r.2 == turn.unit_id
        }),
{
    let ghost units0 = data.unit_map();
    let mut felled: Vec<UnitId> = Vec::new();
    let mut i: usize = 0;
    while i < hits.len()
        invariant
            data.wf(),
            i <= hits@.len(),
            hits_known_units(units0, hits@),
            data.unit_map() == apply_hits(units0, hits@.subrange(0, i as int)),
            felled@ == felled_by_hits(units0, hits@.subrange(0, i as int)),
            data.position_map() == old(data).position_map(),
            data.current_turn == old(data).current_turn,
        decreases hits@.len() - i,
    {
        let hit = hits[i];
        let ghost done = hits@.subrange(0, i as int);
        let ghost next = hits@.subrange(0, i as int + 1);
        proof {
            assert(next.drop_last() =~= done);
            assert(hits_known_units(units0, done)) by {
                assert forall|k: int| 0 <= k < done.len() implies units0.contains_key(
                    #[trigger] done[k].target_unit_id,
                ) by {
                    assert(done[k] == hits@[k]);
                }
            }
            lemma_apply_hits_only_lowers_hp(units0, done);
            assert(units0.contains_key(hits@[i as int].target_unit_id));
        }
        let target = match data.get_unit(hit.target_unit_id) {
            Some(u) => u,
            None => {
                proof {
                    assert(false);
                }
                return (CombatState::WaitingForServer, felled, 0);
            },
        };
        let new_hp: u32 = if target.hp < hit.physical_damage {
            felled.push(hit.target_unit_id);
            0
        } else {
            target.hp - hit.physical_damage
        };
        data.insert_unit(CombatUnit { hp: new_hp, ..target });
        i = i + 1;
    }
    proof {
        assert(hits@.subrange(0, hits@.len() as int) =~= hits@);
        lemma_apply_hits_only_lowers_hp(units0, hits@);
    }
    let turn = match data.current_turn {
        CombatTurn::UnitTurn(t) => t,
        _ => {
            proof {
                assert(false);
            }
            return (CombatState::WaitingForServer, felled, 0);
        },
    };
    data.current_turn = CombatTurn::UnitTurn(
        UnitTurn { remaining_actions: turn.remaining_actions - 1, ..turn },
    );
    let unit = match data.get_unit(turn.unit_id) {
        Some(u) => u,
        None => {
            proof {
                assert(false);
            }
            return (CombatState::WaitingForServer, felled, turn.unit_id);
        },
    };
    let state = if unit.owner == local {
        CombatState::ThisPlayerUnitTurn
    } else {
        CombatState::WaitingForOtherPlayer
    };
    (state, felled, turn.unit_id)
}

/// A hit takes its damage off its target's hit points, stopping at 0: a hit
/// the target survives lowers its hit points by exactly the damage, a larger
/// hit leaves 0, so the hit points lost are the smaller of the hit points and
/// the damage. Only a hit larger than the hit points fells the target, and no
/// other unit, and nothing else of the target, changes.
pub proof fn lemma_hit_deals_its_damage(units: Map<UnitId, CombatUnit>, hit: SkillHit)
    requires
        units.contains_key(hit.target_unit_id),
    ensures
        ({
            let id = hit.target_unit_id;
            let before = units[id];
            let after = apply_hits(units, seq![hit]);
            &&& after.dom() == units.dom()
            &&& before.hp >= hit.physical_damage ==> after[id].hp == before.hp - hit.physical_damage
            &&& before.hp < hit.physical_damage ==> after[id].hp == 0
            &&& before.hp - after[id].hp == if before.hp < hit.physical_damage {
                before.hp as int
            } else {
                hit.physical_damage as int
            }
            &&& after[id].id == before.id && after[id].owner == before.owner && after[id].position
                == before.position
            &&& forall|other: UnitId| #[trigger]
                units.contains_key(other) && other != id ==> after[other] == units[other]
            &&& felled_by_hits(units, seq![hit]) == if before.hp < hit.physical_damage {
                seq![id]
            } else {
                Seq::<UnitId>::empty()
            }
        }),
{
    let hits = seq![hit];
    let none = Seq::<SkillHit>::empty();
    assert(hits.drop_last() =~= none);
    assert(apply_hits(units, none) == units);
    assert(felled_by_hits(units, none) == Seq::<UnitId>::empty());
    assert(hits.last() == hit);
    let target = units[hit.target_unit_id];
    let after = units.insert(
        hit.target_unit_id,
        CombatUnit { hp: hp_after_hit(target.hp, hit.physical_damage), ..target },
    );
    assert(apply_hits(units, hits) == after);
    assert(after.dom() =~= units.dom());
    assert(Seq::<UnitId>::empty().push(hit.target_unit_id) =~= seq![hit.target_unit_id]);
}

} // verus!
