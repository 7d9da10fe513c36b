//! Choosing and carrying out the active unit's action during its turn.
use vstd::prelude::*;
use crate::hex::{distance, hex_distance, in_bounds, Hex, COORD_LIMIT};
use crate::map::{fov_tiles, hexx_range_fov, GameMap};
use crate::combat::{SkillId, UnitTurn};
use crate::highlights::{tiles_contain, CursorOnTile, PathHighlights, RangeHighlights};

verus! {

/// The action the active unit is about to carry out.
#[derive(Clone, Copy, Debug, PartialEq, Eq, Hash, Structural)]
pub enum ActiveUnitAction {
    Move,
    UseSkill(SkillId),
}

/// Selects `action`, or deselects it where it is already selected.
#[derive(Clone, Copy, Debug, PartialEq, Eq, Structural)]
pub struct SetOrToggleActiveUnitActionEvent {
    pub action: ActiveUnitAction,
}

/// Ends the local player's unit turn.
#[derive(Clone, Copy, Debug, Default, PartialEq, Eq, Structural)]
pub struct EndTurnCommand;

/// How the selected action changes.
#[derive(Clone, Copy, Debug, PartialEq, Eq, Structural)]
pub enum ActionChange {
    Keep,
    Remove,
    Select(ActiveUnitAction),
}

/// The change that toggle events make to the selected action `current`: if one
/// of them names the selected action, the selection is removed; else the last
/// event's action is selected; without events nothing changes.
pub open spec fn spec_toggle_outcome(
    current: Option<ActiveUnitAction>,
    events: Seq<SetOrToggleActiveUnitActionEvent>,
) -> ActionChange {
    if current is Some && exists|i: int|
        0 <= i < events.len() && (#[trigger] events[i]).action == current.unwrap() {
        ActionChange::Remove
    } else if events.len() > 0 {
        ActionChange::Select(events.last().action)
    } else {
        ActionChange::Keep
    }
}

/// The selected action after a change.
pub open spec fn selection_after(current: Option<ActiveUnitAction>, change: ActionChange) -> Option<
    ActiveUnitAction,
> {
    match change {
        ActionChange::Keep => current,
        ActionChange::Remove => None,
        ActionChange::Select(a) => Some(a),
    }
}

/// Applies the toggle events of one frame to the selected action `current`.
pub fn on_set_or_toggle_action(
    current: Option<ActiveUnitAction>,
    events: &Vec<SetOrToggleActiveUnitActionEvent>,
) -> (r: ActionChange)
    ensures
        r == spec_toggle_outcome(current, events@),
{
    let mut i: usize = 0;
    while i < events.len()
        invariant
            i <= events@.len(),
            current is Some ==> forall|k: int|
                0 <= k < i ==> (#[trigger] events@[k]).action != current.unwrap(),
        decreases events@.len() - i,
    {
        let event = events[i];
        match current {
            Some(action) => {
                if action == event.action {
                    assert(events@[i as int].action == current.unwrap());
                    return ActionChange::Remove;
                }
            },
            None => {},
        }
        i = i + 1;
    }
    if events.len() > 0 {
        ActionChange::Select(events[events.len() - 1].action)
    } else {
        ActionChange::Keep
    }
}

/// Choosing the same action twice in a row leaves it selected only where it was
/// selected before: otherwise the second choice deselects it again.
pub proof fn lemma_toggle_twice(current: Option<ActiveUnitAction>, action: ActiveUnitAction)
    ensures
        ({
            let event = SetOrToggleActiveUnitActionEvent { action };
            let once = selection_after(current, spec_toggle_outcome(current, seq![event]));
            let twice = selection_after(once, spec_toggle_outcome(once, seq![event]));
            &&& current == Some(action) ==> once is None && twice == Some(action)
            &&& current != Some(action) ==> once == Some(action) && twice is None
        }),
{
    let event = SetOrToggleActiveUnitActionEvent { action };
    let s = seq![event];
    assert(s[0].action == action);
    if current is Some && current.unwrap() != action {
        assert(!(exists|i: int| 0 <= i < s.len() && (#[trigger] s[i]).action == current.unwrap()));
    }
}

/// What a key press asks of the combat.
#[derive(Clone, Copy, Debug, PartialEq, Eq, Structural)]
pub enum CombatInputCommand {
    SetOrToggle(SetOrToggleActiveUnitActionEvent),
    EndTurn(EndTurnCommand),
}

/// The command for this frame's key presses: the move key selects moving, else
/// the attack key selects `attack_skill`, else the end-turn key ends the turn.
pub fn change_action_on_input(
    move_pressed: bool,
    attack_pressed: bool,
    end_turn_pressed: bool,
    attack_skill: SkillId,
) -> (r: Option<CombatInputCommand>)
    ensures
        r == (if move_pressed {
            Some(
                CombatInputCommand::SetOrToggle(
                    SetOrToggleActiveUnitActionEvent { action: ActiveUnitAction::Move },
                ),
            )
        } else if attack_pressed {
            Some(
                CombatInputCommand::SetOrToggle(
                    SetOrToggleActiveUnitActionEvent {
                        action: ActiveUnitAction::UseSkill(attack_skill),
                    },
                ),
            )
        } else if end_turn_pressed {
            Some(CombatInputCommand::EndTurn(EndTurnCommand))
        } else {
            None::<CombatInputCommand>
        }),
{
    if move_pressed {
        Some(
            CombatInputCommand::SetOrToggle(
                SetOrToggleActiveUnitActionEvent { action: ActiveUnitAction::Move },
            ),
        )
    } else if attack_pressed {
        Some(
            CombatInputCommand::SetOrToggle(
                SetOrToggleActiveUnitActionEvent { action: ActiveUnitAction::UseSkill(attack_skill) },
            ),
        )
    } else if end_turn_pressed {
        Some(CombatInputCommand::EndTurn(EndTurnCommand))
    } else {
        None
    }
}

/// Which of the turn's buttons can be pressed: moving while movement is left,
/// attacking while actions are left.
pub fn turn_buttons_enabled(turn: &UnitTurn) -> (r: (bool, bool))
    ensures
        r == (turn.remaining_movement > 0, turn.remaining_actions > 0),
{
    (turn.remaining_movement > 0, turn.remaining_actions > 0)
}

/// Distances a skill can reach, counted in tiles from its user.
#[derive(Clone, Copy, Debug, PartialEq, Eq, Hash, Structural)]
pub struct SkillRange {
    pub min: u32,
    pub max: u32,
}

/// Where a skill is aimed.
#[derive(Clone, Copy, Debug, PartialEq, Eq, Hash, Structural)]
pub enum SkillTargeting {
    UserPosition,
    MouseCursor(SkillRange),
}

/// The request a click on a tile sends to the server.
#[derive(Clone, Debug, PartialEq, Eq)]
pub enum ClickCommand {
    MoveUnit(Vec<Hex>),
    UseSkill { id: SkillId, target: Hex },
}

/// The request a click sends while `action` is selected, if any. Nothing is
/// sent without a fresh click or without a tile under the cursor. Moving needs
/// the clicked tile in the shown range and a shown path, and sends that path. A
/// skill aimed with the cursor needs the clicked tile in the shown range; any
/// skill then sends its id and the clicked tile (a skill whose targeting is not
/// given sends nothing). Where a request is sent, the
/// client waits for the server and drops the selected action.
pub fn execute_action_on_click(
    select_just_pressed: bool,
    cursor: Option<&CursorOnTile>,
    action: ActiveUnitAction,
    skill_targeting: Option<SkillTargeting>,
    range_highlights: Option<&RangeHighlights>,
    path_highlights: Option<&PathHighlights>,
) -> (r: Option<ClickCommand>)
    ensures
        !select_just_pressed || cursor is None ==> r is None,
        select_just_pressed && cursor is Some ==> match action {
            ActiveUnitAction::Move => {
                if range_highlights is Some && range_highlights.unwrap().tiles@.contains(
                    cursor.unwrap().hex,
                ) && path_highlights is Some {
                    r matches Some(ClickCommand::MoveUnit(p)) && p@ == path_highlights.unwrap().tiles@
                } else {
                    r is None
                }
            },
            ActiveUnitAction::UseSkill(id) => {
                if skill_targeting is Some && (skill_targeting.unwrap() == SkillTargeting::UserPosition
                    || (range_highlights is Some && range_highlights.unwrap().tiles@.contains(
                    cursor.unwrap().hex,
                ))) {
                    r == Some(ClickCommand::UseSkill { id, target: cursor.unwrap().hex })
                } else {
                    r is None
                }
            },
        },
{
    if !select_just_pressed {
        return None;
    }
    let selected = match cursor {
        Some(c) => c.hex,
        None => {
            return None;
        },
    };
    match action {
        ActiveUnitAction::Move => {
            let range = match range_highlights {
                Some(range) => range,
                None => {
                    return None;
                },
            };
            if !tiles_contain(&range.tiles, selected) {
                return None;
            }
            match path_highlights {
                Some(path) => Some(ClickCommand::MoveUnit(path.tiles.clone())),
                None => None,
            }
        },
        ActiveUnitAction::UseSkill(id) => {
            let targeting = match skill_targeting {
                Some(t) => t,
                None => {
                    return None;
                },
            };
            if targeting != SkillTargeting::UserPosition {
                let range = match range_highlights {
                    Some(range) => range,
                    None => {
                        return None;
                    },
                };
                if !tiles_contain(&range.tiles, selected) {
                    return None;
                }
            }
            Some(ClickCommand::UseSkill { id, target: selected })
        },
    }
}

/// The tile to preview a path to: the tile under the cursor, where there is one
/// and moving is the selected action; otherwise the path preview is removed.
pub fn path_preview_target(cursor: Option<Hex>, action: Option<ActiveUnitAction>) -> (r: Option<
    Hex,
>)
    ensures
        r == (if cursor is Some && action == Some(ActiveUnitAction::Move) {
            cursor
        } else {
            None::<Hex>
        }),
{
    match (cursor, action) {
        (Some(c), Some(ActiveUnitAction::Move)) => Some(c),
        _ => None,
    }
}

/// The skill whose hit tiles to show around the cursor: the selected skill,
/// where a skill is selected and a tile is under the cursor; otherwise the
/// attack highlights are removed.
pub fn attack_highlight_skill(action: Option<ActiveUnitAction>, cursor: Option<Hex>) -> (r: Option<
    SkillId,
>)
    ensures
        r == (match action {
            Some(ActiveUnitAction::UseSkill(id)) => if cursor is Some {
                Some(id)
            } else {
                None::<SkillId>
            },
            _ => None::<SkillId>,
        }),
{
    match (action, cursor) {
        (Some(ActiveUnitAction::UseSkill(id)), Some(_)) => Some(id),
        _ => None,
    }
}

/// Which range preview the selected action calls for.
#[derive(Clone, Copy, Debug, PartialEq, Eq, Structural)]
pub enum RangePreview {
    Remove,
    Movement,
    Skill(SkillId),
}

/// The range preview for the selected action: none without one, the movement
/// range for moving, the skill's range for a skill.
pub fn range_preview_for(action: Option<ActiveUnitAction>) -> (r: RangePreview)
    ensures
        r == (match action {
            None => RangePreview::Remove,
            Some(ActiveUnitAction::Move) => RangePreview::Movement,
            Some(ActiveUnitAction::UseSkill(id)) => RangePreview::Skill(id),
        }),
{
    match action {
        None => RangePreview::Remove,
        Some(ActiveUnitAction::Move) => RangePreview::Movement,
        Some(ActiveUnitAction::UseSkill(id)) => RangePreview::Skill(id),
    }
}

/// The tiles a skill aimed from `center` can target: those of the field of view
/// within `range.max` (where coordinates without a tile block the view) that are
/// at least `range.min` away.
pub open spec fn skill_range_set(center: Hex, range: SkillRange, map: GameMap) -> Set<Hex> {
    fov_tiles(center, range.max, map.tile_set()).filter(
        |h: Hex| hex_distance(h, center) >= range.min,
    )
}

/// Lists the tiles a skill aimed from `center` within `range` can target, each
/// once.
pub fn skill_range_tiles(center: Hex, range: SkillRange, map: &GameMap) -> (r: Vec<Hex>)
    requires
        map.wf(),
        in_bounds(center),
        range.max <= COORD_LIMIT,
    ensures
        r@.to_set() == skill_range_set(center, range, *map),
        r@.no_duplicates(),
{
    let seen = hexx_range_fov(center, range.max, map);
    let mut r: Vec<Hex> = Vec::new();
    let mut i: usize = 0;
    while i < seen.len()
        invariant
            i <= seen@.len(),
            seen@.no_duplicates(),
            r@.no_duplicates(),
            forall|h: Hex|
                r@.contains(h) <==> (exists|k: int|
                    0 <= k < i && #[trigger] seen@[k] == h && hex_distance(h, center)
                        >= range.min),
        decreases seen@.len() - i,
    {
        let h = seen[i];
        if distance(h, center) >= range.min as u64 {
            proof {
                assert forall|k: int| 0 <= k < r@.len() implies r@[k] != h by {
                    let x = r@[k];
                    assert(r@.contains(x));
                    let k2 = choose|k2: int|
                        0 <= k2 < i && #[trigger] seen@[k2] == x && hex_distance(x, center)
                            >= range.min;
                    assert(k2 != i as int);
                }
            }
            let ghost r0 = r@;
            r.push(h);
            proof {
                assert(r@ == r0.push(h));
                assert forall|g: Hex|
                    r@.contains(g) <==> (exists|k: int|
                        0 <= k < i + 1 && #[trigger] seen@[k] == g && hex_distance(g, center)
                            >= range.min) by {
                    if r@.contains(g) {
                        let j = choose|j: int| 0 <= j < r@.len() && r@[j] == g;
                        if j == r0.len() {
                            assert(seen@[i as int] == g);
                        } else {
                            assert(r0[j] == g);
                            assert(r0.contains(g));
                        }
                    }
                    if exists|k: int|
                        0 <= k < i + 1 && #[trigger] seen@[k] == g && hex_distance(g, center)
                            >= range.min {
                        let k = choose|k: int|
                            0 <= k < i + 1 && #[trigger] seen@[k] == g && hex_distance(g, center)
                                >= range.min;
                        if k == i as int {
                            assert(r@[r0.len() as int] == g);
                        } else {
                            assert(r0.contains(g));
                            let j = choose|j: int| 0 <= j < r0.len() && r0[j] == g;
                            assert(r@[j] == g);
                        }
                    }
                }
            }
        } else {
            proof {
                assert forall|g: Hex|
                    r@.contains(g) <==> (exists|k: int|
                        0 <= k < i + 1 && #[trigger] seen@[k] == g && hex_distance(g, center)
                            >= range.min) by {
                    if exists|k: int|
                        0 <= k < i + 1 && #[trigger] seen@[k] == g && hex_distance(g, center)
                            >= range.min {
                        let k = choose|k: int|
                            0 <= k < i + 1 && #[trigger] seen@[k] == g && hex_distance(g, center)
                                >= range.min;
                        assert(k != i as int);
                    }
                }
            }
        }
        i = i + 1;
    }
    proof {
        assert forall|h: Hex| r@.to_set().contains(h) == skill_range_set(center, range, *map).contains(
            h,
        ) by {
            if r@.contains(h) {
                let k = choose|k: int|
                    0 <= k < i && #[trigger] seen@[k] == h && hex_distance(h, center) >= range.min;
                assert(seen@.contains(h));
                assert(seen@.to_set().contains(h));
            }
            if skill_range_set(center, range, *map).contains(h) {
                assert(seen@.to_set().contains(h));
                let k = choose|k: int| 0 <= k < seen@.len() && seen@[k] == h;
                assert(seen@[k] == h);
            }
        }
        assert(r@.to_set() =~= skill_range_set(center, range, *map));
    }
    r
}

/// The range preview for a skill used by a unit on `center`: none for a skill
/// aimed at its user's own tile, else the tiles it can target.
pub fn show_skill_range_preview(targeting: SkillTargeting, center: Hex, map: &GameMap) -> (r:
    Option<RangeHighlights>)
    requires
        map.wf(),
        in_bounds(center),
        targeting matches SkillTargeting::MouseCursor(range) ==> range.max <= COORD_LIMIT,
    ensures
        targeting is UserPosition ==> r is None,
        targeting matches SkillTargeting::MouseCursor(range) ==> r matches Some(h) && h.tiles@.to_set()
            == skill_range_set(center, range, *map) && h.tiles@.no_duplicates(),
{
    match targeting {
        SkillTargeting::UserPosition => None,
        SkillTargeting::MouseCursor(range) => Some(
            RangeHighlights { tiles: skill_range_tiles(center, range, map) },
        ),
    }
}

} // verus!
