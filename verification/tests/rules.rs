use game_client::animation::UnitAnimationPlugin;
use game_client::combat::{CombatData, CombatTurn, CombatUnit, UnitTurn};
use game_client::combat_events::{
    on_move_unit, on_player_turn_to_place_unit, on_server_placed_unit, on_start_unit_turn,
    on_use_skill, SkillHit,
};
use game_client::cursor::{tile_cursor_changes, update_mouse_cursor, CursorChange};
use game_client::editor::{
    action_to_tool, can_tool_be_used_on_tile, create_all_spawn_spot_markers,
    create_tool_events_for_tile, on_add_spawn_marker, on_remove_spawn_marker, on_tool_change,
    switch_tool_on_button_press, use_tool, use_tool_on_tile, AddSpawnMarkerEvent, MapEditorAction,
    MapEditorTool, MultiselectData, RemoveSpawnMarkerEvent, SpawnMarkerEvent,
    SpawnMarkerHighlightChange, ToolInput, ToolLabelArgument,
};
use game_client::hex::{all_neighbors, distance, Hex};
use game_client::highlights::{CursorOnTile, PathHighlights, RangeHighlights};
use game_client::leave_combat::{
    is_casualty, on_combat_finished, on_leave_combat, surviving_units, LeaveCombatCommand,
};
use game_client::map::{
    are_tile_sides_necessary, surface_material, Fluid, FluidKind, GameMap, SurfaceMaterial,
    TileData, TileSurface,
};
use game_client::network::{NetworkEvent, NetworkPlugin};
use game_client::placement::{
    get_next_unplaced_unit_index, get_previous_unplaced_unit_index, has_unplaced_unit,
    is_unit_already_placed, on_placement_input, CurrentlyPlacedUnit, PlaceUnitRequest,
};
use game_client::spawning::{DespawnMapCommand, MapLifecycleEvent, MapSpawningPlugin, SpawnMapCommand};
use game_client::states::{
    next_mouse_cursor_over_ui_state, ApplicationState, CombatState, GameState, MapState,
    MouseCursorOverUiState, NetworkState,
};
use game_client::unit_actions::{
    attack_highlight_skill, change_action_on_input, execute_action_on_click,
    on_set_or_toggle_action, path_preview_target, range_preview_for, show_skill_range_preview,
    skill_range_tiles, ActionChange, ActiveUnitAction, ClickCommand, CombatInputCommand,
    EndTurnCommand, RangePreview, SetOrToggleActiveUnitActionEvent, SkillRange, SkillTargeting,
};
use game_client::update_tile::{FluidEntityAction, TileUpdaterPlugin};

fn hex(x: i32, y: i32) -> Hex {
    Hex::new(x, y)
}

fn tile(height: u8) -> TileData {
    TileData { height, surface: TileSurface::Grass, fluid: None, spawn_zone: None }
}

fn map_of(tiles: &[(Hex, TileData)]) -> GameMap {
    let mut map = GameMap::empty();
    for (h, t) in tiles {
        map.set(*h, *t);
    }
    map
}

fn radius_one_map(height: u8) -> GameMap {
    let mut tiles = vec![(hex(0, 0), tile(height))];
    for n in all_neighbors(hex(0, 0)) {
        tiles.push((n, tile(height)));
    }
    map_of(&tiles)
}

fn unit(id: u32, owner: u32, hp: u32, position: Hex) -> CombatUnit {
    CombatUnit { id, owner, hp, position }
}

fn combat_with(units: &[CombatUnit]) -> CombatData {
    let mut data = CombatData::new();
    for u in units {
        on_server_placed_unit(&mut data, *u);
    }
    data
}

fn sorted(mut v: Vec<Hex>) -> Vec<(i32, i32)> {
    let mut r: Vec<(i32, i32)> = v.drain(..).map(|h| (h.x, h.y)).collect();
    r.sort();
    r
}

// Selecting "move" calls for the range highlights, dropping the selection
// removes them.
#[test]
fn unit_actions_should_create_and_remove_highlights() {
    let preview = range_preview_for(Some(ActiveUnitAction::Move));
    assert!(preview == RangePreview::Movement, "HighlightedTiles should have been created!");
    let preview = range_preview_for(None);
    assert!(preview == RangePreview::Remove, "HighlightedTiles should have been removed!");
}

#[test]
fn unit_actions_highlights_should_create_and_remove_highlights() {
    let preview = range_preview_for(Some(ActiveUnitAction::Move));
    assert!(preview == RangePreview::Movement, "HighlightedTiles should have been created!");
    let preview = range_preview_for(None);
    assert!(preview == RangePreview::Remove, "HighlightedTiles should have been removed!");
}

#[test]
fn neighbors_follow_hexx_directions() {
    let n = all_neighbors(hex(2, -3));
    assert_eq!(
        n.iter().map(|h| (h.x, h.y)).collect::<Vec<_>>(),
        vec![(3, -3), (2, -2), (1, -2), (1, -3), (2, -4), (3, -4)]
    );
}

#[test]
fn distance_is_cube_distance() {
    assert_eq!(distance(hex(0, 0), hex(0, 0)), 0);
    assert_eq!(distance(hex(0, 0), hex(2, -1)), 2);
    assert_eq!(distance(hex(1, 1), hex(-2, 3)), 3);
    assert_eq!(distance(hex(i32::MIN, 0), hex(i32::MAX, 0)), u32::MAX as u64);
}

#[test]
fn map_set_and_get() {
    let mut map = GameMap::empty();
    assert_eq!(map.get(hex(0, 0)), None);
    map.set(hex(0, 0), tile(2));
    map.set(hex(1, 0), tile(3));
    map.set(hex(0, 0), tile(5));
    assert_eq!(map.tiles.len(), 2);
    assert_eq!(map.get(hex(0, 0)), Some(tile(5)));
    assert!(map.contains(hex(1, 0)));
    assert!(map.blocks_view(hex(7, 7)));
}

#[test]
fn tile_sides_needed_at_map_edge_and_next_to_lower_tiles() {
    let map = radius_one_map(2);
    // The center is surrounded by tiles just as high.
    assert!(!are_tile_sides_necessary(&map, &tile(2), &hex(0, 0)));
    // An edge tile has neighbours outside the map.
    assert!(are_tile_sides_necessary(&map, &tile(2), &hex(1, 0)));
    // Height 0 never needs sides.
    assert!(!are_tile_sides_necessary(&map, &tile(0), &hex(1, 0)));
    // A higher center is exposed.
    assert!(are_tile_sides_necessary(&map, &tile(3), &hex(0, 0)));
}

#[test]
fn surface_material_by_height_and_surface() {
    assert_eq!(surface_material(&tile(0)), SurfaceMaterial::Invisible);
    assert_eq!(surface_material(&tile(1)), SurfaceMaterial::Grass);
    let stone = TileData { surface: TileSurface::Stone, ..tile(4) };
    assert_eq!(surface_material(&stone), SurfaceMaterial::Stone);
}

#[test]
fn skill_range_excludes_tiles_closer_than_min() {
    let map = radius_one_map(1);
    let tiles = skill_range_tiles(hex(0, 0), SkillRange { min: 1, max: 1 }, &map);
    assert_eq!(sorted(tiles), sorted(all_neighbors(hex(0, 0))));
    let tiles = skill_range_tiles(hex(0, 0), SkillRange { min: 0, max: 1 }, &map);
    assert_eq!(tiles.len(), 7);
    let tiles = skill_range_tiles(hex(0, 0), SkillRange { min: 2, max: 1 }, &map);
    assert!(tiles.is_empty());
}

#[test]
fn skill_range_preview_by_targeting() {
    let map = radius_one_map(1);
    assert!(show_skill_range_preview(SkillTargeting::UserPosition, hex(0, 0), &map).is_none());
    let preview = show_skill_range_preview(
        SkillTargeting::MouseCursor(SkillRange { min: 1, max: 1 }),
        hex(0, 0),
        &map,
    )
    .unwrap();
    assert_eq!(preview.tiles.len(), 6);
}

#[test]
fn place_unit_turn_for_local_and_other_player() {
    let mut data = CombatData::new();
    assert_eq!(on_player_turn_to_place_unit(&mut data, 1, 1), CombatState::PlaceUnit);
    assert_eq!(data.current_turn, CombatTurn::place_unit(1));
    assert_eq!(on_player_turn_to_place_unit(&mut data, 2, 1), CombatState::WaitingForOtherPlayer);
    assert_eq!(data.current_turn, CombatTurn::place_unit(2));
}

#[test]
fn start_unit_turn_by_owner() {
    let data = combat_with(&[unit(1, 10, 5, hex(0, 0)), unit(2, 20, 5, hex(1, 0))]);
    let (in_sync, start) = on_start_unit_turn(&data, 1, 1, 10);
    assert!(in_sync);
    let start = start.unwrap();
    assert_eq!(start.state, CombatState::ThisPlayerUnitTurn);
    assert_eq!(start.active_tile, hex(0, 0));
    let (in_sync, start) = on_start_unit_turn(&data, 2, 1, 10);
    assert!(!in_sync);
    assert_eq!(start.unwrap().state, CombatState::WaitingForOtherPlayer);
    let (_, start) = on_start_unit_turn(&data, 3, 3, 10);
    assert!(start.is_none());
}

#[test]
fn placed_unit_is_recorded() {
    let mut data = CombatData::new();
    let state = on_server_placed_unit(&mut data, unit(4, 1, 9, hex(2, 2)));
    assert_eq!(state, CombatState::WaitingForServer);
    assert_eq!(data.unit_at(hex(2, 2)), Some(4));
    assert_eq!(data.get_unit(4).unwrap().position, hex(2, 2));
}

#[test]
fn move_unit_updates_positions_and_movement() {
    let mut data = combat_with(&[unit(1, 10, 5, hex(0, 0)), unit(2, 20, 5, hex(3, 0))]);
    data.current_turn =
        CombatTurn::UnitTurn(UnitTurn { unit_id: 1, remaining_movement: 4, remaining_actions: 1 });
    let path = vec![hex(0, 0), hex(1, 0), hex(2, 0)];
    let (state, active) = on_move_unit(&mut data, &path, 10);
    assert_eq!(state, CombatState::ThisPlayerUnitTurn);
    assert_eq!(active, hex(2, 0));
    assert_eq!(data.unit_at(hex(0, 0)), None);
    assert_eq!(data.unit_at(hex(2, 0)), Some(1));
    assert_eq!(data.get_unit(1).unwrap().position, hex(2, 0));
    assert_eq!(data.current_turn.as_unit_turn().unwrap().remaining_movement, 2);
    // The other player's unit is still where it was.
    assert_eq!(data.unit_at(hex(3, 0)), Some(2));
    let (state, _) = on_move_unit(&mut data, &vec![hex(2, 0), hex(2, 1)], 99);
    assert_eq!(state, CombatState::WaitingForOtherPlayer);
}

#[test]
fn skill_hits_saturate_at_zero_and_report_felled_units() {
    let mut data = combat_with(&[
        unit(1, 10, 20, hex(0, 0)),
        unit(2, 20, 5, hex(1, 0)),
        unit(3, 20, 7, hex(2, 0)),
    ]);
    data.current_turn =
        CombatTurn::UnitTurn(UnitTurn { unit_id: 1, remaining_movement: 0, remaining_actions: 2 });
    let hits = vec![
        SkillHit { target_unit_id: 2, physical_damage: 8 },
        SkillHit { target_unit_id: 3, physical_damage: 7 },
        SkillHit { target_unit_id: 3, physical_damage: 1 },
    ];
    let (state, felled, actor) = on_use_skill(&mut data, &hits, 10);
    assert_eq!(state, CombatState::ThisPlayerUnitTurn);
    assert_eq!(actor, 1);
    assert_eq!(data.get_unit(2).unwrap().hp, 0);
    assert_eq!(data.get_unit(3).unwrap().hp, 0);
    // Unit 3 reached 0 exactly, then took one more point: that second hit fells it.
    assert_eq!(felled, vec![2, 3]);
    assert_eq!(data.current_turn.as_unit_turn().unwrap().remaining_actions, 1);
    assert_eq!(data.get_unit(1).unwrap().hp, 20);
}

#[test]
fn exact_lethal_hit_is_not_reported_as_felled() {
    let mut data = combat_with(&[unit(1, 10, 20, hex(0, 0)), unit(2, 20, 5, hex(1, 0))]);
    data.current_turn =
        CombatTurn::UnitTurn(UnitTurn { unit_id: 1, remaining_movement: 0, remaining_actions: 1 });
    let (state, felled, _) =
        on_use_skill(&mut data, &vec![SkillHit { target_unit_id: 2, physical_damage: 5 }], 20);
    assert_eq!(data.get_unit(2).unwrap().hp, 0);
    assert!(felled.is_empty());
    assert_eq!(state, CombatState::WaitingForOtherPlayer);
}

#[test]
fn toggle_selects_and_deselects() {
    let mv = SetOrToggleActiveUnitActionEvent { action: ActiveUnitAction::Move };
    let skill = SetOrToggleActiveUnitActionEvent { action: ActiveUnitAction::UseSkill(3) };
    assert_eq!(on_set_or_toggle_action(None, &vec![]), ActionChange::Keep);
    assert_eq!(on_set_or_toggle_action(None, &vec![mv]), ActionChange::Select(ActiveUnitAction::Move));
    assert_eq!(on_set_or_toggle_action(Some(ActiveUnitAction::Move), &vec![mv]), ActionChange::Remove);
    assert_eq!(
        on_set_or_toggle_action(Some(ActiveUnitAction::Move), &vec![skill]),
        ActionChange::Select(ActiveUnitAction::UseSkill(3))
    );
    assert_eq!(on_set_or_toggle_action(Some(ActiveUnitAction::Move), &vec![skill, mv]), ActionChange::Remove);
    assert_eq!(
        on_set_or_toggle_action(None, &vec![mv, skill]),
        ActionChange::Select(ActiveUnitAction::UseSkill(3))
    );
}

#[test]
fn input_keys_have_priority_order() {
    assert_eq!(
        change_action_on_input(true, true, true, 9),
        Some(CombatInputCommand::SetOrToggle(SetOrToggleActiveUnitActionEvent {
            action: ActiveUnitAction::Move
        }))
    );
    assert_eq!(
        change_action_on_input(false, true, true, 9),
        Some(CombatInputCommand::SetOrToggle(SetOrToggleActiveUnitActionEvent {
            action: ActiveUnitAction::UseSkill(9)
        }))
    );
    assert_eq!(
        change_action_on_input(false, false, true, 9),
        Some(CombatInputCommand::EndTurn(EndTurnCommand))
    );
    assert_eq!(change_action_on_input(false, false, false, 9), None);
}

#[test]
fn click_sends_move_or_skill_requests() {
    let cursor = CursorOnTile { temp_hexes: vec![hex(1, 0)], hex: hex(1, 0) };
    let range = RangeHighlights { tiles: vec![hex(1, 0), hex(0, 1)] };
    let path = PathHighlights { tiles: vec![hex(0, 0), hex(1, 0)] };
    assert_eq!(
        execute_action_on_click(true, Some(&cursor), ActiveUnitAction::Move, None, Some(&range), Some(&path)),
        Some(ClickCommand::MoveUnit(vec![hex(0, 0), hex(1, 0)]))
    );
    assert_eq!(
        execute_action_on_click(false, Some(&cursor), ActiveUnitAction::Move, None, Some(&range), Some(&path)),
        None
    );
    assert_eq!(execute_action_on_click(true, None, ActiveUnitAction::Move, None, Some(&range), Some(&path)), None);
    assert_eq!(execute_action_on_click(true, Some(&cursor), ActiveUnitAction::Move, None, None, Some(&path)), None);
    assert_eq!(execute_action_on_click(true, Some(&cursor), ActiveUnitAction::Move, None, Some(&range), None), None);
    let far = CursorOnTile { temp_hexes: vec![hex(5, 0)], hex: hex(5, 0) };
    assert_eq!(
        execute_action_on_click(true, Some(&far), ActiveUnitAction::Move, None, Some(&range), Some(&path)),
        None
    );
    let cursor_skill = SkillTargeting::MouseCursor(SkillRange { min: 1, max: 2 });
    assert_eq!(
        execute_action_on_click(true, Some(&far), ActiveUnitAction::UseSkill(4), Some(cursor_skill), Some(&range), None),
        None
    );
    assert_eq!(
        execute_action_on_click(true, Some(&cursor), ActiveUnitAction::UseSkill(4), Some(cursor_skill), Some(&range), None),
        Some(ClickCommand::UseSkill { id: 4, target: hex(1, 0) })
    );
    assert_eq!(
        execute_action_on_click(true, Some(&far), ActiveUnitAction::UseSkill(4), Some(SkillTargeting::UserPosition), None, None),
        Some(ClickCommand::UseSkill { id: 4, target: hex(5, 0) })
    );
}

#[test]
fn previews_follow_selection_and_cursor() {
    assert_eq!(path_preview_target(Some(hex(1, 1)), Some(ActiveUnitAction::Move)), Some(hex(1, 1)));
    assert_eq!(path_preview_target(None, Some(ActiveUnitAction::Move)), None);
    assert_eq!(path_preview_target(Some(hex(1, 1)), Some(ActiveUnitAction::UseSkill(1))), None);
    assert_eq!(attack_highlight_skill(Some(ActiveUnitAction::UseSkill(5)), Some(hex(0, 0))), Some(5));
    assert_eq!(attack_highlight_skill(Some(ActiveUnitAction::UseSkill(5)), None), None);
    assert_eq!(attack_highlight_skill(Some(ActiveUnitAction::Move), Some(hex(0, 0))), None);
    assert_eq!(range_preview_for(Some(ActiveUnitAction::UseSkill(2))), RangePreview::Skill(2));
}

#[test]
fn placement_cycles_over_unplaced_units() {
    // Units 11 and 13 are already on the field.
    let data = combat_with(&[unit(11, 1, 5, hex(0, 0)), unit(13, 1, 5, hex(1, 0))]);
    let units = vec![10, 11, 12, 13];
    assert!(has_unplaced_unit(&data, &units));
    assert!(is_unit_already_placed(&data, &units, 1));
    assert!(!is_unit_already_placed(&data, &units, 2));
    assert_eq!(get_next_unplaced_unit_index(&data, &units, units.len()), 0);
    assert_eq!(get_next_unplaced_unit_index(&data, &units, 0), 2);
    assert_eq!(get_next_unplaced_unit_index(&data, &units, 2), 0);
    assert_eq!(get_previous_unplaced_unit_index(&data, &units, 0), 2);
    assert_eq!(get_previous_unplaced_unit_index(&data, &units, 2), 0);
    // Next after previous returns to where one started.
    let p = get_previous_unplaced_unit_index(&data, &units, 2);
    assert_eq!(get_next_unplaced_unit_index(&data, &units, p), 2);
    let all = combat_with(&[unit(10, 1, 5, hex(0, 0))]);
    assert!(!has_unplaced_unit(&all, &vec![10]));
}

#[test]
fn placement_input_selects_and_requests() {
    let data = combat_with(&[unit(11, 1, 5, hex(0, 0))]);
    let units = vec![10, 11, 12];
    let mut current = CurrentlyPlacedUnit { array_index: 0 };
    assert_eq!(on_placement_input(&data, &units, &mut current, true, false, false, None), None);
    assert_eq!(current.array_index, 2);
    assert_eq!(on_placement_input(&data, &units, &mut current, false, true, false, None), None);
    assert_eq!(current.array_index, 0);
    assert_eq!(
        on_placement_input(&data, &units, &mut current, false, false, true, Some(hex(3, 3))),
        Some(PlaceUnitRequest { unit_id: 10, hex: hex(3, 3) })
    );
    assert_eq!(on_placement_input(&data, &units, &mut current, false, false, true, None), None);
}

#[test]
fn tool_switching_follows_the_table() {
    assert_eq!(action_to_tool().len(), 10);
    assert_eq!(switch_tool_on_button_press(&vec![]), None);
    assert_eq!(switch_tool_on_button_press(&vec![MapEditorAction::UseTool]), None);
    assert_eq!(
        switch_tool_on_button_press(&vec![MapEditorAction::PaintSand, MapEditorAction::LowerTiles]),
        Some(MapEditorTool::LowerTiles)
    );
    assert_eq!(
        switch_tool_on_button_press(&vec![MapEditorAction::RaiseWater]),
        Some(MapEditorTool::RaiseFluid(FluidKind::Water))
    );
    assert_eq!(
        switch_tool_on_button_press(&vec![MapEditorAction::MarkSpawnTile]),
        Some(MapEditorTool::MarkSpawnTile(1))
    );
    assert_eq!(MapEditorAction::LowerFluid.label(), "Lower Water");
    assert_eq!(MapEditorAction::UseTool.label(), "Use Tool");
}

#[test]
fn tools_respect_their_limits() {
    assert!(can_tool_be_used_on_tile(&MapEditorTool::RaiseTiles, &tile(4), 5));
    assert!(!can_tool_be_used_on_tile(&MapEditorTool::RaiseTiles, &tile(5), 5));
    assert!(!can_tool_be_used_on_tile(&MapEditorTool::LowerTiles, &tile(0), 5));
    assert!(!can_tool_be_used_on_tile(&MapEditorTool::LowerFluid, &tile(2), 5));
    assert!(!can_tool_be_used_on_tile(&MapEditorTool::MarkSpawnTile(1), &tile(0), 5));
    let marked = TileData { spawn_zone: Some(1), ..tile(2) };
    assert!(!can_tool_be_used_on_tile(&MapEditorTool::MarkSpawnTile(1), &marked, 5));
    assert!(can_tool_be_used_on_tile(&MapEditorTool::MarkSpawnTile(2), &marked, 5));
    assert!(can_tool_be_used_on_tile(&MapEditorTool::RemoveSpawnTile, &marked, 5));
    assert!(!can_tool_be_used_on_tile(&MapEditorTool::RemoveSpawnTile, &tile(2), 5));
}

#[test]
fn tools_change_tiles() {
    let h = hex(0, 0);
    let mut t = tile(2);
    assert_eq!(use_tool_on_tile(&MapEditorTool::RaiseFluid(FluidKind::Water), &h, &mut t), None);
    assert_eq!(t.fluid, Some(Fluid { kind: FluidKind::Water, height: 75 }));
    use_tool_on_tile(&MapEditorTool::RaiseFluid(FluidKind::Water), &h, &mut t);
    assert_eq!(t.fluid.unwrap().height, 175);
    use_tool_on_tile(&MapEditorTool::RaiseTiles, &h, &mut t);
    assert_eq!(t.height, 3);
    assert_eq!(t.fluid.unwrap().height, 75);
    use_tool_on_tile(&MapEditorTool::RaiseTiles, &h, &mut t);
    assert_eq!(t.fluid, None);
    use_tool_on_tile(&MapEditorTool::LowerTiles, &h, &mut t);
    assert_eq!(t.height, 3);
    use_tool_on_tile(&MapEditorTool::PaintSurface(TileSurface::Sand), &h, &mut t);
    assert_eq!(t.surface, TileSurface::Sand);
    let ev = use_tool_on_tile(&MapEditorTool::MarkSpawnTile(2), &h, &mut t);
    assert_eq!(ev, Some(SpawnMarkerEvent::Add(AddSpawnMarkerEvent { hex: h, team: 2 })));
    assert_eq!(t.spawn_zone, Some(2));
    let ev = use_tool_on_tile(&MapEditorTool::RemoveSpawnTile, &h, &mut t);
    assert_eq!(ev, Some(SpawnMarkerEvent::Remove(RemoveSpawnMarkerEvent { hex: h })));
    assert_eq!(t.spawn_zone, None);
    let mut shallow = TileData { fluid: Some(Fluid { kind: FluidKind::Water, height: 100 }), ..tile(1) };
    use_tool_on_tile(&MapEditorTool::LowerFluid, &h, &mut shallow);
    assert_eq!(shallow.fluid, None);
}

#[test]
fn lower_undoes_raise_on_a_concrete_tile() {
    let start = TileData { fluid: Some(Fluid { kind: FluidKind::Water, height: 150 }), ..tile(3) };
    let mut t = start;
    use_tool_on_tile(&MapEditorTool::RaiseTiles, &hex(0, 0), &mut t);
    use_tool_on_tile(&MapEditorTool::LowerTiles, &hex(0, 0), &mut t);
    assert_eq!(t, start);
}

#[test]
fn a_stroke_changes_each_tile_once() {
    let mut map = radius_one_map(1);
    let mut selection = MultiselectData::new();
    let (change, marker) =
        create_tool_events_for_tile(&mut map, &MapEditorTool::RaiseTiles, hex(0, 0), &mut selection, 5);
    assert_eq!(change.unwrap().old_data, tile(1));
    assert!(marker.is_none());
    assert_eq!(map.get(hex(0, 0)).unwrap().height, 2);
    let (change, _) =
        create_tool_events_for_tile(&mut map, &MapEditorTool::RaiseTiles, hex(0, 0), &mut selection, 5);
    assert!(change.is_none());
    assert_eq!(map.get(hex(0, 0)).unwrap().height, 2);
    // Outside the map nothing changes.
    let (change, _) =
        create_tool_events_for_tile(&mut map, &MapEditorTool::RaiseTiles, hex(9, 9), &mut selection, 5);
    assert!(change.is_none());
    assert_eq!(selection.previously_selected_tiles, vec![hex(0, 0), hex(9, 9)]);
}

#[test]
fn use_tool_starts_strokes_on_press() {
    let mut map = radius_one_map(1);
    let mut selection = MultiselectData::new();
    let tool = MapEditorTool::RaiseTiles;
    assert!(use_tool(&mut map, &tool, Some(hex(0, 0)), ToolInput::Released, &mut selection, 5).0.is_none());
    assert!(use_tool(&mut map, &tool, None, ToolInput::JustPressed, &mut selection, 5).0.is_none());
    assert!(use_tool(&mut map, &tool, Some(hex(0, 0)), ToolInput::JustPressed, &mut selection, 5).0.is_some());
    let held_far = ToolInput::Held { dragged_far_enough: true };
    assert!(use_tool(&mut map, &tool, Some(hex(0, 0)), held_far, &mut selection, 5).0.is_none());
    let held_near = ToolInput::Held { dragged_far_enough: false };
    assert!(use_tool(&mut map, &tool, Some(hex(1, 0)), held_near, &mut selection, 5).0.is_none());
    assert!(use_tool(&mut map, &tool, Some(hex(1, 0)), held_far, &mut selection, 5).0.is_some());
    // A new press starts a new stroke: the center rises again.
    assert!(use_tool(&mut map, &tool, Some(hex(0, 0)), ToolInput::JustPressed, &mut selection, 5).0.is_some());
    assert_eq!(map.get(hex(0, 0)).unwrap().height, 3);
}

#[test]
fn spawn_markers_follow_tool_and_marks() {
    assert_eq!(on_tool_change(None, true), SpawnMarkerHighlightChange::RemoveAll);
    assert_eq!(on_tool_change(Some(MapEditorTool::MarkSpawnTile(1)), false), SpawnMarkerHighlightChange::CreateAll);
    assert_eq!(on_tool_change(Some(MapEditorTool::RemoveSpawnTile), true), SpawnMarkerHighlightChange::Keep);
    assert_eq!(on_tool_change(Some(MapEditorTool::RaiseTiles), true), SpawnMarkerHighlightChange::RemoveAll);
    assert_eq!(on_tool_change(Some(MapEditorTool::RaiseTiles), false), SpawnMarkerHighlightChange::Keep);

    let map = map_of(&[
        (hex(0, 0), TileData { spawn_zone: Some(1), ..tile(1) }),
        (hex(1, 0), tile(1)),
        (hex(2, 0), TileData { spawn_zone: Some(2), ..tile(1) }),
    ]);
    assert_eq!(sorted(create_all_spawn_spot_markers(&map)), vec![(0, 0), (2, 0)]);

    let mut tiles = vec![hex(0, 0), hex(1, 0), hex(2, 0)];
    on_remove_spawn_marker(&mut tiles, &RemoveSpawnMarkerEvent { hex: hex(0, 0) });
    assert_eq!(tiles, vec![hex(2, 0), hex(1, 0)]);
    on_remove_spawn_marker(&mut tiles, &RemoveSpawnMarkerEvent { hex: hex(5, 5) });
    assert_eq!(tiles, vec![hex(2, 0), hex(1, 0)]);
    let before = tiles.clone();
    on_add_spawn_marker(&mut tiles, &AddSpawnMarkerEvent { hex: hex(7, 7), team: 1 });
    on_remove_spawn_marker(&mut tiles, &RemoveSpawnMarkerEvent { hex: hex(7, 7) });
    assert_eq!(tiles, before);
}

#[test]
fn cursor_follows_raycast_hits() {
    let mut cursor: Option<CursorOnTile> = None;
    assert_eq!(update_mouse_cursor(&mut cursor, None), CursorChange::Unchanged);
    assert_eq!(update_mouse_cursor(&mut cursor, Some(hex(1, 1))), CursorChange::Inserted);
    assert_eq!(cursor.as_ref().unwrap().hex, hex(1, 1));
    assert_eq!(update_mouse_cursor(&mut cursor, Some(hex(1, 1))), CursorChange::Unchanged);
    assert_eq!(update_mouse_cursor(&mut cursor, Some(hex(2, 1))), CursorChange::Moved);
    assert_eq!(cursor.as_ref().unwrap().temp_hexes, vec![hex(2, 1)]);
    assert_eq!(update_mouse_cursor(&mut cursor, None), CursorChange::Removed);
    assert!(cursor.is_none());
}

#[test]
fn tile_cursors_are_kept_or_spawned() {
    let (keep, spawn) = tile_cursor_changes(&vec![hex(0, 0), hex(1, 0)], &vec![hex(1, 0), hex(2, 0)]);
    assert_eq!(keep, vec![false, true]);
    assert_eq!(spawn, vec![hex(2, 0)]);
}

#[test]
fn combat_end_and_leaving() {
    assert_eq!(on_combat_finished(&vec![3, 4], 4), CombatState::Victory);
    assert_eq!(on_combat_finished(&vec![3], 4), CombatState::Defeated);
    assert!(is_casualty(&vec![1, 2], 2));
    assert!(!is_casualty(&vec![1, 2], 3));
    let quit = on_leave_combat(&LeaveCombatCommand::quit());
    assert_eq!(quit.application_state, Some(ApplicationState::MainMenu));
    assert!(!quit.send_proceed);
    assert_eq!(quit.game_state, GameState::Inactive);
    assert_eq!(quit.despawn_map, DespawnMapCommand);
    let proceed = on_leave_combat(&LeaveCombatCommand::proceed());
    assert_eq!(proceed.application_state, None);
    assert!(proceed.send_proceed);
    assert_eq!(proceed.combat_state, CombatState::WaitingForServer);
}

#[test]
fn small_state_machines() {
    assert_eq!(MapSpawningPlugin::next_map_state(MapLifecycleEvent::SpawnRequested(SpawnMapCommand)), MapState::Spawning);
    assert_eq!(MapSpawningPlugin::next_map_state(MapLifecycleEvent::TilesSpawned), MapState::Ready);
    assert_eq!(MapSpawningPlugin::next_map_state(MapLifecycleEvent::DespawnRequested(DespawnMapCommand)), MapState::Despawning);
    assert_eq!(MapSpawningPlugin::next_map_state(MapLifecycleEvent::TilesDespawned), MapState::Unloaded);
    assert_eq!(NetworkPlugin::next_network_state(NetworkState::Disconnected, NetworkEvent::ConnectRequested), NetworkState::Connecting);
    assert_eq!(NetworkPlugin::next_network_state(NetworkState::Connecting, NetworkEvent::ConnectionEstablished), NetworkState::Connected);
    assert_eq!(NetworkPlugin::next_network_state(NetworkState::Connected, NetworkEvent::ConnectRequested), NetworkState::Connected);
    assert_eq!(next_mouse_cursor_over_ui_state(true, MouseCursorOverUiState::NotOverUI), Some(MouseCursorOverUiState::OverUI));
    assert_eq!(next_mouse_cursor_over_ui_state(true, MouseCursorOverUiState::OverUI), None);
    assert_eq!(next_mouse_cursor_over_ui_state(false, MouseCursorOverUiState::OverUI), Some(MouseCursorOverUiState::NotOverUI));
    assert_eq!(UnitAnimationPlugin::next_move_step(0, 3), Some(1));
    assert_eq!(UnitAnimationPlugin::next_move_step(1, 3), None);
    assert_eq!(TileUpdaterPlugin::fluid_entity_action(true, false), FluidEntityAction::Spawn);
    assert_eq!(TileUpdaterPlugin::fluid_entity_action(false, true), FluidEntityAction::Despawn);
    assert_eq!(TileUpdaterPlugin::fluid_entity_action(true, true), FluidEntityAction::Reposition);
    assert_eq!(TileUpdaterPlugin::fluid_entity_action(false, false), FluidEntityAction::Nothing);
}

#[test]
fn survivors_keep_their_order() {
    assert_eq!(surviving_units(&vec![5, 1, 7, 3], &vec![7, 9, 5]), vec![1, 3]);
    assert_eq!(surviving_units(&vec![2, 4], &vec![]), vec![2, 4]);
    assert_eq!(surviving_units(&vec![2, 4], &vec![4, 2]), Vec::<u32>::new());
}

#[test]
fn tool_labels_name_their_argument() {
    assert_eq!(MapEditorTool::RaiseTiles.label(), ("Raise Tiles", ToolLabelArgument::Nothing));
    assert_eq!(
        MapEditorTool::PaintSurface(TileSurface::Sand).label(),
        ("Paint ", ToolLabelArgument::Surface(TileSurface::Sand))
    );
    assert_eq!(
        MapEditorTool::RaiseFluid(FluidKind::Water).label(),
        ("Fill with ", ToolLabelArgument::Fluid(FluidKind::Water))
    );
    assert_eq!(
        MapEditorTool::MarkSpawnTile(3).label(),
        ("Mark Spawn Tiles for Team ", ToolLabelArgument::Team(3))
    );
    assert_eq!(MapEditorTool::RemoveSpawnTile.label(), ("Remove Spawn Tiles", ToolLabelArgument::Nothing));
    assert_eq!(MapEditorTool::LowerFluid.label(), ("Lower Fluid", ToolLabelArgument::Nothing));
}

#[test]
fn a_long_stroke_changes_each_tile_once() {
    let mut map = radius_one_map(1);
    let mut selection = MultiselectData::new();
    let tool = MapEditorTool::RaiseTiles;
    let far = ToolInput::Held { dragged_far_enough: true };
    let frames = [
        (hex(0, 0), ToolInput::JustPressed),
        (hex(1, 0), far),
        (hex(0, 0), far),
        (hex(0, 1), far),
        (hex(1, 0), far),
        (hex(0, 0), far),
    ];
    let mut changed = Vec::new();
    for (h, input) in frames {
        if let (Some(change), _) = use_tool(&mut map, &tool, Some(h), input, &mut selection, 9) {
            changed.push(change.hex);
        }
    }
    assert_eq!(changed, vec![hex(0, 0), hex(1, 0), hex(0, 1)]);
    assert_eq!(map.get(hex(0, 0)).unwrap().height, 2);
    assert_eq!(selection.previously_selected_tiles, vec![hex(0, 0), hex(1, 0), hex(0, 1)]);
}

#[test]
fn tools_that_leave_fluid_alone_work_on_any_fluid() {
    let deep = TileData { fluid: Some(Fluid { kind: FluidKind::Water, height: i32::MAX }), ..tile(2) };
    let mut t = deep;
    use_tool_on_tile(&MapEditorTool::PaintSurface(TileSurface::Stone), &hex(0, 0), &mut t);
    assert_eq!(t, TileData { surface: TileSurface::Stone, ..deep });
    // Raising sinks the fluid, which is fine even at the top of the range.
    use_tool_on_tile(&MapEditorTool::RaiseTiles, &hex(0, 0), &mut t);
    assert_eq!(t.height, 3);
    assert_eq!(t.fluid.unwrap().height, i32::MAX - 100);
    // The full height range of a byte can be used.
    let mut map = map_of(&[(hex(0, 0), tile(254))]);
    let mut selection = MultiselectData::new();
    let (change, _) = use_tool(&mut map, &MapEditorTool::RaiseTiles, Some(hex(0, 0)), ToolInput::JustPressed, &mut selection, 255);
    assert!(change.is_some());
    assert_eq!(map.get(hex(0, 0)).unwrap().height, 255);
}

#[test]
fn higher_tiles_keep_their_side_walls() {
    // Neighbours of height 3 all around: walls only from height 4 upwards.
    let map = radius_one_map(3);
    assert!(!are_tile_sides_necessary(&map, &tile(3), &hex(0, 0)));
    assert!(are_tile_sides_necessary(&map, &tile(4), &hex(0, 0)));
    assert!(are_tile_sides_necessary(&map, &tile(9), &hex(0, 0)));
    assert!(!are_tile_sides_necessary(&map, &tile(0), &hex(0, 0)));
}

#[test]
fn a_click_without_known_skill_targeting_sends_nothing() {
    let cursor = CursorOnTile { temp_hexes: vec![hex(1, 0)], hex: hex(1, 0) };
    let range = RangeHighlights { tiles: vec![hex(1, 0)] };
    let r = execute_action_on_click(true, Some(&cursor), ActiveUnitAction::UseSkill(4), None, Some(&range), None);
    assert!(r.is_none());
    let r = execute_action_on_click(false, None, ActiveUnitAction::UseSkill(4), None, None, None);
    assert!(r.is_none());
}
