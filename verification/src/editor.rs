//! The map editor: its tools, what they do to a tile, and which tiles one
//! stroke of a tool changes.
use vstd::prelude::*;
use crate::hex::Hex;
use crate::map::{
    fluid_name, surface_name, Fluid, FluidKind, GameMap, TileData, TileSurface,
    FLUID_UNITS_PER_HEIGHT,
};
use crate::highlights::tiles_contain;

verus! {

/// Fluid height of a freshly filled tile, in hundredths of a height unit.
pub const NEW_FLUID_HEIGHT: i32 = 75;

/// A tool of the map editor.
#[derive(Clone, Copy, Debug, PartialEq, Eq, Hash, Structural)]
pub enum MapEditorTool {
    RaiseTiles,
    LowerTiles,
    PaintSurface(TileSurface),
    RaiseFluid(FluidKind),
    LowerFluid,
    MarkSpawnTile(u8),
    RemoveSpawnTile,
}

/// What follows the fixed start of a tool's name: the painted surface's name,
/// the poured fluid's name, a team's number, or nothing.
#[derive(Clone, Copy, Debug, PartialEq, Eq, Structural)]
pub enum ToolLabelArgument {
    Nothing,
    Surface(TileSurface),
    Fluid(FluidKind),
    Team(u8),
}

/// A tool's name as shown in the editor: a fixed start, followed by the
/// surface, fluid or team the tool works with.
pub open spec fn spec_tool_label(tool: MapEditorTool) -> (Seq<char>, ToolLabelArgument) {
    match tool {
        MapEditorTool::RaiseTiles => ("Raise Tiles"@, ToolLabelArgument::Nothing),
        MapEditorTool::LowerTiles => ("Lower Tiles"@, ToolLabelArgument::Nothing),
        MapEditorTool::PaintSurface(surface) => ("Paint "@, ToolLabelArgument::Surface(surface)),
        MapEditorTool::RaiseFluid(kind) => ("Fill with "@, ToolLabelArgument::Fluid(kind)),
        MapEditorTool::LowerFluid => ("Lower Fluid"@, ToolLabelArgument::Nothing),
        MapEditorTool::MarkSpawnTile(team) => (
            "Mark Spawn Tiles for Team "@,
            ToolLabelArgument::Team(team),
        ),
        MapEditorTool::RemoveSpawnTile => ("Remove Spawn Tiles"@, ToolLabelArgument::Nothing),
    }
}

impl MapEditorTool {
    /// The tool's name as shown in the editor: its fixed start and what
    /// follows it.
    pub fn label(&self) -> (r: (&'static str, ToolLabelArgument))
        ensures
            r.0@ == spec_tool_label(*self).0,
            r.1 == spec_tool_label(*self).1,
    {
        match self {
            MapEditorTool::RaiseTiles => ("Raise Tiles", ToolLabelArgument::Nothing),
            MapEditorTool::LowerTiles => ("Lower Tiles", ToolLabelArgument::Nothing),
            MapEditorTool::PaintSurface(surface) => ("Paint ", ToolLabelArgument::Surface(*surface)),
            MapEditorTool::RaiseFluid(kind) => ("Fill with ", ToolLabelArgument::Fluid(*kind)),
            MapEditorTool::LowerFluid => ("Lower Fluid", ToolLabelArgument::Nothing),
            MapEditorTool::MarkSpawnTile(team) => (
                "Mark Spawn Tiles for Team ",
                ToolLabelArgument::Team(*team),
            ),
            MapEditorTool::RemoveSpawnTile => ("Remove Spawn Tiles", ToolLabelArgument::Nothing),
        }
    }

    /// The tool the editor starts with.
    pub fn default_tool() -> (r: MapEditorTool)
        ensures
            r == MapEditorTool::RaiseTiles,
    {
        MapEditorTool::RaiseTiles
    }
}

/// An input of the map editor.
#[derive(Clone, Copy, Debug, PartialEq, Eq, Hash, Structural)]
pub enum MapEditorAction {
    UseTool,
    RaiseTiles,
    LowerTiles,
    PaintGrass,
    PaintStone,
    PaintSand,
    PaintEarth,
    RaiseWater,
    LowerFluid,
    MouseMotion,
    MarkSpawnTile,
    RemoveSpawnTile,
    SpawnCubeProp,
}

/// The name of an input as shown on the editor's buttons.
pub open spec fn spec_action_label(action: MapEditorAction) -> Seq<char> {
    match action {
        MapEditorAction::UseTool => "Use Tool"@,
        MapEditorAction::RaiseTiles => "Raise Tiles"@,
        MapEditorAction::LowerTiles => "Lower Tiles"@,
        MapEditorAction::PaintGrass => "Paint Grass"@,
        MapEditorAction::PaintStone => "Paint Stone"@,
        MapEditorAction::PaintSand => "Paint Sand"@,
        MapEditorAction::PaintEarth => "Paint Earth"@,
        MapEditorAction::RaiseWater => "Raise Water"@,
        MapEditorAction::LowerFluid => "Lower Water"@,
        MapEditorAction::MarkSpawnTile => "Mark Spawn Tile"@,
        MapEditorAction::RemoveSpawnTile => "Remove Spawn Tile"@,
        MapEditorAction::SpawnCubeProp => "Spawn Cube Prop"@,
        MapEditorAction::MouseMotion => "Mouse Motion"@,
    }
}

impl MapEditorAction {
    /// The name of the input as shown on the editor's buttons.
    pub fn label(&self) -> (r: &'static str)
        ensures
            r@ == spec_action_label(*self),
    {
        match self {
            MapEditorAction::UseTool => "Use Tool",
            MapEditorAction::RaiseTiles => "Raise Tiles",
            MapEditorAction::LowerTiles => "Lower Tiles",
            MapEditorAction::PaintGrass => "Paint Grass",
            MapEditorAction::PaintStone => "Paint Stone",
            MapEditorAction::PaintSand => "Paint Sand",
            MapEditorAction::PaintEarth => "Paint Earth",
            MapEditorAction::RaiseWater => "Raise Water",
            MapEditorAction::LowerFluid => "Lower Water",
            MapEditorAction::MarkSpawnTile => "Mark Spawn Tile",
            MapEditorAction::RemoveSpawnTile => "Remove Spawn Tile",
            MapEditorAction::SpawnCubeProp => "Spawn Cube Prop",
            MapEditorAction::MouseMotion => "Mouse Motion",
        }
    }
}

/// The inputs that select a tool, each with its tool, in the order in which a
/// frame's presses are looked up.
pub open spec fn action_tool_table() -> Seq<(MapEditorAction, MapEditorTool)> {
    seq![
        (MapEditorAction::RaiseTiles, MapEditorTool::RaiseTiles),
        (MapEditorAction::LowerTiles, MapEditorTool::LowerTiles),
        (MapEditorAction::PaintGrass, MapEditorTool::PaintSurface(TileSurface::Grass)),
        (MapEditorAction::PaintStone, MapEditorTool::PaintSurface(TileSurface::Stone)),
        (MapEditorAction::PaintSand, MapEditorTool::PaintSurface(TileSurface::Sand)),
        (MapEditorAction::PaintEarth, MapEditorTool::PaintSurface(TileSurface::Earth)),
        (MapEditorAction::RaiseWater, MapEditorTool::RaiseFluid(FluidKind::Water)),
        (MapEditorAction::LowerFluid, MapEditorTool::LowerFluid),
        (MapEditorAction::MarkSpawnTile, MapEditorTool::MarkSpawnTile(1)),
        (MapEditorAction::RemoveSpawnTile, MapEditorTool::RemoveSpawnTile),
    ]
}

/// The inputs that select a tool, each with its tool.
pub fn action_to_tool() -> (r: Vec<(MapEditorAction, MapEditorTool)>)
    ensures
        r@ == action_tool_table(),
{
    let r = vec![
        (MapEditorAction::RaiseTiles, MapEditorTool::RaiseTiles),
        (MapEditorAction::LowerTiles, MapEditorTool::LowerTiles),
        (MapEditorAction::PaintGrass, MapEditorTool::PaintSurface(TileSurface::Grass)),
        (MapEditorAction::PaintStone, MapEditorTool::PaintSurface(TileSurface::Stone)),
        (MapEditorAction::PaintSand, MapEditorTool::PaintSurface(TileSurface::Sand)),
        (MapEditorAction::PaintEarth, MapEditorTool::PaintSurface(TileSurface::Earth)),
        (MapEditorAction::RaiseWater, MapEditorTool::RaiseFluid(FluidKind::Water)),
        (MapEditorAction::LowerFluid, MapEditorTool::LowerFluid),
        (MapEditorAction::MarkSpawnTile, MapEditorTool::MarkSpawnTile(1)),
        (MapEditorAction::RemoveSpawnTile, MapEditorTool::RemoveSpawnTile),
    ];
    assert(r@ =~= action_tool_table());
    r
}

/// Whether `actions` holds `action`.
fn actions_contain(actions: &Vec<MapEditorAction>, action: MapEditorAction) -> (r: bool)
    ensures
        r == actions@.contains(action),
{
    let mut i: usize = 0;
    while i < actions.len()
        invariant
            i <= actions@.len(),
            forall|k: int| 0 <= k < i ==> actions@[k] != action,
        decreases actions@.len() - i,
    {
        if actions[i] == action {
            assert(actions@[i as int] == action);
            return true;
        }
        i = i + 1;
    }
    false
}

/// The tool that this frame's presses select: that of the first entry of the
/// table whose input was just pressed; `None` (keep the tool) where none was.
pub fn switch_tool_on_button_press(just_pressed: &Vec<MapEditorAction>) -> (r: Option<
    MapEditorTool,
>)
    ensures
        r is None <==> forall|k: int|
            0 <= k < action_tool_table().len() ==> !just_pressed@.contains(
                #[trigger] action_tool_table()[k].0,
            ),
        r matches Some(tool) ==> exists|k: int|
            0 <= k < action_tool_table().len() && #[trigger] action_tool_table()[k].1 == tool
                && just_pressed@.contains(action_tool_table()[k].0) && forall|j: int|
                0 <= j < k ==> !just_pressed@.contains(#[trigger] action_tool_table()[j].0),
{
    let table = action_to_tool();
    let mut i: usize = 0;
    while i < table.len()
        invariant
            table@ == action_tool_table(),
            i <= table@.len(),
            forall|j: int| 0 <= j < i ==> !just_pressed@.contains(#[trigger] action_tool_table()[j].0),
        decreases table@.len() - i,
    {
        let (action, tool) = table[i];
        if actions_contain(just_pressed, action) {
            assert(action_tool_table()[i as int].1 == tool);
            return Some(tool);
        }
        i = i + 1;
    }
    None
}

/// Whether `tool` changes `tile`: raising needs room below `max_height`,
/// lowering a height above 0, lowering fluid some fluid, marking a spawn tile a
/// height above 0 and another (or no) team's mark, and removing a mark a mark.
pub open spec fn spec_can_tool_be_used_on_tile(tool: MapEditorTool, tile: TileData, max_height: u8) -> bool {
    match tool {
        MapEditorTool::RaiseTiles => tile.height < max_height,
        MapEditorTool::LowerTiles => tile.height > 0,
        MapEditorTool::PaintSurface(_) => true,
        MapEditorTool::RaiseFluid(_) => true,
        MapEditorTool::LowerFluid => tile.fluid is Some,
        MapEditorTool::MarkSpawnTile(team) => tile.height > 0 && tile.spawn_zone != Some(team),
        MapEditorTool::RemoveSpawnTile => tile.spawn_zone is Some,
    }
}

/// Whether `tool` can be used on `tile`.
pub fn can_tool_be_used_on_tile(tool: &MapEditorTool, tile: &TileData, max_height: u8) -> (r: bool)
    ensures
        r == spec_can_tool_be_used_on_tile(*tool, *tile, max_height),
{
    match tool {
        MapEditorTool::RaiseTiles => tile.height < max_height,
        MapEditorTool::LowerTiles => tile.height > 0,
        MapEditorTool::PaintSurface(_) => true,
        MapEditorTool::RaiseFluid(_) => true,
        MapEditorTool::LowerFluid => tile.fluid.is_some(),
        MapEditorTool::MarkSpawnTile(team) => tile.height > 0 && match tile.spawn_zone {
            Some(zone) => zone != *team,
            None => true,
        },
        MapEditorTool::RemoveSpawnTile => tile.spawn_zone.is_some(),
    }
}

/// Marks a tile as a spawn tile of a team.
#[derive(Clone, Copy, Debug, PartialEq, Eq, Structural)]
pub struct AddSpawnMarkerEvent {
    pub hex: Hex,
    pub team: u8,
}

/// Removes the spawn mark of a tile.
#[derive(Clone, Copy, Debug, PartialEq, Eq, Structural)]
pub struct RemoveSpawnMarkerEvent {
    pub hex: Hex,
}

/// A change of the spawn marks that a tool made.
#[derive(Clone, Copy, Debug, PartialEq, Eq, Structural)]
pub enum SpawnMarkerEvent {
    Add(AddSpawnMarkerEvent),
    Remove(RemoveSpawnMarkerEvent),
}

/// The tile's fluid height stays within `i32` where `tool` shifts it by one
/// height unit: raising the tile or lowering the fluid sinks it, lowering the
/// tile lifts it, filling with the same kind of fluid lifts it; the other tools
/// leave the fluid alone.
pub open spec fn fluid_height_fits(tool: MapEditorTool, tile: TileData) -> bool {
    match tile.fluid {
        None => true,
        Some(f) => match tool {
            MapEditorTool::RaiseTiles | MapEditorTool::LowerFluid => i32::MIN
                + FLUID_UNITS_PER_HEIGHT <= f.height,
            MapEditorTool::LowerTiles => f.height <= i32::MAX - FLUID_UNITS_PER_HEIGHT,
            MapEditorTool::RaiseFluid(kind) => f.kind == kind ==> f.height <= i32::MAX
                - FLUID_UNITS_PER_HEIGHT,
            _ => true,
        },
    }
}

/// The tile after using `tool` on it.
/// Raising adds a height unit and sinks the fluid by one (dropping it below
/// zero); lowering takes a height unit and lifts the fluid by one; painting sets
/// the surface; filling deepens fluid of the same kind by one, turns other fluid
/// into that kind, or pours new fluid; lowering fluid sinks it by one (dropping
/// it at or below zero); marking and unmarking set the spawn zone.
pub open spec fn spec_use_tool_on_tile(tool: MapEditorTool, tile: TileData) -> TileData {
    match tool {
        MapEditorTool::RaiseTiles => TileData {
            height: (tile.height + 1) as u8,
            fluid: match tile.fluid {
                Some(f) => if f.height - FLUID_UNITS_PER_HEIGHT < 0 {
                    None
                } else {
                    Some(Fluid { height: (f.height - FLUID_UNITS_PER_HEIGHT) as i32, ..f })
                },
                None => None,
            },
            ..tile
        },
        MapEditorTool::LowerTiles => TileData {
            height: (tile.height - 1) as u8,
            fluid: match tile.fluid {
                Some(f) => Some(Fluid { height: (f.height + FLUID_UNITS_PER_HEIGHT) as i32, ..f }),
                None => None,
            },
            ..tile
        },
        MapEditorTool::PaintSurface(surface) => TileData { surface, ..tile },
        MapEditorTool::RaiseFluid(kind) => TileData {
            fluid: match tile.fluid {
                Some(f) => if f.kind == kind {
                    Some(Fluid { height: (f.height + FLUID_UNITS_PER_HEIGHT) as i32, ..f })
                } else {
                    Some(Fluid { kind, ..f })
                },
                None => Some(Fluid { kind, height: NEW_FLUID_HEIGHT }),
            },
            ..tile
        },
        MapEditorTool::LowerFluid => TileData {
            fluid: match tile.fluid {
                Some(f) => if f.height - FLUID_UNITS_PER_HEIGHT <= 0 {
                    None
                } else {
                    Some(Fluid { height: (f.height - FLUID_UNITS_PER_HEIGHT) as i32, ..f })
                },
                None => None,
            },
            ..tile
        },
        MapEditorTool::MarkSpawnTile(team) => TileData { spawn_zone: Some(team), ..tile },
        MapEditorTool::RemoveSpawnTile => TileData { spawn_zone: None, ..tile },
    }
}

/// The spawn-mark change that using `tool` on the tile at `hex` announces.
pub open spec fn spec_tool_marker_event(tool: MapEditorTool, hex: Hex) -> Option<SpawnMarkerEvent> {
    match tool {
        MapEditorTool::MarkSpawnTile(team) => Some(
            SpawnMarkerEvent::Add(AddSpawnMarkerEvent { hex, team }),
        ),
        MapEditorTool::RemoveSpawnTile => Some(
            SpawnMarkerEvent::Remove(RemoveSpawnMarkerEvent { hex }),
        ),
        _ => None,
    }
}

/// Uses `tool` on the tile at `hex`; returns the spawn-mark change to announce.
pub fn use_tool_on_tile(tool: &MapEditorTool, hex: &Hex, tile: &mut TileData) -> (r: Option<
    SpawnMarkerEvent,
>)
    requires
        fluid_height_fits(*tool, *old(tile)),
        *tool == MapEditorTool::RaiseTiles ==> old(tile).height < u8::MAX,
        *tool == MapEditorTool::LowerTiles ==> old(tile).height > 0,
    ensures
        *final(tile) == spec_use_tool_on_tile(*tool, *old(tile)),
        r == spec_tool_marker_event(*tool, *hex),
{
    match tool {
        MapEditorTool::RaiseTiles => {
            tile.height = tile.height + 1;
            tile.fluid = match tile.fluid {
                Some(f) => {
                    let h = f.height - FLUID_UNITS_PER_HEIGHT;
                    if h < 0 {
                        None
                    } else {
                        Some(Fluid { height: h, ..f })
                    }
                },
                None => None,
            };
            None
        },
        MapEditorTool::LowerTiles => {
            tile.height = tile.height - 1;
            tile.fluid = match tile.fluid {
                Some(f) => Some(Fluid { height: f.height + FLUID_UNITS_PER_HEIGHT, ..f }),
                None => None,
            };
            None
        },
        MapEditorTool::PaintSurface(surface) => {
            tile.surface = *surface;
            None
        },
        MapEditorTool::RaiseFluid(kind) => {
            tile.fluid = match tile.fluid {
                Some(f) => {
                    if f.kind == *kind {
                        Some(Fluid { height: f.height + FLUID_UNITS_PER_HEIGHT, ..f })
                    } else {
                        Some(Fluid { kind: *kind, ..f })
                    }
                },
                None => Some(Fluid { kind: *kind, height: NEW_FLUID_HEIGHT }),
            };
            None
        },
        MapEditorTool::LowerFluid => {
            tile.fluid = match tile.fluid {
                Some(f) => {
                    let h = f.height - FLUID_UNITS_PER_HEIGHT;
                    if h <= 0 {
                        None
                    } else {
                        Some(Fluid { height: h, ..f })
                    }
                },
                None => None,
            };
            None
        },
        MapEditorTool::MarkSpawnTile(team) => {
            tile.spawn_zone = Some(*team);
            Some(SpawnMarkerEvent::Add(AddSpawnMarkerEvent { hex: *hex, team: *team }))
        },
        MapEditorTool::RemoveSpawnTile => {
            tile.spawn_zone = None;
            Some(SpawnMarkerEvent::Remove(RemoveSpawnMarkerEvent { hex: *hex }))
        },
    }
}

/// A tool used where it can be used keeps a tile's height within
/// `0..=max_height`.
pub proof fn lemma_tools_keep_height_in_range(tool: MapEditorTool, tile: TileData, max_height: u8)
    requires
        tile.height <= max_height,
        spec_can_tool_be_used_on_tile(tool, tile, max_height),
    ensures
        spec_use_tool_on_tile(tool, tile).height <= max_height,
{
}

/// Lowering a raised tile restores it, where its fluid (if any) is at least
/// one height unit deep, so that raising keeps it.
pub proof fn lemma_lower_undoes_raise(tile: TileData)
    requires
        tile.height < u8::MAX,
        tile.fluid matches Some(f) ==> f.height >= FLUID_UNITS_PER_HEIGHT && f.height <= i32::MAX
            - FLUID_UNITS_PER_HEIGHT,
    ensures
        spec_use_tool_on_tile(
            MapEditorTool::LowerTiles,
            spec_use_tool_on_tile(MapEditorTool::RaiseTiles, tile),
        ) == tile,
{
}

/// Raising a lowered tile restores it, where its fluid (if any) is not below
/// the surface, so that raising does not drop it again.
pub proof fn lemma_raise_undoes_lower(tile: TileData)
    requires
        tile.height > 0,
        tile.fluid matches Some(f) ==> 0 <= f.height <= i32::MAX - FLUID_UNITS_PER_HEIGHT,
    ensures
        spec_use_tool_on_tile(
            MapEditorTool::RaiseTiles,
            spec_use_tool_on_tile(MapEditorTool::LowerTiles, tile),
        ) == tile,
{
}

/// Lowering fluid takes one height unit off it: fluid deeper than one unit
/// keeps its kind and sinks by one unit, shallower fluid is gone, and nothing
/// else of the tile changes.
pub proof fn lemma_lower_fluid_takes_one_unit(tile: TileData)
    ensures
        ({
            let after = spec_use_tool_on_tile(MapEditorTool::LowerFluid, tile);
            &&& after.height == tile.height && after.surface == tile.surface && after.spawn_zone
                == tile.spawn_zone
            &&& match tile.fluid {
                None => after.fluid is None,
                Some(f) => if f.height > FLUID_UNITS_PER_HEIGHT {
                    after.fluid == Some(
                        Fluid { kind: f.kind, height: (f.height - FLUID_UNITS_PER_HEIGHT) as i32 },
                    )
                } else {
                    after.fluid is None
                },
            }
        }),
{
}

/// Filling a tile with more of its own fluid and then lowering the fluid gives
/// the tile back, and so does lowering fluid deeper than one unit and then
/// filling it up again.
pub proof fn lemma_lower_fluid_undoes_raise_fluid(tile: TileData, kind: FluidKind)
    requires
        tile.fluid matches Some(f) && f.kind == kind && 0 < f.height <= i32::MAX
            - FLUID_UNITS_PER_HEIGHT,
    ensures
        spec_use_tool_on_tile(
            MapEditorTool::LowerFluid,
            spec_use_tool_on_tile(MapEditorTool::RaiseFluid(kind), tile),
        ) == tile,
        tile.fluid.unwrap().height > FLUID_UNITS_PER_HEIGHT ==> spec_use_tool_on_tile(
            MapEditorTool::RaiseFluid(kind),
            spec_use_tool_on_tile(MapEditorTool::LowerFluid, tile),
        ) == tile,
{
}

/// Some input of the table selects `tool`.
pub open spec fn table_selects(tool: MapEditorTool) -> bool {
    exists|k: int| 0 <= k < action_tool_table().len() && #[trigger] action_tool_table()[k].1 == tool
}

/// Each input that selects a paint or fill tool is named after what the tool
/// puts on the tile: "Paint X" selects painting surface X and "Raise X" fills
/// with fluid X. No two inputs of the table select the same tool, and every
/// surface can be painted.
pub proof fn lemma_tool_inputs_name_their_tools()
    ensures
        forall|k: int|
            0 <= k < action_tool_table().len() ==> match #[trigger] action_tool_table()[k].1 {
                MapEditorTool::PaintSurface(surface) => spec_action_label(action_tool_table()[k].0)
                    == "Paint "@ + surface_name(surface),
                MapEditorTool::RaiseFluid(kind) => spec_action_label(action_tool_table()[k].0)
                    == "Raise "@ + fluid_name(kind),
                _ => true,
            },
        forall|i: int, j: int|
            0 <= i < j < action_tool_table().len() ==> #[trigger] action_tool_table()[i].1
                != #[trigger] action_tool_table()[j].1,
        forall|surface: TileSurface| #[trigger]
            table_selects(MapEditorTool::PaintSurface(surface)),
{
    reveal_strlit("Paint ");
    reveal_strlit("Raise ");
    reveal_strlit("Grass");
    reveal_strlit("Stone");
    reveal_strlit("Sand");
    reveal_strlit("Earth");
    reveal_strlit("Water");
    reveal_strlit("Paint Grass");
    reveal_strlit("Paint Stone");
    reveal_strlit("Paint Sand");
    reveal_strlit("Paint Earth");
    reveal_strlit("Raise Water");
    let t = action_tool_table();
    assert("Paint "@ + "Grass"@ =~= "Paint Grass"@);
    assert("Paint "@ + "Stone"@ =~= "Paint Stone"@);
    assert("Paint "@ + "Sand"@ =~= "Paint Sand"@);
    assert("Paint "@ + "Earth"@ =~= "Paint Earth"@);
    assert("Raise "@ + "Water"@ =~= "Raise Water"@);
    assert forall|surface: TileSurface| #[trigger]
        table_selects(MapEditorTool::PaintSurface(surface)) by {
        match surface {
            TileSurface::Grass => assert(t[2].1 == MapEditorTool::PaintSurface(surface)),
            TileSurface::Stone => assert(t[3].1 == MapEditorTool::PaintSurface(surface)),
            TileSurface::Sand => assert(t[4].1 == MapEditorTool::PaintSurface(surface)),
            TileSurface::Earth => assert(t[5].1 == MapEditorTool::PaintSurface(surface)),
        }
    }
}

/// The tiles one stroke of a tool has already touched.
#[derive(Clone, Debug, PartialEq, Eq)]
pub struct MultiselectData {
    pub previously_selected_tiles: Vec<Hex>,
}

impl MultiselectData {
    /// A stroke that has touched no tile yet.
    pub fn new() -> (r: MultiselectData)
        ensures
            r.previously_selected_tiles@ == Seq::<Hex>::empty(),
    {
        MultiselectData { previously_selected_tiles: Vec::new() }
    }

    /// Starts a new stroke.
    pub fn clear(&mut self)
        ensures
            final(self).previously_selected_tiles@ == Seq::<Hex>::empty(),
    {
        self.previously_selected_tiles.clear();
    }
}

/// A tile that a tool changed, with its data before the change.
#[derive(Clone, Copy, Debug, PartialEq, Eq, Structural)]
pub struct TileChangeEvent {
    pub hex: Hex,
    pub old_data: TileData,
}

/// Whether a stroke that has touched `selected` uses `tool` on the tile at
/// `hex` of `map`: the tile was not touched yet, the map has it and the tool
/// can be used on it.
pub open spec fn tool_applies(
    map: GameMap,
    tool: MapEditorTool,
    hex: Hex,
    selected: Seq<Hex>,
    max_height: u8,
) -> bool {
    &&& !selected.contains(hex)
    &&& map.has(hex)
    &&& spec_can_tool_be_used_on_tile(tool, map.tile(hex), max_height)
}

/// Using `tool` on the tile of `map` at `hex` (if there is one) keeps the
/// tile's fluid height within `i32`.
pub open spec fn map_tile_fits(map: GameMap, tool: MapEditorTool, hex: Hex) -> bool {
    map.has(hex) ==> fluid_height_fits(tool, map.tile(hex))
}

/// Uses `tool` on the tile at `hex` once per stroke: the first time the stroke
/// reaches a tile of the map that the tool can change, the tile changes and the
/// change (with the tile's old data) and any spawn-mark change are returned;
/// the tile counts as touched from then on, whether it changed or not.
pub fn create_tool_events_for_tile(
    map: &mut GameMap,
    tool: &MapEditorTool,
    hex: Hex,
    selection: &mut MultiselectData,
    max_height: u8,
) -> (r: (Option<TileChangeEvent>, Option<SpawnMarkerEvent>))
    requires
        old(map).wf(),
        map_tile_fits(*old(map), *tool, hex),
    ensures
        final(map).wf(),
        old(selection).previously_selected_tiles@.contains(hex) ==> final(selection).previously_selected_tiles@ == old(selection).previously_selected_tiles@,
        !old(selection).previously_selected_tiles@.contains(hex) ==> final(selection).previously_selected_tiles@ == old(selection).previously_selected_tiles@.push(hex),
        if tool_applies(
            *old(map),
            *tool,
            hex,
            old(selection).previously_selected_tiles@,
            max_height,
        ) {
            &&& final(map).tile_map() == old(map).tile_map().insert(
                hex,
                spec_use_tool_on_tile(*tool, old(map).tile(hex)),
            )
            &&& r.0 == Some(TileChangeEvent { hex, old_data: old(map).tile(hex) })
            &&& r.1 == spec_tool_marker_event(*tool, hex)
        } else {
            &&& final(map).tile_map() == old(map).tile_map()
            &&& r.0 is None
            &&& r.1 is None
        },
{
    if tiles_contain(&selection.previously_selected_tiles, hex) {
        return (None, None);
    }
    selection.previously_selected_tiles.push(hex);
    match map.get(hex) {
        Some(old_data) => {
            if can_tool_be_used_on_tile(tool, &old_data, max_height) {
                let mut tile = old_data;
                let event = use_tool_on_tile(tool, &hex, &mut tile);
                map.set(hex, tile);
                (Some(TileChangeEvent { hex, old_data }), event)
            } else {
                (None, None)
            }
        },
        None => (None, None),
    }
}

/// The state of the use-tool input in this frame.
#[derive(Clone, Copy, Debug, PartialEq, Eq, Structural)]
pub enum ToolInput {
    /// Not pressed.
    Released,
    /// Pressed in this frame: a new stroke starts.
    JustPressed,
    /// Held since an earlier frame; `dragged_far_enough` tells whether the mouse
    /// has moved far enough during the stroke to reach further tiles.
    Held { dragged_far_enough: bool },
}

/// Whether a frame reaches the tile under the cursor: there is one, and the
/// input was just pressed or has been dragged far enough while held.
pub open spec fn frame_touches(cursor: Option<Hex>, input: ToolInput) -> bool {
    cursor is Some && (input == ToolInput::JustPressed || input == ToolInput::Held {
        dragged_far_enough: true,
    })
}

/// The tiles the stroke has touched when this frame's tile is looked at: none
/// on a fresh press, else those touched so far.
pub open spec fn stroke_base(selected: Seq<Hex>, input: ToolInput) -> Seq<Hex> {
    if input == ToolInput::JustPressed {
        Seq::<Hex>::empty()
    } else {
        selected
    }
}

/// The tiles the stroke has touched after the frame.
pub open spec fn stroke_after(selected: Seq<Hex>, cursor: Option<Hex>, input: ToolInput) -> Seq<
    Hex,
> {
    let base = stroke_base(selected, input);
    if !frame_touches(cursor, input) {
        selected
    } else if base.contains(cursor.unwrap()) {
        base
    } else {
        base.push(cursor.unwrap())
    }
}

/// Whether the frame changes the tile under the cursor.
pub open spec fn frame_changes(
    map: GameMap,
    tool: MapEditorTool,
    cursor: Option<Hex>,
    input: ToolInput,
    selected: Seq<Hex>,
    max_height: u8,
) -> bool {
    frame_touches(cursor, input) && tool_applies(
        map,
        tool,
        cursor.unwrap(),
        stroke_base(selected, input),
        max_height,
    )
}

/// Uses the active tool under the cursor: nothing happens without a tile under
/// the cursor or with the input released; a fresh press starts a new stroke and
/// uses the tool; while held, the tool is used once the mouse has been dragged
/// far enough.
pub fn use_tool(
    map: &mut GameMap,
    tool: &MapEditorTool,
    cursor: Option<Hex>,
    input: ToolInput,
    selection: &mut MultiselectData,
    max_height: u8,
) -> (r: (Option<TileChangeEvent>, Option<SpawnMarkerEvent>))
    requires
        old(map).wf(),
        cursor matches Some(hex) ==> map_tile_fits(*old(map), *tool, hex),
    ensures
        final(map).wf(),
        final(selection).previously_selected_tiles@ == stroke_after(
            old(selection).previously_selected_tiles@,
            cursor,
            input,
        ),
        if frame_changes(
            *old(map),
            *tool,
            cursor,
            input,
            old(selection).previously_selected_tiles@,
            max_height,
        ) {
            &&& final(map).tile_map() == old(map).tile_map().insert(
                cursor.unwrap(),
                spec_use_tool_on_tile(*tool, old(map).tile(cursor.unwrap())),
            )
            &&& r.0 == Some(
                TileChangeEvent { hex: cursor.unwrap(), old_data: old(map).tile(cursor.unwrap()) },
            )
            &&& r.1 == spec_tool_marker_event(*tool, cursor.unwrap())
        } else {
            &&& final(map).tile_map() == old(map).tile_map()
            &&& r.0 is None
            &&& r.1 is None
        },
{
    let hex = match cursor {
        Some(h) => h,
        None => {
            return (None, None);
        },
    };
    match input {
        ToolInput::Released => (None, None),
        ToolInput::JustPressed => {
            selection.clear();
            create_tool_events_for_tile(map, tool, hex, selection, max_height)
        },
        ToolInput::Held { dragged_far_enough } => {
            if dragged_far_enough {
                create_tool_events_for_tile(map, tool, hex, selection, max_height)
            } else {
                (None, None)
            }
        },
    }
}

/// Within one stroke a tool changes a tile at most once: reaching the same tile
/// again leaves the map as it is and announces nothing.
pub proof fn lemma_stroke_touches_tile_once(
    map: GameMap,
    tool: MapEditorTool,
    hex: Hex,
    selected: Seq<Hex>,
    max_height: u8,
)
    requires
        selected.contains(hex),
    ensures
        !tool_applies(map, tool, hex, selected, max_height),
        !tool_applies(map, tool, hex, selected.push(hex), max_height),
{
    assert(selected.push(hex).contains(hex)) by {
        assert(selected.push(hex)[selected.len() as int] == hex);
    }
}

/// The tiles a stroke has touched after its first `k` frames, each frame
/// being the tile under the cursor and the input.
pub open spec fn stroke_selection(
    start: Seq<Hex>,
    frames: Seq<(Option<Hex>, ToolInput)>,
    k: nat,
) -> Seq<Hex>
    decreases k,
{
    if k == 0 {
        start
    } else {
        let prev = stroke_selection(start, frames, (k - 1) as nat);
        stroke_after(prev, frames[k - 1].0, frames[k - 1].1)
    }
}

/// While the input stays held, the touched tiles only grow.
proof fn lemma_held_frames_keep_touched(
    start: Seq<Hex>,
    frames: Seq<(Option<Hex>, ToolInput)>,
    from: nat,
    to: nat,
    hex: Hex,
)
    requires
        from <= to <= frames.len(),
        forall|k: int| from <= k < to ==> (#[trigger] frames[k]).1 is Held,
        stroke_selection(start, frames, from).contains(hex),
    ensures
        stroke_selection(start, frames, to).contains(hex),
    decreases to - from,
{
    if from < to {
        let prev = stroke_selection(start, frames, from);
        let next = stroke_selection(start, frames, from + 1);
        assert(frames[from as int].1 is Held);
        assert(next.contains(hex)) by {
            let i = choose|i: int| 0 <= i < prev.len() && prev[i] == hex;
            if next != prev {
                assert(next == prev.push(frames[from as int].0.unwrap()));
                assert(next[i] == hex);
            }
        }
        lemma_held_frames_keep_touched(start, frames, from + 1, to, hex);
    }
}

/// One stroke of a tool changes each tile at most once: over a run of frames
/// that starts with a fresh press and keeps the input held afterwards, two
/// frames that change a tile change different tiles, whatever the map is at
/// each frame.
pub proof fn lemma_stroke_changes_each_tile_once(
    maps: Seq<GameMap>,
    tool: MapEditorTool,
    frames: Seq<(Option<Hex>, ToolInput)>,
    start: Seq<Hex>,
    max_height: u8,
    i: int,
    j: int,
)
    requires
        maps.len() == frames.len(),
        frames.len() > 0,
        frames[0].1 == ToolInput::JustPressed,
        forall|k: int| 0 < k < frames.len() ==> (#[trigger] frames[k]).1 is Held,
        0 <= i < j < frames.len(),
    ensures
        frame_changes(
            maps[i],
            tool,
            frames[i].0,
            frames[i].1,
            stroke_selection(start, frames, i as nat),
            max_height,
        ) && frame_changes(
            maps[j],
            tool,
            frames[j].0,
            frames[j].1,
            stroke_selection(start, frames, j as nat),
            max_height,
        ) ==> frames[i].0.unwrap() != frames[j].0.unwrap(),
{
    let sel_i = stroke_selection(start, frames, i as nat);
    if frame_changes(maps[i], tool, frames[i].0, frames[i].1, sel_i, max_height) {
        let hex = frames[i].0.unwrap();
        let base = stroke_base(sel_i, frames[i].1);
        assert(!base.contains(hex));
        let after = stroke_selection(start, frames, (i + 1) as nat);
        assert(after == base.push(hex));
        assert(after.contains(hex)) by {
            assert(after[base.len() as int] == hex);
        }
        assert forall|k: int| (i + 1) as nat <= k < j as nat implies (#[trigger] frames[k]).1 is Held by {
            assert(0 < k < frames.len());
        }
        lemma_held_frames_keep_touched(start, frames, (i + 1) as nat, j as nat, hex);
        assert(frames[j].1 is Held);
    }
}

/// How the spawn-tile highlights follow a change of the active tool.
#[derive(Clone, Copy, Debug, PartialEq, Eq, Structural)]
pub enum SpawnMarkerHighlightChange {
    Keep,
    CreateAll,
    RemoveAll,
}

/// Spawn tiles are highlighted while a spawn-marking tool is active: they are
/// created when such a tool becomes active without highlights, and removed when
/// another tool (or none) is active.
pub fn on_tool_change(tool: Option<MapEditorTool>, highlights_exist: bool) -> (r:
    SpawnMarkerHighlightChange)
    ensures
        r == (match tool {
            None => SpawnMarkerHighlightChange::RemoveAll,
            Some(MapEditorTool::MarkSpawnTile(_)) | Some(MapEditorTool::RemoveSpawnTile) => if !highlights_exist {
                SpawnMarkerHighlightChange::CreateAll
            } else {
                SpawnMarkerHighlightChange::Keep
            },
            _ => if highlights_exist {
                SpawnMarkerHighlightChange::RemoveAll
            } else {
                SpawnMarkerHighlightChange::Keep
            },
        }),
{
    match tool {
        None => SpawnMarkerHighlightChange::RemoveAll,
        Some(MapEditorTool::MarkSpawnTile(_)) | Some(MapEditorTool::RemoveSpawnTile) => {
            if !highlights_exist {
                SpawnMarkerHighlightChange::CreateAll
            } else {
                SpawnMarkerHighlightChange::Keep
            }
        },
        _ => {
            if highlights_exist {
                SpawnMarkerHighlightChange::RemoveAll
            } else {
                SpawnMarkerHighlightChange::Keep
            }
        },
    }
}

/// The coordinates of the map's tiles that carry a spawn mark.
pub open spec fn spawn_zone_set(map: GameMap) -> Set<Hex> {
    Set::new(|h: Hex| map.has(h) && map.tile(h).spawn_zone is Some)
}

/// Lists the map's spawn tiles, each once.
pub fn create_all_spawn_spot_markers(map: &GameMap) -> (r: Vec<Hex>)
    requires
        map.wf(),
    ensures
        r@.to_set() == spawn_zone_set(*map),
        r@.no_duplicates(),
{
    let mut r: Vec<Hex> = Vec::new();
    let mut i: usize = 0;
    while i < map.tiles.len()
        invariant
            map.wf(),
            i <= map.tiles@.len(),
            r@.no_duplicates(),
            forall|h: Hex|
                r@.contains(h) <==> (exists|k: int|
                    0 <= k < i && (#[trigger] map.tiles@[k]).hex == h
                        && map.tiles@[k].data.spawn_zone is Some),
        decreases map.tiles@.len() - i,
    {
        let tile = map.tiles[i];
        if tile.data.spawn_zone.is_some() {
            let ghost r0 = r@;
            proof {
                assert forall|k: int| 0 <= k < r0.len() implies r0[k] != tile.hex by {
                    let x = r0[k];
                    assert(r0.contains(x));
                    let k2 = choose|k2: int|
                        0 <= k2 < i && (#[trigger] map.tiles@[k2]).hex == x
                            && map.tiles@[k2].data.spawn_zone is Some;
                    assert(map.tiles@[k2].hex != map.tiles@[i as int].hex);
                }
            }
            r.push(tile.hex);
            proof {
                assert(r@ == r0.push(tile.hex));
                assert forall|h: Hex|
                    r@.contains(h) <==> (exists|k: int|
                        0 <= k < i + 1 && (#[trigger] map.tiles@[k]).hex == h
                            && map.tiles@[k].data.spawn_zone is Some) by {
                    if r@.contains(h) {
                        let j = choose|j: int| 0 <= j < r@.len() && r@[j] == h;
                        if j < r0.len() {
                            assert(r0[j] == h);
                            assert(r0.contains(h));
                        } else {
                            assert(map.tiles@[i as int].hex == h);
                        }
                    }
                    if exists|k: int|
                        0 <= k < i + 1 && (#[trigger] map.tiles@[k]).hex == h
                            && map.tiles@[k].data.spawn_zone is Some {
                        let k = choose|k: int|
                            0 <= k < i + 1 && (#[trigger] map.tiles@[k]).hex == h
                                && map.tiles@[k].data.spawn_zone is Some;
                        if k == i as int {
                            assert(r@[r0.len() as int] == h);
                        } else {
                            assert(r0.contains(h));
                            let j = choose|j: int| 0 <= j < r0.len() && r0[j] == h;
                            assert(r@[j] == h);
                        }
                    }
                }
            }
        } else {
            proof {
                assert forall|h: Hex|
                    r@.contains(h) <==> (exists|k: int|
                        0 <= k < i + 1 && (#[trigger] map.tiles@[k]).hex == h
                            && map.tiles@[k].data.spawn_zone is Some) by {
                    if exists|k: int|
                        0 <= k < i + 1 && (#[trigger] map.tiles@[k]).hex == h
                            && map.tiles@[k].data.spawn_zone is Some {
                        let k = choose|k: int|
                            0 <= k < i + 1 && (#[trigger] map.tiles@[k]).hex == h
                                && map.tiles@[k].data.spawn_zone is Some;
                        assert(k != i as int);
                    }
                }
            }
        }
        i = i + 1;
    }
    proof {
        assert forall|h: Hex| r@.to_set().contains(h) == spawn_zone_set(*map).contains(h) by {
            if r@.contains(h) {
                let k = choose|k: int|
                    0 <= k < i && (#[trigger] map.tiles@[k]).hex == h
                        && map.tiles@[k].data.spawn_zone is Some;
                let j = map.index_of(h);
                if j != k {
                    if j < k {
                        assert(map.tiles@[j].hex != map.tiles@[k].hex);
                    } else {
                        assert(map.tiles@[k].hex != map.tiles@[j].hex);
                    }
                }
            }
            if spawn_zone_set(*map).contains(h) {
                let j = map.index_of(h);
                assert(map.tiles@[j].hex == h);
                assert(r@.contains(h));
            }
        }
        assert(r@.to_set() =~= spawn_zone_set(*map));
    }
    r
}

/// Highlights a newly marked spawn tile.
pub fn on_add_spawn_marker(tiles: &mut Vec<Hex>, event: &AddSpawnMarkerEvent)
    ensures
        final(tiles)@ == old(tiles)@.push(event.hex),
{
    tiles.push(event.hex);
}

/// Position of the first occurrence of `hex` in `tiles`.
pub open spec fn first_index(tiles: Seq<Hex>, hex: Hex) -> int {
    choose|i: int| 0 <= i < tiles.len() && tiles[i] == hex && forall|j: int| 0 <= j < i ==> tiles[j] != hex
}

/// The highlighted tiles after the highlight of `hex` is taken away: the first
/// occurrence is overwritten by the last tile, which then leaves the end;
/// without an occurrence nothing changes.
pub open spec fn spec_remove_marker(tiles: Seq<Hex>, hex: Hex) -> Seq<Hex> {
    if tiles.contains(hex) {
        let i = first_index(tiles, hex);
        tiles.update(i, tiles.last()).drop_last()
    } else {
        tiles
    }
}

/// Takes away the highlight of an unmarked spawn tile.
pub fn on_remove_spawn_marker(tiles: &mut Vec<Hex>, event: &RemoveSpawnMarkerEvent)
    ensures
        final(tiles)@ == spec_remove_marker(old(tiles)@, event.hex),
{
    let mut i: usize = 0;
    while i < tiles.len()
        invariant
            i <= tiles@.len(),
            tiles@ == old(tiles)@,
            forall|k: int| 0 <= k < i ==> tiles@[k] != event.hex,
        decreases tiles@.len() - i,
    {
        if tiles[i] == event.hex {
            proof {
                assert(tiles@[i as int] == event.hex);
                assert(tiles@.contains(event.hex));
                let j = first_index(tiles@, event.hex);
                assert(0 <= j < tiles@.len() && tiles@[j] == event.hex && forall|k: int|
                    0 <= k < j ==> tiles@[k] != event.hex);
                if j < i as int {
                    assert(tiles@[j] != event.hex);
                }
                if j > i as int {
                    assert(tiles@[i as int] != event.hex);
                }
            }
            tiles.swap_remove(i);
            return;
        }
        i = i + 1;
    }
}

/// A value that occurs in a sequence has a first occurrence.
proof fn lemma_first_occurrence_exists(t: Seq<Hex>, hex: Hex, k: int)
    requires
        0 <= k < t.len(),
        t[k] == hex,
    ensures
        exists|i: int| 0 <= i < t.len() && t[i] == hex && forall|j: int| 0 <= j < i ==> t[j] != hex,
    decreases k,
{
    if exists|j: int| 0 <= j < k && t[j] == hex {
        let j = choose|j: int| 0 <= j < k && t[j] == hex;
        lemma_first_occurrence_exists(t, hex, j);
    } else {
        assert(0 <= k < t.len() && t[k] == hex && forall|j: int| 0 <= j < k ==> t[j] != hex);
    }
}

/// Taking away the highlight of a tile just highlighted restores the
/// highlighted tiles exactly.
pub proof fn lemma_remove_marker_undoes_add(tiles: Seq<Hex>, hex: Hex)
    ensures
        spec_remove_marker(tiles.push(hex), hex) == tiles,
{
    let t = tiles.push(hex);
    assert(t[tiles.len() as int] == hex);
    assert(t.contains(hex));
    lemma_first_occurrence_exists(t, hex, tiles.len() as int);
    let i = first_index(t, hex);
    assert(t[i] == hex);
    assert(t.update(i, t.last()).drop_last() =~= tiles);
}

} // verus!
