//! The hexagon map: tiles with their height, surface, fluid and spawn zone.
use vstd::prelude::*;
use crate::hex::{all_neighbors, in_bounds, neighbor_seq, Hex, COORD_LIMIT};

verus! {

/// Surface material of a tile.
#[derive(Clone, Copy, Debug, PartialEq, Eq, Hash, Structural)]
pub enum TileSurface {
    Grass,
    Stone,
    Sand,
    Earth,
}

/// Kind of fluid that can cover a tile.
#[derive(Clone, Copy, Debug, PartialEq, Eq, Hash, Structural)]
pub enum FluidKind {
    Water,
}

/// Number of fluid height units that make up one tile height unit: fluid
/// heights are held in hundredths of a tile height unit.
pub const FLUID_UNITS_PER_HEIGHT: i32 = 100;

/// A fluid on top of a tile; `height` counts hundredths of a tile height unit
/// above the tile's surface.
#[derive(Clone, Copy, Debug, PartialEq, Eq, Hash, Structural)]
pub struct Fluid {
    pub kind: FluidKind,
    pub height: i32,
}

/// Everything the map knows about one tile.
#[derive(Clone, Copy, Debug, PartialEq, Eq, Hash, Structural)]
pub struct TileData {
    pub height: u8,
    pub surface: TileSurface,
    pub fluid: Option<Fluid>,
    pub spawn_zone: Option<u8>,
}

/// One tile of a map at its coordinate.
#[derive(Clone, Copy, Debug, PartialEq, Eq, Hash, Structural)]
pub struct MapTile {
    pub hex: Hex,
    pub data: TileData,
}

/// A map: its tiles, each coordinate at most once.
#[derive(Clone, Debug)]
pub struct GameMap {
    pub tiles: Vec<MapTile>,
}

impl GameMap {
    /// No coordinate occurs twice.
    pub open spec fn wf(&self) -> bool {
        forall|i: int, j: int|
            0 <= i < j < self.tiles@.len() ==> #[trigger] self.tiles@[i].hex
                != #[trigger] self.tiles@[j].hex
    }

    /// The map has a tile at `h`.
    pub open spec fn has(&self, h: Hex) -> bool {
        exists|i: int| 0 <= i < self.tiles@.len() && #[trigger] self.tiles@[i].hex == h
    }

    /// Position of the tile at `h` in the tile list.
    pub open spec fn index_of(&self, h: Hex) -> int {
        choose|i: int| 0 <= i < self.tiles@.len() && #[trigger] self.tiles@[i].hex == h
    }

    /// The data of the tile at `h` (meaningful where `has(h)`).
    pub open spec fn tile(&self, h: Hex) -> TileData {
        self.tiles@[self.index_of(h)].data
    }

    /// The set of coordinates that have a tile.
    pub open spec fn tile_set(&self) -> Set<Hex> {
        Set::new(|h: Hex| self.has(h))
    }

    /// The map as a mapping from coordinates to tile data.
    pub open spec fn tile_map(&self) -> Map<Hex, TileData> {
        Map::new(|h: Hex| self.has(h), |h: Hex| self.tile(h))
    }

    /// A map without tiles.
    pub fn empty() -> (r: GameMap)
        ensures
            r.wf(),
            r.tile_map() == Map::<Hex, TileData>::empty(),
    {
        let r = GameMap { tiles: Vec::new() };
        assert(r.tile_map() =~= Map::<Hex, TileData>::empty());
        r
    }

    /// Position of the tile at `h`, if there is one.
    pub fn find(&self, h: Hex) -> (r: Option<usize>)
        requires
            self.wf(),
        ensures
            r is None <==> !self.has(h),
            r matches Some(i) ==> i < self.tiles@.len() && self.tiles@[i as int].hex == h
                && i == self.index_of(h),
    {
        let mut i: usize = 0;
        while i < self.tiles.len()
            invariant
                self.wf(),
                i <= self.tiles@.len(),
                forall|k: int| 0 <= k < i ==> #[trigger] self.tiles@[k].hex != h,
            decreases self.tiles@.len() - i,
        {
            if self.tiles[i].hex == h {
                proof {
                    let j = self.index_of(h);
                    assert(0 <= j < self.tiles@.len() && self.tiles@[j].hex == h);
                    if j != i as int {
                        if j < i as int {
                            assert(self.tiles@[j].hex != self.tiles@[i as int].hex);
                        } else {
                            assert(self.tiles@[i as int].hex != self.tiles@[j].hex);
                        }
                    }
                }
                return Some(i);
            }
            i = i + 1;
        }
        None
    }

    /// Whether the map has a tile at `h`.
    pub fn contains(&self, h: Hex) -> (r: bool)
        requires
            self.wf(),
        ensures
            r == self.has(h),
    {
        self.find(h).is_some()
    }

    /// Whether `h` blocks the view across the map: it does where the map has no
    /// tile.
    pub fn blocks_view(&self, h: Hex) -> (r: bool)
        requires
            self.wf(),
        ensures
            r == !self.has(h),
    {
        !self.contains(h)
    }

    /// The data of the tile at `h`, if there is one.
    pub fn get(&self, h: Hex) -> (r: Option<TileData>)
        requires
            self.wf(),
        ensures
            r == (if self.has(h) { Some(self.tile(h)) } else { None::<TileData> }),
    {
        match self.find(h) {
            Some(i) => Some(self.tiles[i].data),
            None => None,
        }
    }

    /// Sets the data of the tile at `h`, adding the tile where there was none.
    pub fn set(&mut self, h: Hex, data: TileData)
        requires
            old(self).wf(),
        ensures
            final(self).wf(),
            final(self).tile_map() == old(self).tile_map().insert(h, data),
    {
        match self.find(h) {
            Some(i) => {
                let ghost pre = self.tiles@;
                self.tiles.set(i, MapTile { hex: h, data });
                proof {
                    assert forall|a: int, b: int|
                        0 <= a < b < self.tiles@.len() implies #[trigger] self.tiles@[a].hex
                        != #[trigger] self.tiles@[b].hex by {
                        assert(pre[a].hex != pre[b].hex);
                    }
                    assert forall|g: Hex| self.has(g) == old(self).has(g) by {
                        if old(self).has(g) {
                            let k = old(self).index_of(g);
                            assert(self.tiles@[k].hex == g);
                        }
                        if self.has(g) {
                            let k = self.index_of(g);
                            assert(pre[k].hex == g);
                        }
                    }
                    assert forall|g: Hex| self.has(g) implies #[trigger] self.tile(g) == (if g
                        == h { data } else { old(self).tile(g) }) by {
                        let k = self.index_of(g);
                        let k0 = old(self).index_of(g);
                        if k != k0 {
                            if k < k0 {
                                assert(pre[k].hex != pre[k0].hex);
                            } else {
                                assert(pre[k0].hex != pre[k].hex);
                            }
                        }
                    }
                    assert(self.tile_map() =~= old(self).tile_map().insert(h, data));
                }
            },
            None => {
                let ghost pre = self.tiles@;
                self.tiles.push(MapTile { hex: h, data });
                proof {
                    let n = pre.len() as int;
                    assert forall|a: int, b: int|
                        0 <= a < b < self.tiles@.len() implies #[trigger] self.tiles@[a].hex
                        != #[trigger] self.tiles@[b].hex by {
                        if b == n {
                            assert(!old(self).has(h));
                            assert(pre[a].hex != h);
                        } else {
                            assert(pre[a].hex != pre[b].hex);
                        }
                    }
                    assert(self.tiles@[n].hex == h);
                    assert forall|g: Hex| #[trigger] self.has(g) == (old(self).has(g) || g == h) by {
                        if old(self).has(g) {
                            let k = old(self).index_of(g);
                            assert(self.tiles@[k].hex == g);
                        }
                        if self.has(g) && g != h {
                            let k = self.index_of(g);
                            assert(k != n);
                            assert(pre[k].hex == g);
                        }
                    }
                    assert forall|g: Hex| self.has(g) implies #[trigger] self.tile(g) == (if g
                        == h { data } else { old(self).tile(g) }) by {
                        let k = self.index_of(g);
                        if g == h {
                            if k != n {
                                assert(pre[k].hex == h);
                                assert(old(self).has(h));
                            }
                        } else {
                            let k0 = old(self).index_of(g);
                            assert(k != n);
                            if k != k0 {
                                if k < k0 {
                                    assert(pre[k].hex != pre[k0].hex);
                                } else {
                                    assert(pre[k0].hex != pre[k].hex);
                                }
                            }
                        }
                    }
                    assert(self.tile_map() =~= old(self).tile_map().insert(h, data));
                }
            },
        }
    }
}

/// Which of a tile set's materials a tile's top or sides are drawn with.
#[derive(Clone, Copy, Debug, PartialEq, Eq, Hash, Structural)]
pub enum SurfaceMaterial {
    Invisible,
    Grass,
    Stone,
    Sand,
    Earth,
}

/// The material for a tile: invisible at height 0, else the one of its surface.
pub open spec fn spec_surface_material(tile: TileData) -> SurfaceMaterial {
    if tile.height == 0 {
        SurfaceMaterial::Invisible
    } else {
        match tile.surface {
            TileSurface::Grass => SurfaceMaterial::Grass,
            TileSurface::Stone => SurfaceMaterial::Stone,
            TileSurface::Sand => SurfaceMaterial::Sand,
            TileSurface::Earth => SurfaceMaterial::Earth,
        }
    }
}

/// The name of a surface.
pub open spec fn surface_name(surface: TileSurface) -> Seq<char> {
    match surface {
        TileSurface::Grass => "Grass"@,
        TileSurface::Stone => "Stone"@,
        TileSurface::Sand => "Sand"@,
        TileSurface::Earth => "Earth"@,
    }
}

/// The name of a fluid kind.
pub open spec fn fluid_name(kind: FluidKind) -> Seq<char> {
    match kind {
        FluidKind::Water => "Water"@,
    }
}

/// The name of a material.
pub open spec fn material_name(material: SurfaceMaterial) -> Seq<char> {
    match material {
        SurfaceMaterial::Invisible => "Invisible"@,
        SurfaceMaterial::Grass => "Grass"@,
        SurfaceMaterial::Stone => "Stone"@,
        SurfaceMaterial::Sand => "Sand"@,
        SurfaceMaterial::Earth => "Earth"@,
    }
}

/// A tile at height 0 is invisible; a visible tile is drawn with the material
/// named like its own surface, so tiles of different surfaces never share a
/// material.
pub proof fn lemma_material_follows_surface(tile: TileData, other: TileData)
    ensures
        tile.height == 0 <==> spec_surface_material(tile) == SurfaceMaterial::Invisible,
        tile.height > 0 ==> material_name(spec_surface_material(tile)) == surface_name(tile.surface),
        tile.height > 0 && other.height > 0 && spec_surface_material(tile) == spec_surface_material(
            other,
        ) ==> tile.surface == other.surface,
{
    reveal_strlit("Grass");
    reveal_strlit("Stone");
    reveal_strlit("Sand");
    reveal_strlit("Earth");
    reveal_strlit("Invisible");
}

/// The material a tile's top or sides are drawn with.
pub fn surface_material(tile: &TileData) -> (r: SurfaceMaterial)
    ensures
        r == spec_surface_material(*tile),
{
    if tile.height == 0 {
        SurfaceMaterial::Invisible
    } else {
        match tile.surface {
            TileSurface::Grass => SurfaceMaterial::Grass,
            TileSurface::Stone => SurfaceMaterial::Stone,
            TileSurface::Sand => SurfaceMaterial::Sand,
            TileSurface::Earth => SurfaceMaterial::Earth,
        }
    }
}

/// A neighbour hides the sides of a tile of height `height` only where the map
/// has a tile there that is at least as high.
pub open spec fn exposes_side(map: GameMap, neighbor: Hex, height: u8) -> bool {
    !map.has(neighbor) || map.tile(neighbor).height < height
}

/// A tile of height `height` at `hex` needs side walls: it is above height 0
/// and some neighbour exposes its side.
pub open spec fn sides_needed(map: GameMap, hex: Hex, height: u8) -> bool {
    height != 0 && exists|k: int|
        0 <= k < 6 && exposes_side(map, #[trigger] neighbor_seq(hex)[k], height)
}

/// Side walls: a tile at height 0 needs none; a tile above 0 needs them where
/// a neighbouring coordinate has no tile, and not where all six neighbours are
/// tiles at least as high; and raising a tile never makes walls unnecessary.
pub proof fn lemma_sides_needed_by_height(map: GameMap, hex: Hex, height: u8, higher: u8)
    requires
        height <= higher,
    ensures
        !sides_needed(map, hex, 0),
        height > 0 && (exists|k: int| 0 <= k < 6 && !map.has(#[trigger] neighbor_seq(hex)[k]))
            ==> sides_needed(map, hex, height),
        (forall|k: int|
            0 <= k < 6 ==> map.has(#[trigger] neighbor_seq(hex)[k]) && map.tile(
                neighbor_seq(hex)[k],
            ).height >= height) ==> !sides_needed(map, hex, height),
        sides_needed(map, hex, height) ==> sides_needed(map, hex, higher),
{
    if sides_needed(map, hex, height) {
        let k = choose|k: int| 0 <= k < 6 && exposes_side(map, #[trigger] neighbor_seq(hex)[k], height);
        assert(exposes_side(map, neighbor_seq(hex)[k], higher));
    }
    if height > 0 && (exists|k: int| 0 <= k < 6 && !map.has(#[trigger] neighbor_seq(hex)[k])) {
        let k = choose|k: int| 0 <= k < 6 && !map.has(#[trigger] neighbor_seq(hex)[k]);
        assert(exposes_side(map, neighbor_seq(hex)[k], height));
    }
}

/// Whether a tile at `hex` with `tile` data needs side walls: it does unless it
/// is at height 0 or all six neighbours are tiles at least as high.
pub fn are_tile_sides_necessary(map: &GameMap, tile: &TileData, hex: &Hex) -> (r: bool)
    requires
        map.wf(),
        i32::MIN < hex.x < i32::MAX,
        i32::MIN < hex.y < i32::MAX,
    ensures
        r == sides_needed(*map, *hex, tile.height),
{
    if tile.height == 0 {
        return false;
    }
    let neighbors = all_neighbors(*hex);
    let mut i: usize = 0;
    while i < 6
        invariant
            map.wf(),
            tile.height != 0,
            i <= 6,
            neighbors@ == neighbor_seq(*hex),
            forall|k: int|
                0 <= k < i ==> !exposes_side(*map, #[trigger] neighbor_seq(*hex)[k], tile.height),
        decreases 6 - i,
    {
        let exposed = match map.get(neighbors[i]) {
            None => true,
            Some(neighbor) => neighbor.height < tile.height,
        };
        if exposed {
            assert(exposes_side(*map, neighbor_seq(*hex)[i as int], tile.height));
            return true;
        }
        i = i + 1;
    }
    false
}

/// The entities that draw one tile: a top, side walls where the tile needs
/// them, and a fluid surface where it holds fluid.
#[derive(Clone, Copy, Debug, PartialEq, Eq, Structural)]
pub struct TileEntityPlan {
    pub hex: Hex,
    pub top: SurfaceMaterial,
    pub sides: Option<SurfaceMaterial>,
    pub fluid: Option<Fluid>,
}

/// How the tile at `hex` with data `tile` is drawn on `map`: its top and (where
/// needed) its sides in the tile's material, and its fluid if it has one.
pub fn plan_tile_entities(map: &GameMap, hex: Hex, tile: &TileData) -> (r: TileEntityPlan)
    requires
        map.wf(),
        i32::MIN < hex.x < i32::MAX,
        i32::MIN < hex.y < i32::MAX,
    ensures
        r.hex == hex,
        r.top == spec_surface_material(*tile),
        r.sides == (if sides_needed(*map, hex, tile.height) {
            Some(spec_surface_material(*tile))
        } else {
            None::<SurfaceMaterial>
        }),
        r.fluid == tile.fluid,
{
    let material = surface_material(tile);
    let sides = if are_tile_sides_necessary(map, tile, &hex) {
        Some(material)
    } else {
        None
    };
    TileEntityPlan { hex, top: material, sides, fluid: tile.fluid }
}

/// The coordinates that hexx's `range_fov` sees from `center` within `range`,
/// where exactly the coordinates outside `tiles` block the view.
pub uninterp spec fn fov_tiles(center: Hex, range: u32, tiles: Set<Hex>) -> Set<Hex>;

/// Calls `hexx::algorithms::range_fov(center, range, blocking)` with the
/// coordinates without a tile of `map` as blocking, and lists the coordinates of
/// the returned `HashSet`. The contract names the set (`fov_tiles`) as a
/// function of the center, the range and the map's tile coordinates, and says
/// that the list repeats no coordinate; the order of the list follows the hash
/// set's iteration and is left unsaid. `requires` keeps hexx's 32-bit ring
/// arithmetic from overflowing.
#[verifier::external_body]
pub(crate) fn hexx_range_fov(center: Hex, range: u32, map: &GameMap) -> (r: Vec<Hex>)
    requires
        map.wf(),
        in_bounds(center),
        range <= COORD_LIMIT,
    ensures
        r@.to_set() == fov_tiles(center, range, map.tile_set()),
        r@.no_duplicates(),
{
    let seen = hexx::algorithms::range_fov(hexx::Hex::new(center.x, center.y), range, |h| {
        map.blocks_view(Hex { x: h.x, y: h.y })
    });
    seen.into_iter().map(|h| Hex { x: h.x, y: h.y }).collect()
}

} // verus!
