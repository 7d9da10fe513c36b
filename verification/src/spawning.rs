//! Spawning and despawning the map's tile entities, as a small state machine.
use vstd::prelude::*;
use crate::states::MapState;

verus! {

/// Asks for the tiles of the current map to be spawned.
#[derive(Clone, Copy, Debug, Default, PartialEq, Eq, Structural)]
pub struct SpawnMapCommand;

/// Asks for the map's tiles to be despawned.
#[derive(Clone, Copy, Debug, Default, PartialEq, Eq, Structural)]
pub struct DespawnMapCommand;

/// A step in the life of the map's tile entities.
#[derive(Clone, Copy, Debug, PartialEq, Eq, Structural)]
pub enum MapLifecycleEvent {
    SpawnRequested(SpawnMapCommand),
    DespawnRequested(DespawnMapCommand),
    TilesSpawned,
    TilesDespawned,
}

/// The map state a lifecycle step leads to: a request moves to spawning or
/// despawning, and finishing that work makes the map ready or unloaded.
pub open spec fn spec_next_map_state(event: MapLifecycleEvent) -> MapState {
    match event {
        MapLifecycleEvent::SpawnRequested(_) => MapState::Spawning,
        MapLifecycleEvent::DespawnRequested(_) => MapState::Despawning,
        MapLifecycleEvent::TilesSpawned => MapState::Ready,
        MapLifecycleEvent::TilesDespawned => MapState::Unloaded,
    }
}

/// Spawns the tiles of a map when `SpawnMapCommand` is sent (the map itself
/// must already be in place) and despawns them when `DespawnMapCommand` is
/// sent.
#[derive(Clone, Copy, Debug, Default, PartialEq, Eq, Structural)]
pub struct MapSpawningPlugin;

impl MapSpawningPlugin {
    /// The map state a lifecycle step leads to.
    pub fn next_map_state(event: MapLifecycleEvent) -> (r: MapState)
        ensures
            r == spec_next_map_state(event),
    {
        match event {
            MapLifecycleEvent::SpawnRequested(_) => MapState::Spawning,
            MapLifecycleEvent::DespawnRequested(_) => MapState::Despawning,
            MapLifecycleEvent::TilesSpawned => MapState::Ready,
            MapLifecycleEvent::TilesDespawned => MapState::Unloaded,
        }
    }
}

} // verus!
