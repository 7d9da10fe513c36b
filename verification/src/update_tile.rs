//! Pushing a tile's changed data into the entities that draw it.
use vstd::prelude::*;

verus! {

/// Listens to tile changes and pushes them into the tile entities.
#[derive(Clone, Copy, Debug, Default, PartialEq, Eq, Structural)]
pub struct TileUpdaterPlugin;

/// What to do with the entity that draws a tile's fluid.
#[derive(Clone, Copy, Debug, PartialEq, Eq, Structural)]
pub enum FluidEntityAction {
    /// Move the existing fluid entity to the fluid's new height.
    Reposition,
    /// Spawn a fluid entity for the new fluid.
    Spawn,
    /// Despawn the fluid entity of the fluid that is gone.
    Despawn,
    /// Nothing to draw, nothing drawn.
    Nothing,
}

impl TileUpdaterPlugin {
    /// How the fluid entity follows the tile: a fluid is drawn by its entity
    /// (moved if it exists, spawned if not), and an entity without fluid goes.
    pub fn fluid_entity_action(has_fluid: bool, has_entity: bool) -> (r: FluidEntityAction)
        ensures
            r == (if has_fluid {
                if has_entity {
                    FluidEntityAction::Reposition
                } else {
                    FluidEntityAction::Spawn
                }
            } else {
                if has_entity {
                    FluidEntityAction::Despawn
                } else {
                    FluidEntityAction::Nothing
                }
            }),
    {
        if has_fluid {
            if has_entity {
                FluidEntityAction::Reposition
            } else {
                FluidEntityAction::Spawn
            }
        } else {
            if has_entity {
                FluidEntityAction::Despawn
            } else {
                FluidEntityAction::Nothing
            }
        }
    }
}

} // verus!
