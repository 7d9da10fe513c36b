//! Turn-based hexagon tactics client: the game rules and decisions that the
//! client's systems act on, stated over plain values and verified.

pub mod hex;
pub mod keyed;
pub mod map;
pub mod combat;
pub mod states;
pub mod combat_events;
pub mod highlights;
pub mod unit_actions;
pub mod placement;
pub mod editor;
pub mod cursor;
pub mod leave_combat;
pub mod spawning;
pub mod animation;
pub mod update_tile;
pub mod network;
