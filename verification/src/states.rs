//! The state machines the client switches between.
use vstd::prelude::*;

verus! {

/// Top-level mode of the application.
#[derive(Clone, Copy, Debug, PartialEq, Eq, Hash, Structural)]
pub enum ApplicationState {
    MainMenu,
    MapEditor,
    InGame,
}

/// Whether the mouse pointer is over a UI window.
#[derive(Clone, Copy, Debug, PartialEq, Eq, Hash, Structural)]
pub enum MouseCursorOverUiState {
    NotOverUI,
    OverUI,
}

/// Which page of the main menu is shown.
#[derive(Clone, Copy, Debug, PartialEq, Eq, Hash, Structural)]
pub enum MenuState {
    MainMenu,
    PlayMenu,
}

/// Connection to the game server.
#[derive(Clone, Copy, Debug, PartialEq, Eq, Hash, Structural)]
pub enum NetworkState {
    Disconnected,
    Connecting,
    Connected,
}

/// What the game part of the client is doing.
#[derive(Clone, Copy, Debug, PartialEq, Eq, Hash, Structural)]
pub enum GameState {
    Inactive,
    Combat,
    ChooseBetweenUnits,
}

/// Lifecycle of the map's tile entities.
#[derive(Clone, Copy, Debug, PartialEq, Eq, Hash, Structural)]
pub enum MapState {
    Unloaded,
    Spawning,
    Ready,
    Despawning,
}

/// Phase of a combat as this client sees it.
#[derive(Clone, Copy, Debug, PartialEq, Eq, Hash, Structural)]
pub enum CombatState {
    WaitingForServer,
    WaitingForOtherPlayer,
    PlaceUnit,
    ThisPlayerUnitTurn,
    Victory,
    Defeated,
}

/// The state the pointer-over-UI tracker moves to, if it changes: `OverUI`
/// while the pointer is over a window, `NotOverUI` otherwise; `None` where the
/// current state already says so.
pub fn next_mouse_cursor_over_ui_state(
    pointer_over_area: bool,
    current: MouseCursorOverUiState,
) -> (r: Option<MouseCursorOverUiState>)
    ensures
        r == (if pointer_over_area {
            if current != MouseCursorOverUiState::OverUI {
                Some(MouseCursorOverUiState::OverUI)
            } else {
                None::<MouseCursorOverUiState>
            }
        } else {
            if current != MouseCursorOverUiState::NotOverUI {
                Some(MouseCursorOverUiState::NotOverUI)
            } else {
                None::<MouseCursorOverUiState>
            }
        }),
{
    if pointer_over_area {
        if current != MouseCursorOverUiState::OverUI {
            Some(MouseCursorOverUiState::OverUI)
        } else {
            None
        }
    } else {
        if current != MouseCursorOverUiState::NotOverUI {
            Some(MouseCursorOverUiState::NotOverUI)
        } else {
            None
        }
    }
}

} // verus!
