//! The end of a combat: its result, and how the client leaves it.
use vstd::prelude::*;
use crate::combat::{ActorId, UnitId};
use crate::spawning::DespawnMapCommand;
use crate::states::{ApplicationState, CombatState, GameState};

verus! {

/// The combat state at the end of a combat: victory where the local player is
/// among the winners, defeat otherwise.
pub fn on_combat_finished(winners: &Vec<ActorId>, local: ActorId) -> (r: CombatState)
    ensures
        r == (if winners@.contains(local) {
            CombatState::Victory
        } else {
            CombatState::Defeated
        }),
{
    let mut i: usize = 0;
    while i < winners.len()
        invariant
            i <= winners@.len(),
            forall|k: int| 0 <= k < i ==> winners@[k] != local,
        decreases winners@.len() - i,
    {
        if winners[i] == local {
            assert(winners@[i as int] == local);
            return CombatState::Victory;
        }
        i = i + 1;
    }
    CombatState::Defeated
}

/// Whether the unit `id` fell in the combat: the player's unit list keeps only
/// the units that did not.
pub fn is_casualty(casualties: &Vec<UnitId>, id: UnitId) -> (r: bool)
    ensures
        r == casualties@.contains(id),
{
    let mut i: usize = 0;
    while i < casualties.len()
        invariant
            i <= casualties@.len(),
            forall|k: int| 0 <= k < i ==> casualties@[k] != id,
        decreases casualties@.len() - i,
    {
        if casualties[i] == id {
            assert(casualties@[i as int] == id);
            return true;
        }
        i = i + 1;
    }
    false
}

/// Units that are not among `casualties`.
pub open spec fn not_casualty(casualties: Seq<UnitId>) -> spec_fn(UnitId) -> bool {
    |id: UnitId| !casualties.contains(id)
}

/// The player's units after a combat: those of `units` that did not fall, in
/// their order.
pub fn surviving_units(units: &Vec<UnitId>, casualties: &Vec<UnitId>) -> (r: Vec<UnitId>)
    ensures
        r@ == units@.filter(not_casualty(casualties@)),
{
    let mut kept: Vec<UnitId> = Vec::new();
    let mut i: usize = 0;
    while i < units.len()
        invariant
            i <= units@.len(),
            kept@ == units@.subrange(0, i as int).filter(not_casualty(casualties@)),
        decreases units@.len() - i,
    {
        let id = units[i];
        proof {
            reveal(Seq::filter);
            assert(units@.subrange(0, i as int + 1).drop_last() == units@.subrange(0, i as int));
            assert(units@.subrange(0, i as int + 1).last() == id);
        }
        if !is_casualty(casualties, id) {
            kept.push(id);
        }
        i = i + 1;
    }
    proof {
        assert(units@.subrange(0, units@.len() as int) == units@);
    }
    kept
}

/// How to go on after leaving a combat.
#[derive(Clone, Copy, Debug, PartialEq, Eq, Structural)]
pub enum LeaveCombatAction {
    BackToMainMenu,
    ProceedAfterVictory,
}

/// Asks the client to leave the combat.
#[derive(Clone, Copy, Debug, PartialEq, Eq, Structural)]
pub struct LeaveCombatCommand {
    pub how: LeaveCombatAction,
}

impl LeaveCombatCommand {
    /// Leave and go on with the game after a victory.
    pub fn proceed() -> (r: LeaveCombatCommand)
        ensures
            r.how == LeaveCombatAction::ProceedAfterVictory,
    {
        LeaveCombatCommand { how: LeaveCombatAction::ProceedAfterVictory }
    }

    /// Leave and return to the main menu.
    pub fn quit() -> (r: LeaveCombatCommand)
        ensures
            r.how == LeaveCombatAction::BackToMainMenu,
    {
        LeaveCombatCommand { how: LeaveCombatAction::BackToMainMenu }
    }
}

/// What leaving a combat does besides dropping the combat's data.
#[derive(Clone, Copy, Debug, PartialEq, Eq, Structural)]
pub struct LeaveCombatEffects {
    /// Despawn the map.
    pub despawn_map: DespawnMapCommand,
    /// The combat state to return to.
    pub combat_state: CombatState,
    /// The game state to return to.
    pub game_state: GameState,
    /// The application state to switch to, if any.
    pub application_state: Option<ApplicationState>,
    /// Whether to tell the server that the player proceeds.
    pub send_proceed: bool,
}

/// Leaving a combat despawns the map and resets the combat and game states;
/// quitting returns to the main menu, proceeding tells the server.
pub fn on_leave_combat(command: &LeaveCombatCommand) -> (r: LeaveCombatEffects)
    ensures
        r.despawn_map == DespawnMapCommand,
        r.combat_state == CombatState::WaitingForServer,
        r.game_state == GameState::Inactive,
        r.application_state == (match command.how {
            LeaveCombatAction::BackToMainMenu => Some(ApplicationState::MainMenu),
            LeaveCombatAction::ProceedAfterVictory => None::<ApplicationState>,
        }),
        r.send_proceed == (command.how == LeaveCombatAction::ProceedAfterVictory),
{
    let (application_state, send_proceed) = match command.how {
        LeaveCombatAction::BackToMainMenu => (Some(ApplicationState::MainMenu), false),
        LeaveCombatAction::ProceedAfterVictory => (None, true),
    };
    LeaveCombatEffects {
        despawn_map: DespawnMapCommand,
        combat_state: CombatState::WaitingForServer,
        game_state: GameState::Inactive,
        application_state,
        send_proceed,
    }
}

} // verus!
