//! Stepping a unit's walk along its path.
use vstd::prelude::*;

verus! {

/// Animates units walking along their paths and striking at their targets.
#[derive(Clone, Copy, Debug, Default, PartialEq, Eq, Structural)]
pub struct UnitAnimationPlugin;

impl UnitAnimationPlugin {
    /// The path step a walking unit goes on with once it has finished step
    /// `current_step` of a path of `path_len` tiles; `None` once it has
    /// arrived at the path's end.
    pub fn next_move_step(current_step: usize, path_len: usize) -> (r: Option<usize>)
        requires
            path_len >= 2,
            current_step + 1 < path_len,
        ensures
            r == (if current_step + 2 < path_len {
                Some((current_step + 1) as usize)
            } else {
                None::<usize>
            }),
            r matches Some(s) ==> s + 1 < path_len,
    {
        if current_step < path_len - 2 {
            Some(current_step + 1)
        } else {
            None
        }
    }
}

} // verus!
