//! What an application that shows the checks can ask to be refreshed.

use vstd::prelude::*;

verus! {

/// An action to be performed on the application's state.
#[derive(Debug, Clone, Copy, PartialEq, Eq, PartialOrd, Ord)]
pub enum Action {
    /// Refresh the flake from its URL.
    RefreshFlake,
    /// Refresh the Nix information.
    GetNixInfo,
}

impl Default for Action {
    fn default() -> (r: Self)
        ensures
            r == Action::GetNixInfo,
    {
        Action::GetNixInfo
    }
}

/// The count of actions asked for so far, and the latest of them.
pub open spec fn acted(state: (usize, Action), action: Action) -> (usize, Action) {
    ((state.0 + 1) as usize, action)
}

/// Records one more action. `None` where the count is at its limit.
pub fn act(state: (usize, Action), action: Action) -> (r: Option<(usize, Action)>)
    ensures
        r == if state.0 < usize::MAX {
            Some(acted(state, action))
        } else {
            None
        },
{
    if state.0 < usize::MAX {
        Some((state.0 + 1, action))
    } else {
        None
    }
}

} // verus!
