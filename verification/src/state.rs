//! The pass-through state wrapper's transition rule. The launcher wraps an
//! optional inner game state; each per-frame update is forwarded to the inner
//! state when one is present, and otherwise the wrapper stays where it is.

use vstd::prelude::*;

verus! {

/// What a state update asks the engine to do next with the state stack.
#[derive(Debug, PartialEq, Eq, Structural, Clone, Copy)]
pub enum Transition {
    /// Keep running the current state.
    Stay,
    /// Push a new state on top of the current one.
    Push,
    /// Drop the current state.
    Pop,
    /// Replace the current state.
    Switch,
    /// Shut the application down.
    Quit,
}

/// The wrapper's per-frame decision: the inner state's transition when an
/// inner state is present and produced one, else the no-op transition.
pub fn resolve_update(delegated: Option<Transition>) -> (t: Transition)
    ensures
        delegated matches Some(inner) ==> t == inner,
        delegated is None ==> t == Transition::Stay,
{
    match delegated {
        Some(inner) => inner,
        None => Transition::Stay,
    }
}

} // verus!
