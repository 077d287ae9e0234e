use super::arsenal_item::ArsenalItem;
use vstd::prelude::*;

verus! {

/// What a player does with the queue before acting.
#[derive(Clone, Copy, PartialEq, Eq, Hash, Debug, Structural)]
pub enum DequeueChoice {
    /// Move the item from the pool to the exit, and take what was in the exit.
    DrainAndExit(ArsenalItem),
    /// Take what is in the exit.
    JustExit,
    /// Leave the queue as it is.
    Decline,
}

} // verus!
