use super::action::Action;
use super::moves::Move;
use vstd::prelude::*;

verus! {

/// What a player holds in the arsenal and what moves through the queue: the
/// mirror, or one move.
#[derive(Clone, Copy, PartialEq, Eq, Hash, Debug, Structural)]
pub enum ArsenalItem {
    Mirror,
    Move(Move),
}

impl ArsenalItem {
    pub open spec fn spec_as_move_action(self) -> Option<Action> {
        match self {
            ArsenalItem::Move(m) => Some(Action::Move(m)),
            ArsenalItem::Mirror => None,
        }
    }

    /// The action of using this item from the arsenal; the mirror alone is no
    /// action.
    pub fn as_move_action(self) -> (action: Option<Action>)
        ensures
            action == self.spec_as_move_action(),
    {
        match self {
            ArsenalItem::Move(m) => Some(Action::Move(m)),
            ArsenalItem::Mirror => None,
        }
    }

    pub open spec fn spec_as_mirror_action(self) -> Option<Action> {
        match self {
            ArsenalItem::Move(m) => Some(Action::Mirror(m)),
            ArsenalItem::Mirror => None,
        }
    }

    /// The action of mirroring this item while it sits in the pool; a mirror
    /// in the pool cannot be mirrored.
    pub fn as_mirror_action(self) -> (action: Option<Action>)
        ensures
            action == self.spec_as_mirror_action(),
    {
        match self {
            ArsenalItem::Move(m) => Some(Action::Mirror(m)),
            ArsenalItem::Mirror => None,
        }
    }
}

} // verus!
