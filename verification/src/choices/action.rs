use super::arsenal_item::ArsenalItem;
use super::moves::Move;
use super::PointsAgainst;
use vstd::prelude::*;

verus! {

/// What a player does in a round.
#[derive(Clone, Copy, PartialEq, Eq, Hash, Debug, Structural)]
pub enum Action {
    /// Use the mirror on a move that sits in the pool.
    Mirror(Move),
    /// Use a move of the arsenal.
    Move(Move),
    /// Do nothing, for want of anything to use.
    Concede,
}

impl Action {
    pub open spec fn spec_move(self) -> Option<Move> {
        match self {
            Action::Mirror(m) => Some(m),
            Action::Move(m) => Some(m),
            Action::Concede => None,
        }
    }

    /// The move that the action plays, if it plays one.
    pub fn move_(self) -> (m: Option<Move>)
        ensures
            m == self.spec_move(),
    {
        match self {
            Action::Mirror(m) => Some(m),
            Action::Move(m) => Some(m),
            Action::Concede => None,
        }
    }

    pub open spec fn spec_arsenal_item(self) -> Option<ArsenalItem> {
        match self {
            Action::Mirror(_) => Some(ArsenalItem::Mirror),
            Action::Move(m) => Some(ArsenalItem::Move(m)),
            Action::Concede => None,
        }
    }

    /// The arsenal item that the action spends, if it spends one.
    pub fn into_opt_arsenal_item(self) -> (item: Option<ArsenalItem>)
        ensures
            item == self.spec_arsenal_item(),
    {
        match self {
            Action::Mirror(_) => Some(ArsenalItem::Mirror),
            Action::Move(m) => Some(ArsenalItem::Move(m)),
            Action::Concede => None,
        }
    }

    pub open spec fn spec_is_destructive(self) -> bool {
        match self.spec_move() {
            Some(m) => m.spec_is_destructive(),
            None => false,
        }
    }

    pub fn is_destructive(self) -> (b: bool)
        ensures
            b == self.spec_is_destructive(),
    {
        match self.move_() {
            Some(m) => m.is_destructive(),
            None => false,
        }
    }

    pub open spec fn spec_is_single_use(self) -> bool {
        match self.spec_move() {
            Some(m) => m.spec_is_single_use(),
            None => false,
        }
    }

    pub fn is_single_use(self) -> (b: bool)
        ensures
            b == self.spec_is_single_use(),
    {
        match self.move_() {
            Some(m) => m.is_single_use(),
            None => false,
        }
    }

    /// Whether some action of the batch plays a destructive move.
    pub open spec fn any_destructive(actions: Seq<Action>) -> bool {
        exists|j: int| 0 <= j < actions.len() && (#[trigger] actions[j]).spec_is_destructive()
    }

    /// Whether the item spent by the action at `i` is lost: its own move is
    /// single-use, or any action of the batch is destructive.
    pub open spec fn spec_destroyed(actions: Seq<Action>, i: int) -> bool {
        actions[i].spec_is_single_use() || Action::any_destructive(actions)
    }

    /// For each action of the batch, whether the item it spends is lost.
    pub fn which_destroyed(actions: &[Action]) -> (destroyed: Vec<bool>)
        ensures
            destroyed@.len() == actions@.len(),
            forall|i: int|
                0 <= i < actions@.len() ==> destroyed@[i] == Action::spec_destroyed(actions@, i),
    {
        let n = actions.len();
        let mut was_destructive_used = false;
        let mut j: usize = 0;
        while j < n
            invariant
                n == actions@.len(),
                j <= n,
                was_destructive_used == Action::any_destructive(actions@.take(j as int)),
            decreases n - j,
        {
            let ghost before = actions@.take(j as int);
            let ghost after = actions@.take(j as int + 1);
            proof {
                if Action::any_destructive(before) {
                    let k = choose|k: int|
                        0 <= k < before.len() && (#[trigger] before[k]).spec_is_destructive();
                    assert(after[k].spec_is_destructive());
                }
                if actions@[j as int].spec_is_destructive() {
                    assert(after[j as int].spec_is_destructive());
                }
                if Action::any_destructive(after) {
                    let k = choose|k: int|
                        0 <= k < after.len() && (#[trigger] after[k]).spec_is_destructive();
                    if k < j {
                        assert(before[k].spec_is_destructive());
                    }
                }
            }
            if actions[j].is_destructive() {
                was_destructive_used = true;
            }
            j += 1;
        }
        assert(actions@.take(n as int) =~= actions@);
        let mut destroyed: Vec<bool> = Vec::new();
        let mut i: usize = 0;
        while i < n
            invariant
                n == actions@.len(),
                i <= n,
                was_destructive_used == Action::any_destructive(actions@),
                destroyed@.len() == i,
                forall|k: int|
                    0 <= k < i ==> destroyed@[k] == Action::spec_destroyed(actions@, k),
            decreases n - i,
        {
            destroyed.push(actions[i].is_single_use() || was_destructive_used);
            i += 1;
        }
        destroyed
    }
}

impl Action {
    /// No action scores more than one point against another.
    pub proof fn lemma_points_at_most_one(self, other: Action)
        ensures
            self.spec_points_against(&other) <= 1,
    {
        match (self.spec_move(), other.spec_move()) {
            (Some(own), Some(other)) => own.lemma_points_at_most_one(other),
            _ => {},
        }
    }
}

impl PointsAgainst for Action {
    /// A move scores by the table against a move and one point against a
    /// concession; a concession scores nothing.
    open spec fn spec_points_against(&self, other: &Action) -> u8 {
        match (self.spec_move(), other.spec_move()) {
            (Some(own), Some(other)) => own.spec_points_against(other),
            (Some(_), None) => 1,
            (None, _) => 0,
        }
    }

    fn points_against(&self, other: &Action) -> (points: u8) {
        match (self.move_(), other.move_()) {
            (Some(own), Some(other)) => own.points_against(other),
            (Some(_), None) => 1,
            (None, Some(_)) => 0,
            (None, None) => 0,
        }
    }
}

} // verus!
