use crate::game::{Phase, PhaseView};
use vstd::prelude::*;
use vstd::std_specs::convert::FromSpecImpl;

pub mod transparent;
pub use transparent::{
    ActionlessPlayer, BoosterlessPlayer, CharacterStreak, CharacterlessPlayer, DequeueingPlayer,
    FinishedPlayer, Queue,
};

verus! {

/// What may be shown of a game to everyone: its phase, and of each player what
/// the phase knows of it.
#[derive(Debug, Clone, PartialEq, Eq)]
pub enum Scoreboard {
    Characterless(Vec<CharacterlessPlayer>),
    Boosterless(Vec<BoosterlessPlayer>),
    Dequeueing(Vec<DequeueingPlayer>),
    Actionless(Vec<ActionlessPlayer>),
    Final(Vec<FinishedPlayer>),
}

impl Scoreboard {
    /// Whether this is the scoreboard of a game in `phase`: it names the
    /// phase and shows each player in turn.
    pub open spec fn shows(&self, phase: PhaseView) -> bool {
        match (self, phase) {
            (Scoreboard::Characterless(shown), PhaseView::Character(players)) => {
                &&& shown@.len() == players.len()
                &&& forall|i: int| 0 <= i < players.len() ==> (#[trigger] shown@[i]).shows(players[i])
            },
            (Scoreboard::Boosterless(shown), PhaseView::Booster(players)) => {
                &&& shown@.len() == players.len()
                &&& forall|i: int| 0 <= i < players.len() ==> (#[trigger] shown@[i]).shows(players[i])
            },
            (Scoreboard::Dequeueing(shown), PhaseView::Dequeue(players)) => {
                &&& shown@.len() == players.len()
                &&& forall|i: int| 0 <= i < players.len() ==> (#[trigger] shown@[i]).shows(players[i])
            },
            (Scoreboard::Actionless(shown), PhaseView::Action(players)) => {
                &&& shown@.len() == players.len()
                &&& forall|i: int| 0 <= i < players.len() ==> (#[trigger] shown@[i]).shows(players[i])
            },
            (Scoreboard::Final(shown), PhaseView::Final(players)) => {
                &&& shown@.len() == players.len()
                &&& forall|i: int| 0 <= i < players.len() ==> (#[trigger] shown@[i]).shows(players[i])
            },
            _ => false,
        }
    }

    /// The scoreboard of a game in `phase`.
    pub fn of(phase: &Phase) -> (scoreboard: Scoreboard)
        ensures
            scoreboard.shows(phase@),
    {
        match phase {
            Phase::Character(players) => {
                let mut shown: Vec<CharacterlessPlayer> = Vec::new();
                let mut i: usize = 0;
                while i < players.len()
                    invariant
                        i <= players.len(),
                        shown@.len() == i,
                        forall|k: int| 0 <= k < i ==> (#[trigger] shown@[k]).shows(players@[k]),
                    decreases players.len() - i,
                {
                    shown.push(CharacterlessPlayer::of(&players[i]));
                    i += 1;
                }
                Scoreboard::Characterless(shown)
            },
            Phase::Booster(players) => {
                let mut shown: Vec<BoosterlessPlayer> = Vec::new();
                let mut i: usize = 0;
                while i < players.len()
                    invariant
                        i <= players.len(),
                        shown@.len() == i,
                        forall|k: int| 0 <= k < i ==> (#[trigger] shown@[k]).shows(players@[k]),
                    decreases players.len() - i,
                {
                    shown.push(BoosterlessPlayer::of(&players[i]));
                    i += 1;
                }
                Scoreboard::Boosterless(shown)
            },
            Phase::Dequeue(players) => {
                let mut shown: Vec<DequeueingPlayer> = Vec::new();
                let mut i: usize = 0;
                while i < players.len()
                    invariant
                        i <= players.len(),
                        shown@.len() == i,
                        forall|k: int| 0 <= k < i ==> (#[trigger] shown@[k]).shows(players@[k]@),
                    decreases players.len() - i,
                {
                    shown.push(DequeueingPlayer::of(&players[i]));
                    i += 1;
                }
                Scoreboard::Dequeueing(shown)
            },
            Phase::Action(players) => {
                let mut shown: Vec<ActionlessPlayer> = Vec::new();
                let mut i: usize = 0;
                while i < players.len()
                    invariant
                        i <= players.len(),
                        shown@.len() == i,
                        forall|k: int| 0 <= k < i ==> (#[trigger] shown@[k]).shows(players@[k]@),
                    decreases players.len() - i,
                {
                    shown.push(ActionlessPlayer::of(&players[i]));
                    i += 1;
                }
                Scoreboard::Actionless(shown)
            },
            Phase::Final(players) => {
                let mut shown: Vec<FinishedPlayer> = Vec::new();
                let mut i: usize = 0;
                while i < players.len()
                    invariant
                        i <= players.len(),
                        shown@.len() == i,
                        forall|k: int| 0 <= k < i ==> (#[trigger] shown@[k]).shows(players@[k]@),
                    decreases players.len() - i,
                {
                    shown.push(FinishedPlayer::of(&players[i]));
                    i += 1;
                }
                Scoreboard::Final(shown)
            },
        }
    }

    pub fn characterless(self) -> (players: Option<Vec<CharacterlessPlayer>>)
        ensures
            players == match self {
                Scoreboard::Characterless(p) => Some(p),
                _ => None,
            },
    {
        match self {
            Scoreboard::Characterless(players) => Some(players),
            _ => None,
        }
    }

    pub fn boosterless(self) -> (players: Option<Vec<BoosterlessPlayer>>)
        ensures
            players == match self {
                Scoreboard::Boosterless(p) => Some(p),
                _ => None,
            },
    {
        match self {
            Scoreboard::Boosterless(players) => Some(players),
            _ => None,
        }
    }

    pub fn dequeueing(self) -> (players: Option<Vec<DequeueingPlayer>>)
        ensures
            players == match self {
                Scoreboard::Dequeueing(p) => Some(p),
                _ => None,
            },
    {
        match self {
            Scoreboard::Dequeueing(players) => Some(players),
            _ => None,
        }
    }

    pub fn actionless(self) -> (players: Option<Vec<ActionlessPlayer>>)
        ensures
            players == match self {
                Scoreboard::Actionless(p) => Some(p),
                _ => None,
            },
    {
        match self {
            Scoreboard::Actionless(players) => Some(players),
            _ => None,
        }
    }

    pub fn final_(self) -> (players: Option<Vec<FinishedPlayer>>)
        ensures
            players == match self {
                Scoreboard::Final(p) => Some(p),
                _ => None,
            },
    {
        match self {
            Scoreboard::Final(players) => Some(players),
            _ => None,
        }
    }
}

impl From<Phase> for Scoreboard {
    /// The scoreboard of a game in `phase`.
    fn from(phase: Phase) -> (scoreboard: Scoreboard)
        ensures
            scoreboard.shows(phase@),
    {
        Scoreboard::of(&phase)
    }
}

impl FromSpecImpl<Phase> for Scoreboard {
    /// The conversion is told by `shows`, which leaves the vectors of the
    /// scoreboard to be any that hold the players in turn.
    open spec fn obeys_from_spec() -> bool {
        false
    }

    open spec fn from_spec(phase: Phase) -> Scoreboard {
        arbitrary()
    }
}

} // verus!
