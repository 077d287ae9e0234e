use crate::players::{
    ActionlessPlayer, BoosterlessPlayer, CharacterlessPlayer, DequeueChoicelessPlayer,
    FinishedPlayer, PlayerView,
};
use vstd::prelude::*;

verus! {

/// Where a game stands, with its players in the shape of that phase.
#[derive(Debug, Clone, PartialEq, Eq)]
pub enum Phase {
    Character(Vec<CharacterlessPlayer>),
    Booster(Vec<BoosterlessPlayer>),
    Dequeue(Vec<DequeueChoicelessPlayer>),
    Action(Vec<ActionlessPlayer>),
    Final(Vec<FinishedPlayer>),
}

/// A phase as plain values.
pub enum PhaseView {
    Character(Seq<CharacterlessPlayer>),
    Booster(Seq<BoosterlessPlayer>),
    Dequeue(Seq<PlayerView>),
    Action(Seq<PlayerView>),
    Final(Seq<PlayerView>),
}

impl View for Phase {
    type V = PhaseView;

    open spec fn view(&self) -> PhaseView {
        match self {
            Phase::Character(players) => PhaseView::Character(players@),
            Phase::Booster(players) => PhaseView::Booster(players@),
            Phase::Dequeue(players) => PhaseView::Dequeue(DequeueChoicelessPlayer::views(players@)),
            Phase::Action(players) => PhaseView::Action(ActionlessPlayer::views(players@)),
            Phase::Final(players) => PhaseView::Final(FinishedPlayer::views(players@)),
        }
    }
}

impl PhaseView {
    /// Number of players.
    pub open spec fn player_count(self) -> nat {
        match self {
            PhaseView::Character(players) => players.len(),
            PhaseView::Booster(players) => players.len(),
            PhaseView::Dequeue(players) => players.len(),
            PhaseView::Action(players) => players.len(),
            PhaseView::Final(players) => players.len(),
        }
    }
}

} // verus!
