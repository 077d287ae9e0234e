use crate::choices::{Action, Booster, Character, DequeueChoice};
use vstd::prelude::*;

verus! {

/// A character and the points that its player starts with.
#[derive(Debug, Clone, Copy, PartialEq, Eq, Structural)]
pub struct CharacterHeadstart(pub Character, pub u8);

/// An action, the change that the round made to its player's points, and
/// whether the item it spent is lost.
#[derive(Debug, Clone, Copy, PartialEq, Eq, Structural)]
pub struct ActionPointsDestroyed(pub Action, pub i8, pub bool);

/// What an accepted batch of choices led to.
#[derive(Debug, Clone, PartialEq, Eq)]
pub enum Outcome {
    /// All characters differ: each player has one, with its headstart.
    CharacterPhaseDone(Vec<CharacterHeadstart>),
    /// Some characters were picked twice: every player picks again.
    CharacterPhaseRechoose(Vec<Character>),
    BoosterPhaseDone(Vec<Booster>),
    DequeuePhaseDone(Vec<DequeueChoice>),
    /// The round is scored and the game goes on.
    ActionPhaseDone(Vec<ActionPointsDestroyed>),
    /// The round is scored and one player has won.
    GameOver(Vec<ActionPointsDestroyed>),
}

/// An outcome as plain values.
pub enum OutcomeView {
    CharacterPhaseDone(Seq<CharacterHeadstart>),
    CharacterPhaseRechoose(Seq<Character>),
    BoosterPhaseDone(Seq<Booster>),
    DequeuePhaseDone(Seq<DequeueChoice>),
    ActionPhaseDone(Seq<ActionPointsDestroyed>),
    GameOver(Seq<ActionPointsDestroyed>),
}

impl View for Outcome {
    type V = OutcomeView;

    open spec fn view(&self) -> OutcomeView {
        match self {
            Outcome::CharacterPhaseDone(headstarts) => OutcomeView::CharacterPhaseDone(headstarts@),
            Outcome::CharacterPhaseRechoose(characters) => OutcomeView::CharacterPhaseRechoose(
                characters@,
            ),
            Outcome::BoosterPhaseDone(boosters) => OutcomeView::BoosterPhaseDone(boosters@),
            Outcome::DequeuePhaseDone(choices) => OutcomeView::DequeuePhaseDone(choices@),
            Outcome::ActionPhaseDone(points) => OutcomeView::ActionPhaseDone(points@),
            Outcome::GameOver(points) => OutcomeView::GameOver(points@),
        }
    }
}

impl Outcome {
    pub fn character_phase_done(self) -> (headstarts: Option<Vec<CharacterHeadstart>>)
        ensures
            headstarts == match self {
                Outcome::CharacterPhaseDone(h) => Some(h),
                _ => None,
            },
    {
        match self {
            Outcome::CharacterPhaseDone(headstarts) => Some(headstarts),
            _ => None,
        }
    }

    pub fn character_phase_rechoose(self) -> (characters: Option<Vec<Character>>)
        ensures
            characters == match self {
                Outcome::CharacterPhaseRechoose(c) => Some(c),
                _ => None,
            },
    {
        match self {
            Outcome::CharacterPhaseRechoose(characters) => Some(characters),
            _ => None,
        }
    }

    pub fn booster_phase_done(self) -> (boosters: Option<Vec<Booster>>)
        ensures
            boosters == match self {
                Outcome::BoosterPhaseDone(b) => Some(b),
                _ => None,
            },
    {
        match self {
            Outcome::BoosterPhaseDone(boosters) => Some(boosters),
            _ => None,
        }
    }

    pub fn dequeue_phase_done(self) -> (dequeue_choices: Option<Vec<DequeueChoice>>)
        ensures
            dequeue_choices == match self {
                Outcome::DequeuePhaseDone(d) => Some(d),
                _ => None,
            },
    {
        match self {
            Outcome::DequeuePhaseDone(dequeue_choices) => Some(dequeue_choices),
            _ => None,
        }
    }

    pub fn action_phase_done(self) -> (points: Option<Vec<ActionPointsDestroyed>>)
        ensures
            points == match self {
                Outcome::ActionPhaseDone(p) => Some(p),
                _ => None,
            },
    {
        match self {
            Outcome::ActionPhaseDone(points) => Some(points),
            _ => None,
        }
    }

    pub fn game_over(self) -> (points: Option<Vec<ActionPointsDestroyed>>)
        ensures
            points == match self {
                Outcome::GameOver(p) => Some(p),
                _ => None,
            },
    {
        match self {
            Outcome::GameOver(points) => Some(points),
            _ => None,
        }
    }
}

} // verus!
