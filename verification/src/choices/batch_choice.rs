use super::{Action, Booster, Character, DequeueChoice};
use vstd::prelude::*;

verus! {

/// One choice per player, all of the kind that one phase asks for.
#[derive(Debug, Clone, PartialEq, Eq, Hash)]
pub enum BatchChoice {
    Characters(Vec<Character>),
    Boosters(Vec<Booster>),
    DequeueChoices(Vec<DequeueChoice>),
    Actions(Vec<Action>),
}

impl BatchChoice {
    pub open spec fn spec_len(&self) -> nat {
        match self {
            BatchChoice::Characters(characters) => characters@.len(),
            BatchChoice::Boosters(boosters) => boosters@.len(),
            BatchChoice::DequeueChoices(dequeue_choices) => dequeue_choices@.len(),
            BatchChoice::Actions(actions) => actions@.len(),
        }
    }

    /// Number of choices in the batch.
    pub fn len(&self) -> (len: usize)
        ensures
            len == self.spec_len(),
    {
        match self {
            BatchChoice::Characters(characters) => characters.len(),
            BatchChoice::Boosters(boosters) => boosters.len(),
            BatchChoice::DequeueChoices(dequeue_choices) => dequeue_choices.len(),
            BatchChoice::Actions(actions) => actions.len(),
        }
    }

    pub fn is_empty(&self) -> (empty: bool)
        ensures
            empty == (self.spec_len() == 0),
    {
        self.len() == 0
    }
}

/// For each player, the choices that the player may make in the current
/// phase; `NoChoices` once the game is over.
#[derive(Debug, Clone, PartialEq, Eq, Hash)]
pub enum BatchChoices {
    Characters(Vec<Vec<Character>>),
    Boosters(Vec<Vec<Booster>>),
    DequeueChoices(Vec<Vec<DequeueChoice>>),
    Actions(Vec<Vec<Action>>),
    NoChoices,
}

impl BatchChoices {
    pub fn characters(self) -> (characters: Option<Vec<Vec<Character>>>)
        ensures
            characters == match self {
                BatchChoices::Characters(c) => Some(c),
                _ => None,
            },
    {
        match self {
            BatchChoices::Characters(characters) => Some(characters),
            _ => None,
        }
    }

    pub fn boosters(self) -> (boosters: Option<Vec<Vec<Booster>>>)
        ensures
            boosters == match self {
                BatchChoices::Boosters(b) => Some(b),
                _ => None,
            },
    {
        match self {
            BatchChoices::Boosters(boosters) => Some(boosters),
            _ => None,
        }
    }

    pub fn dequeue_choices(self) -> (dequeue_choices: Option<Vec<Vec<DequeueChoice>>>)
        ensures
            dequeue_choices == match self {
                BatchChoices::DequeueChoices(d) => Some(d),
                _ => None,
            },
    {
        match self {
            BatchChoices::DequeueChoices(dequeue_choices) => Some(dequeue_choices),
            _ => None,
        }
    }

    pub fn actions(self) -> (actions: Option<Vec<Vec<Action>>>)
        ensures
            actions == match self {
                BatchChoices::Actions(a) => Some(a),
                _ => None,
            },
    {
        match self {
            BatchChoices::Actions(actions) => Some(actions),
            _ => None,
        }
    }
}

} // verus!
