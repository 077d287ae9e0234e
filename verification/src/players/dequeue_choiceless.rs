use super::{ActionlessPlayer, PlayerView};
use crate::choices::{ArsenalItem, Booster, Character, DequeueChoice};
use crate::counters::Queue;
use crate::game::Config;
use vstd::prelude::*;

verus! {

/// A player who has yet to say what to take from the queue this round.
#[derive(Debug, Clone, PartialEq, Eq)]
pub struct DequeueChoicelessPlayer {
    pub game_config: Config,
    pub points: u8,
    pub character: Character,
    pub booster: Booster,
    pub arsenal: Vec<ArsenalItem>,
    pub queue: Queue,
}

impl View for DequeueChoicelessPlayer {
    type V = PlayerView;

    open spec fn view(&self) -> PlayerView {
        PlayerView {
            game_config: self.game_config,
            points: self.points,
            character: self.character,
            booster: self.booster,
            arsenal: self.arsenal@,
            queue: self.queue@,
        }
    }
}

impl DequeueChoicelessPlayer {
    /// The players of a list as plain values.
    pub open spec fn views(players: Seq<DequeueChoicelessPlayer>) -> Seq<PlayerView> {
        players.map_values(|player: DequeueChoicelessPlayer| player@)
    }

    /// Whether the player may take from the queue.
    pub fn can_dequeue(&self) -> (may: bool)
        ensures
            may == self@.may_dequeue(),
    {
        self.arsenal.len() < self.game_config.max_arsenal_items as usize
            || self.queue.exit_vacant()
    }

    /// The dequeue choices open to the player.
    pub fn choices(&self) -> (choices: Vec<DequeueChoice>)
        ensures
            choices@ == self@.dequeue_choices(),
    {
        let mut choices: Vec<DequeueChoice> = Vec::new();
        if self.can_dequeue() {
            let pool = self.queue.pool();
            let mut i: usize = 0;
            while i < pool.len()
                invariant
                    i <= pool.len(),
                    choices@.len() == i,
                    forall|k: int|
                        0 <= k < i ==> choices@[k] == DequeueChoice::DrainAndExit(pool@[k]),
                decreases pool.len() - i,
            {
                choices.push(DequeueChoice::DrainAndExit(pool[i]));
                i += 1;
            }
            choices.push(DequeueChoice::JustExit);
            choices.push(DequeueChoice::Decline);
        } else {
            choices.push(DequeueChoice::Decline);
        }
        assert(choices@ =~= self@.dequeue_choices());
        choices
    }

    /// Whether `choice` is open to the player.
    pub fn can_choose(&self, choice: &DequeueChoice) -> (legal: bool)
        ensures
            legal == self@.dequeue_choices().contains(*choice),
    {
        let choices = self.choices();
        let mut i: usize = 0;
        while i < choices.len()
            invariant
                i <= choices.len(),
                choices@ == self@.dequeue_choices(),
                forall|k: int| 0 <= k < i ==> choices@[k] != *choice,
            decreases choices.len() - i,
        {
            if choices[i] == *choice {
                return true;
            }
            i += 1;
        }
        false
    }

    /// The player after the queue has followed `dequeue_choice`, with what
    /// left the queue in the arsenal. An item can be drained only while it is
    /// in the pool.
    pub fn into_actionless(self, dequeue_choice: DequeueChoice) -> (player: ActionlessPlayer)
        requires
            self@.queue.can_dequeue(dequeue_choice),
        ensures
            player@ == self@.after_dequeue(dequeue_choice),
    {
        let mut arsenal = self.arsenal;
        let mut queue = self.queue;
        match queue.dequeue(dequeue_choice) {
            Ok(Some(arsenal_item)) => {
                arsenal.push(arsenal_item);
            },
            _ => {},
        }
        ActionlessPlayer {
            game_config: self.game_config,
            points: self.points,
            character: self.character,
            booster: self.booster,
            arsenal,
            queue,
        }
    }
}

} // verus!
