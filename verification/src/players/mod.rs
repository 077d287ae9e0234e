use crate::choices::{Action, ArsenalItem, Booster, Character, DequeueChoice, Move};
use crate::counters::QueueView;
use crate::game::Config;
use vstd::prelude::*;

mod characterless;
pub use characterless::CharacterlessPlayer;
mod boosterless;
pub use boosterless::BoosterlessPlayer;
mod dequeue_choiceless;
pub use dequeue_choiceless::DequeueChoicelessPlayer;
mod actionless;
pub use actionless::ActionlessPlayer;
mod finished;
pub use finished::FinishedPlayer;

verus! {

/// A player who has a character and a booster, as plain values. The players
/// of the dequeue phase, of the action phase and of a finished game all look
/// like this.
pub struct PlayerView {
    pub game_config: Config,
    pub points: u8,
    pub character: Character,
    pub booster: Booster,
    pub arsenal: Seq<ArsenalItem>,
    pub queue: QueueView,
}

impl PlayerView {
    /// The arsenal that a character starts with under a booster: the moves of
    /// the character, then those of the booster, after the booster's
    /// replacement.
    pub open spec fn initial_arsenal(character: Character, booster: Booster) -> Seq<ArsenalItem> {
        booster.spec_replace_moves(character.spec_moves() + booster.spec_moves()).map_values(
            |m: Move| ArsenalItem::Move(m),
        )
    }

    /// The player as the dequeue phase first sees it.
    pub open spec fn armed(
        game_config: Config,
        points: u8,
        character: Character,
        booster: Booster,
    ) -> PlayerView {
        PlayerView {
            game_config,
            points,
            character,
            booster,
            arsenal: PlayerView::initial_arsenal(character, booster),
            queue: QueueView::initial(),
        }
    }

    /// Whether the player may take from the queue: there is room in the
    /// arsenal, or nothing waits in the exit.
    pub open spec fn may_dequeue(self) -> bool {
        self.arsenal.len() < self.game_config.max_arsenal_items || self.queue.exit is None
    }

    /// The dequeue choices open to the player. One who may take from the queue
    /// may drain any item of the pool, just exit, or decline; the others can
    /// only decline.
    pub open spec fn dequeue_choices(self) -> Seq<DequeueChoice> {
        if self.may_dequeue() {
            self.queue.pool.map_values(|item: ArsenalItem| DequeueChoice::DrainAndExit(item))
                + seq![DequeueChoice::JustExit, DequeueChoice::Decline]
        } else {
            seq![DequeueChoice::Decline]
        }
    }

    /// The player after the queue has followed `choice`: what left the queue
    /// is the last item of the arsenal.
    pub open spec fn after_dequeue(self, choice: DequeueChoice) -> PlayerView {
        PlayerView {
            arsenal: match self.queue.exiting(choice) {
                Some(item) => self.arsenal.push(item),
                None => self.arsenal,
            },
            queue: self.queue.dequeue(choice),
            ..self
        }
    }

    /// A player who may drain an item finds it in the pool.
    pub proof fn lemma_legal_drain(self, choice: DequeueChoice)
        requires
            self.dequeue_choices().contains(choice),
        ensures
            self.queue.can_dequeue(choice),
    {
        if let DequeueChoice::DrainAndExit(item) = choice {
            let choices = self.dequeue_choices();
            let i = choices.index_of(choice);
            assert(choices[i] == choice);
            assert(i < self.queue.pool.len());
            assert(self.queue.pool[i] == item);
        }
    }

    /// The actions that use a move of the arsenal, in the arsenal's order.
    pub open spec fn move_actions(self) -> Seq<Action> {
        self.arsenal.filter_map(|item: ArsenalItem| item.spec_as_move_action())
    }

    /// The actions that mirror a move of the pool, in the pool's order; none
    /// without the mirror in the arsenal.
    pub open spec fn mirror_actions(self) -> Seq<Action> {
        if self.arsenal.contains(ArsenalItem::Mirror) {
            self.queue.pool.filter_map(|item: ArsenalItem| item.spec_as_mirror_action())
        } else {
            Seq::empty()
        }
    }

    /// The actions open to the player: the move actions, then the mirror
    /// actions; conceding where there is neither.
    pub open spec fn actions(self) -> Seq<Action> {
        let actions = self.move_actions() + self.mirror_actions();
        if actions.len() == 0 {
            seq![Action::Concede]
        } else {
            actions
        }
    }

    /// Points after a change; they do not go below zero.
    pub open spec fn changed_points(points: u8, change: i8) -> int {
        if points + change < 0 {
            0
        } else {
            points + change
        }
    }

    /// The player after `action`. The item that the action spends leaves the
    /// arsenal, every copy of it. Unless the item is lost, the queue takes it
    /// in: also where the action spends nothing, so that the entrance empties.
    pub open spec fn after_use(self, action: Action, destroyed: bool) -> PlayerView {
        PlayerView {
            arsenal: match action.spec_arsenal_item() {
                Some(item) => self.arsenal.filter(|held: ArsenalItem| held != item),
                None => self.arsenal,
            },
            queue: if destroyed {
                self.queue
            } else {
                self.queue.enqueue(action.spec_arsenal_item())
            },
            ..self
        }
    }

    /// The player after a scored round.
    pub open spec fn after_action(self, action: Action, change: i8, destroyed: bool) -> PlayerView
        recommends
            self.points + change <= u8::MAX,
    {
        PlayerView {
            points: PlayerView::changed_points(self.points, change) as u8,
            ..self.after_use(action, destroyed)
        }
    }

    /// An item that is lost does not come back: the round leaves the queue as
    /// it was, and the arsenal without the item.
    pub proof fn lemma_destroyed_item_is_lost(self, action: Action, change: i8)
        ensures
            self.after_action(action, change, true).queue == self.queue,
            action.spec_arsenal_item() matches Some(item) ==> !self.after_action(
                action,
                change,
                true,
            ).arsenal.contains(item),
    {
        broadcast use vstd::seq_lib::group_filter_ensures;

        if let Some(item) = action.spec_arsenal_item() {
            let kept = self.arsenal.filter(|held: ArsenalItem| held != item);
            if kept.contains(item) {
                let i = kept.index_of(item);
                assert(kept[i] == item);
            }
        }
    }
}

} // verus!
