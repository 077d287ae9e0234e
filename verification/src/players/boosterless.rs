use super::{DequeueChoicelessPlayer, PlayerView};
use crate::choices::{ArsenalItem, Booster, Character};
use crate::counters::Queue;
use crate::game::Config;
use vstd::prelude::*;

verus! {

/// A player who has a character and has yet to get a booster.
#[derive(Debug, Clone, Copy, PartialEq, Eq, Hash, Structural)]
pub struct BoosterlessPlayer {
    pub game_config: Config,
    pub points: u8,
    pub character: Character,
}

impl BoosterlessPlayer {
    /// The boosters that the player may pick: those of its character.
    pub open spec fn spec_choices(&self) -> Seq<Booster> {
        self.character.spec_boosters()
    }

    pub fn choices(&self) -> (boosters: Vec<Booster>)
        ensures
            boosters@ == self.spec_choices(),
    {
        self.character.boosters()
    }

    /// Whether the player may pick `booster`.
    pub fn can_choose(&self, booster: &Booster) -> (legal: bool)
        ensures
            legal == self.spec_choices().contains(*booster),
    {
        let choices = self.choices();
        let mut i: usize = 0;
        while i < choices.len()
            invariant
                i <= choices.len(),
                choices@ == self.spec_choices(),
                forall|k: int| 0 <= k < i ==> choices@[k] != *booster,
            decreases choices.len() - i,
        {
            if choices[i] == *booster {
                return true;
            }
            i += 1;
        }
        false
    }

    /// The arsenal that the player starts with under `booster`.
    pub fn initial_arsenal(&self, booster: Booster) -> (arsenal: Vec<ArsenalItem>)
        ensures
            arsenal@ == PlayerView::initial_arsenal(self.character, booster),
    {
        let mut moves = self.character.moves();
        let mut granted = booster.moves();
        moves.append(&mut granted);
        booster.replace_moves(&mut moves);
        let mut arsenal: Vec<ArsenalItem> = Vec::new();
        let mut i: usize = 0;
        while i < moves.len()
            invariant
                i <= moves.len(),
                arsenal@.len() == i,
                forall|k: int| 0 <= k < i ==> arsenal@[k] == ArsenalItem::Move(moves@[k]),
            decreases moves.len() - i,
        {
            arsenal.push(ArsenalItem::Move(moves[i]));
            i += 1;
        }
        assert(arsenal@ =~= PlayerView::initial_arsenal(self.character, booster));
        arsenal
    }

    /// The player with its booster, its first arsenal and a new queue.
    pub fn into_dequeue_choiceless(self, booster: Booster) -> (player: DequeueChoicelessPlayer)
        ensures
            player@ == PlayerView::armed(self.game_config, self.points, self.character, booster),
    {
        let arsenal = self.initial_arsenal(booster);
        DequeueChoicelessPlayer {
            game_config: self.game_config,
            points: self.points,
            character: self.character,
            booster,
            arsenal,
            queue: Queue::new(),
        }
    }
}

} // verus!
