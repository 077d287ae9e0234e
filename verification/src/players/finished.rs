use super::PlayerView;
use crate::choices::{ArsenalItem, Booster, Character};
use crate::counters::Queue;
use crate::game::Config;
use vstd::prelude::*;

verus! {

/// A player of a game that is over.
#[derive(Debug, Clone, PartialEq, Eq)]
pub struct FinishedPlayer {
    pub game_config: Config,
    pub points: u8,
    pub character: Character,
    pub booster: Booster,
    pub arsenal: Vec<ArsenalItem>,
    pub queue: Queue,
}

impl View for FinishedPlayer {
    type V = PlayerView;

    open spec fn view(&self) -> PlayerView {
        PlayerView {
            game_config: self.game_config,
            points: self.points,
            character: self.character,
            booster: self.booster,
            arsenal: self.arsenal@,
            queue: self.queue@,
        }
    }
}

impl FinishedPlayer {
    /// The players of a list as plain values.
    pub open spec fn views(players: Seq<FinishedPlayer>) -> Seq<PlayerView> {
        players.map_values(|player: FinishedPlayer| player@)
    }

    pub fn game_config(&self) -> (game_config: &Config)
        ensures
            *game_config == self@.game_config,
    {
        &self.game_config
    }

    pub fn points(&self) -> (points: u8)
        ensures
            points == self@.points,
    {
        self.points
    }

    pub fn character(&self) -> (character: Character)
        ensures
            character == self@.character,
    {
        self.character
    }

    pub fn booster(&self) -> (booster: Booster)
        ensures
            booster == self@.booster,
    {
        self.booster
    }

    pub fn arsenal(&self) -> (arsenal: &Vec<ArsenalItem>)
        ensures
            arsenal@ == self@.arsenal,
    {
        &self.arsenal
    }

    pub fn queue(&self) -> (queue: &Queue)
        ensures
            queue@ == self@.queue,
    {
        &self.queue
    }
}

} // verus!
