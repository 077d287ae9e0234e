use crate::choices::{ArsenalItem, Booster, Character};
use crate::counters;
use crate::players;
use crate::players::PlayerView;
use vstd::prelude::*;
use vstd::std_specs::convert::FromSpecImpl;

verus! {

/// What a scoreboard shows of a player without a character.
#[derive(Debug, Clone, PartialEq, Eq, Hash)]
pub struct CharacterlessPlayer {
    pub streak: Option<CharacterStreak>,
}

/// What a scoreboard shows of a player without a booster.
#[derive(Debug, Clone, PartialEq, Eq, Hash)]
pub struct BoosterlessPlayer {
    pub points: u8,
    pub character: Character,
}

/// What a scoreboard shows of a player in the dequeue phase.
#[derive(Debug, Clone, PartialEq, Eq, Hash)]
pub struct DequeueingPlayer {
    pub points: u8,
    pub character: Character,
    pub booster: Booster,
    pub arsenal: Vec<ArsenalItem>,
    pub queue: Queue,
}

/// What a scoreboard shows of a player in the action phase.
#[derive(Debug, Clone, PartialEq, Eq, Hash)]
pub struct ActionlessPlayer {
    pub points: u8,
    pub character: Character,
    pub booster: Booster,
    pub arsenal: Vec<ArsenalItem>,
    pub queue: Queue,
}

/// What a scoreboard shows of a player of a finished game.
#[derive(Debug, Clone, PartialEq, Eq, Hash)]
pub struct FinishedPlayer {
    pub points: u8,
    pub character: Character,
    pub booster: Booster,
    pub arsenal: Vec<ArsenalItem>,
    pub queue: Queue,
}

/// A streak as a scoreboard shows it.
#[derive(Debug, Clone, Copy, PartialEq, Eq, Hash)]
pub struct CharacterStreak {
    pub character: Character,
    pub times: u8,
}

/// A queue as a scoreboard shows it, the pool in its order.
#[derive(Debug, Clone, PartialEq, Eq, Hash)]
pub struct Queue {
    pub entrance: Option<ArsenalItem>,
    pub pool: Vec<ArsenalItem>,
    pub exit: Option<ArsenalItem>,
}

impl CharacterStreak {
    /// Whether this is what a scoreboard shows of `streak`.
    pub open spec fn shows(self, streak: counters::CharacterStreak) -> bool {
        self.character == streak.character && self.times == streak.times
    }
}

impl CharacterlessPlayer {
    /// Whether this is what a scoreboard shows of `player`.
    pub open spec fn shows(self, player: players::CharacterlessPlayer) -> bool {
        match (self.streak, player.streak) {
            (Some(shown), Some(streak)) => shown.shows(streak),
            (None, None) => true,
            _ => false,
        }
    }

    pub fn of(player: &players::CharacterlessPlayer) -> (shown: CharacterlessPlayer)
        ensures
            shown.shows(*player),
    {
        CharacterlessPlayer {
            streak: match player.streak {
                Some(streak) => Some(
                    CharacterStreak { character: streak.character, times: streak.times },
                ),
                None => None,
            },
        }
    }
}

impl BoosterlessPlayer {
    /// Whether this is what a scoreboard shows of `player`.
    pub open spec fn shows(self, player: players::BoosterlessPlayer) -> bool {
        self.points == player.points && self.character == player.character
    }

    pub fn of(player: &players::BoosterlessPlayer) -> (shown: BoosterlessPlayer)
        ensures
            shown.shows(*player),
    {
        BoosterlessPlayer { points: player.points, character: player.character }
    }
}

impl Queue {
    /// Whether this is what a scoreboard shows of `queue`.
    pub open spec fn shows(self, queue: counters::QueueView) -> bool {
        self.entrance == queue.entrance && self.pool@ == queue.pool && self.exit == queue.exit
    }

    pub fn of(queue: &counters::Queue) -> (shown: Queue)
        ensures
            shown.shows(queue@),
    {
        Queue { entrance: queue.entrance, pool: copy_of(queue.pool()), exit: queue.exit }
    }
}

/// A list with the same items.
fn copy_of(items: &Vec<ArsenalItem>) -> (copy: Vec<ArsenalItem>)
    ensures
        copy@ == items@,
{
    let mut copy: Vec<ArsenalItem> = Vec::new();
    let mut i: usize = 0;
    while i < items.len()
        invariant
            i <= items.len(),
            copy@ == items@.take(i as int),
        decreases items.len() - i,
    {
        copy.push(items[i]);
        i += 1;
    }
    copy
}

impl DequeueingPlayer {
    /// Whether this is what a scoreboard shows of `player`.
    pub open spec fn shows(self, player: PlayerView) -> bool {
        &&& self.points == player.points
        &&& self.character == player.character
        &&& self.booster == player.booster
        &&& self.arsenal@ == player.arsenal
        &&& self.queue.shows(player.queue)
    }

    pub fn of(player: &players::DequeueChoicelessPlayer) -> (shown: DequeueingPlayer)
        ensures
            shown.shows(player@),
    {
        DequeueingPlayer {
            points: player.points,
            character: player.character,
            booster: player.booster,
            arsenal: copy_of(&player.arsenal),
            queue: Queue::of(&player.queue),
        }
    }
}

impl ActionlessPlayer {
    /// Whether this is what a scoreboard shows of `player`.
    pub open spec fn shows(self, player: PlayerView) -> bool {
        &&& self.points == player.points
        &&& self.character == player.character
        &&& self.booster == player.booster
        &&& self.arsenal@ == player.arsenal
        &&& self.queue.shows(player.queue)
    }

    pub fn of(player: &players::ActionlessPlayer) -> (shown: ActionlessPlayer)
        ensures
            shown.shows(player@),
    {
        ActionlessPlayer {
            points: player.points,
            character: player.character,
            booster: player.booster,
            arsenal: copy_of(&player.arsenal),
            queue: Queue::of(&player.queue),
        }
    }
}

impl FinishedPlayer {
    /// Whether this is what a scoreboard shows of `player`.
    pub open spec fn shows(self, player: PlayerView) -> bool {
        &&& self.points == player.points
        &&& self.character == player.character
        &&& self.booster == player.booster
        &&& self.arsenal@ == player.arsenal
        &&& self.queue.shows(player.queue)
    }

    pub fn of(player: &players::FinishedPlayer) -> (shown: FinishedPlayer)
        ensures
            shown.shows(player@),
    {
        FinishedPlayer {
            points: player.points,
            character: player.character,
            booster: player.booster,
            arsenal: copy_of(&player.arsenal),
            queue: Queue::of(&player.queue),
        }
    }
}

impl From<counters::CharacterStreak> for CharacterStreak {
    fn from(streak: counters::CharacterStreak) -> (shown: CharacterStreak) {
        CharacterStreak { character: streak.character, times: streak.times }
    }
}

impl FromSpecImpl<counters::CharacterStreak> for CharacterStreak {
    open spec fn obeys_from_spec() -> bool {
        true
    }

    open spec fn from_spec(streak: counters::CharacterStreak) -> CharacterStreak {
        CharacterStreak { character: streak.character, times: streak.times }
    }
}

impl From<counters::Queue> for Queue {
    fn from(queue: counters::Queue) -> (shown: Queue) {
        Queue { entrance: queue.entrance, pool: queue.pool.items, exit: queue.exit }
    }
}

impl FromSpecImpl<counters::Queue> for Queue {
    open spec fn obeys_from_spec() -> bool {
        true
    }

    open spec fn from_spec(queue: counters::Queue) -> Queue {
        Queue { entrance: queue.entrance, pool: queue.pool.items, exit: queue.exit }
    }
}

impl From<players::CharacterlessPlayer> for CharacterlessPlayer {
    fn from(player: players::CharacterlessPlayer) -> (shown: CharacterlessPlayer) {
        CharacterlessPlayer {
            streak: match player.streak {
                Some(streak) => Some(
                    CharacterStreak { character: streak.character, times: streak.times },
                ),
                None => None,
            },
        }
    }
}

impl FromSpecImpl<players::CharacterlessPlayer> for CharacterlessPlayer {
    open spec fn obeys_from_spec() -> bool {
        true
    }

    open spec fn from_spec(player: players::CharacterlessPlayer) -> CharacterlessPlayer {
        CharacterlessPlayer {
            streak: match player.streak {
                Some(streak) => Some(
                    CharacterStreak { character: streak.character, times: streak.times },
                ),
                None => None,
            },
        }
    }
}

impl From<players::BoosterlessPlayer> for BoosterlessPlayer {
    fn from(player: players::BoosterlessPlayer) -> (shown: BoosterlessPlayer) {
        BoosterlessPlayer { points: player.points, character: player.character }
    }
}

impl FromSpecImpl<players::BoosterlessPlayer> for BoosterlessPlayer {
    open spec fn obeys_from_spec() -> bool {
        true
    }

    open spec fn from_spec(player: players::BoosterlessPlayer) -> BoosterlessPlayer {
        BoosterlessPlayer { points: player.points, character: player.character }
    }
}

impl From<players::DequeueChoicelessPlayer> for DequeueingPlayer {
    fn from(player: players::DequeueChoicelessPlayer) -> (shown: DequeueingPlayer) {
        DequeueingPlayer {
            points: player.points,
            character: player.character,
            booster: player.booster,
            arsenal: player.arsenal,
            queue: Queue {
                entrance: player.queue.entrance,
                pool: player.queue.pool.items,
                exit: player.queue.exit,
            },
        }
    }
}

impl FromSpecImpl<players::DequeueChoicelessPlayer> for DequeueingPlayer {
    open spec fn obeys_from_spec() -> bool {
        true
    }

    open spec fn from_spec(player: players::DequeueChoicelessPlayer) -> DequeueingPlayer {
        DequeueingPlayer {
            points: player.points,
            character: player.character,
            booster: player.booster,
            arsenal: player.arsenal,
            queue: Queue {
                entrance: player.queue.entrance,
                pool: player.queue.pool.items,
                exit: player.queue.exit,
            },
        }
    }
}

impl From<players::ActionlessPlayer> for ActionlessPlayer {
    fn from(player: players::ActionlessPlayer) -> (shown: ActionlessPlayer) {
        ActionlessPlayer {
            points: player.points,
            character: player.character,
            booster: player.booster,
            arsenal: player.arsenal,
            queue: Queue {
                entrance: player.queue.entrance,
                pool: player.queue.pool.items,
                exit: player.queue.exit,
            },
        }
    }
}

impl FromSpecImpl<players::ActionlessPlayer> for ActionlessPlayer {
    open spec fn obeys_from_spec() -> bool {
        true
    }

    open spec fn from_spec(player: players::ActionlessPlayer) -> ActionlessPlayer {
        ActionlessPlayer {
            points: player.points,
            character: player.character,
            booster: player.booster,
            arsenal: player.arsenal,
            queue: Queue {
                entrance: player.queue.entrance,
                pool: player.queue.pool.items,
                exit: player.queue.exit,
            },
        }
    }
}

impl From<players::FinishedPlayer> for FinishedPlayer {
    fn from(player: players::FinishedPlayer) -> (shown: FinishedPlayer) {
        FinishedPlayer {
            points: player.points,
            character: player.character,
            booster: player.booster,
            arsenal: player.arsenal,
            queue: Queue {
                entrance: player.queue.entrance,
                pool: player.queue.pool.items,
                exit: player.queue.exit,
            },
        }
    }
}

impl FromSpecImpl<players::FinishedPlayer> for FinishedPlayer {
    open spec fn obeys_from_spec() -> bool {
        true
    }

    open spec fn from_spec(player: players::FinishedPlayer) -> FinishedPlayer {
        FinishedPlayer {
            points: player.points,
            character: player.character,
            booster: player.booster,
            arsenal: player.arsenal,
            queue: Queue {
                entrance: player.queue.entrance,
                pool: player.queue.pool.items,
                exit: player.queue.exit,
            },
        }
    }
}

} // verus!
