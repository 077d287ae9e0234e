use super::BoosterlessPlayer;
use crate::choices::Character;
use crate::counters::{CharacterChoices, CharacterStreak};
use crate::game::Config;
use crate::outcomes::CharacterHeadstart;
use vstd::prelude::*;

verus! {

/// A player who has yet to get a character.
#[derive(Debug, Clone, Copy, PartialEq, Eq, Structural)]
pub struct CharacterlessPlayer {
    pub game_config: Config,
    pub streak: Option<CharacterStreak>,
}

impl CharacterlessPlayer {
    /// A player who has picked nothing yet.
    pub fn from_game_config(game_config: Config) -> (player: CharacterlessPlayer)
        ensures
            player == (CharacterlessPlayer { game_config, streak: None }),
    {
        CharacterlessPlayer { game_config, streak: None }
    }

    /// The characters that the player may pick.
    pub open spec fn spec_choices(&self) -> Seq<Character> {
        CharacterStreak::offered(self.streak, self.game_config.max_character_repetitions)
    }

    pub fn choices(&self) -> (characters: Vec<Character>)
        ensures
            characters@ == self.spec_choices(),
    {
        self.streak.choices(self.game_config.max_character_repetitions)
    }

    /// Whether the player may pick `character`.
    pub fn can_choose(&self, character: &Character) -> (legal: bool)
        ensures
            legal == self.spec_choices().contains(*character),
    {
        let choices = self.choices();
        let mut i: usize = 0;
        while i < choices.len()
            invariant
                i <= choices.len(),
                choices@ == self.spec_choices(),
                forall|k: int| 0 <= k < i ==> choices@[k] != *character,
            decreases choices.len() - i,
        {
            if choices[i] == *character {
                return true;
            }
            i += 1;
        }
        false
    }

    /// The player after a pick of `character` that gave it no character.
    pub open spec fn with_pick(self, character: Character) -> CharacterlessPlayer {
        CharacterlessPlayer {
            game_config: self.game_config,
            streak: Some(CharacterStreak::extended(self.streak, character)),
        }
    }

    /// Counts a pick of `character`, which has to be one that the player may
    /// make.
    pub fn add_to_streak(&mut self, character: Character)
        requires
            old(self).spec_choices().contains(character),
        ensures
            *final(self) == old(self).with_pick(character),
    {
        proof {
            CharacterStreak::lemma_accepted_iff_offered(
                self.streak,
                self.game_config.max_character_repetitions,
                character,
            );
        }
        let _ = self.streak.make_choice(self.game_config.max_character_repetitions, character);
    }

    /// The player with its character and its headstart.
    pub fn into_boosterless(self, headstart: CharacterHeadstart) -> (player: BoosterlessPlayer)
        ensures
            player == (BoosterlessPlayer {
                game_config: self.game_config,
                points: headstart.1,
                character: headstart.0,
            }),
    {
        BoosterlessPlayer {
            game_config: self.game_config,
            points: headstart.1,
            character: headstart.0,
        }
    }
}

} // verus!
