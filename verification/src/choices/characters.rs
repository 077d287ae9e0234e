use super::boosters::Booster;
use super::moves::Move;
use super::PointsAgainst;
use crate::helpers;
use std::str::FromStr;
use vstd::prelude::*;
use vstd::string::StringSliceAdditionalSpecFns;

verus! {

/// A character of the catalogue. The declaration order is the order of the rows
/// and columns of [`CHARACTER_HEADSTARTS`].
#[derive(Clone, Copy, PartialEq, Eq, Hash, Debug, Structural)]
pub enum Character {
    Ninja,
    Zombie,
    Samurai,
    Clown,
}

/// Number of characters in the catalogue.
pub const CHARACTER_COUNT: usize = 4;

/// Headstart points in a pairing of two characters, one row per opposing
/// character and one column per scoring character.
pub const CHARACTER_HEADSTARTS: [u8; 16] = [
    0, 0, 0, 1,
    0, 0, 0, 0,
    1, 0, 0, 0,
    0, 0, 1, 0,
];

impl Character {
    /// Position of the character in the catalogue.
    pub open spec fn spec_index(self) -> int {
        match self {
            Character::Ninja => 0,
            Character::Zombie => 1,
            Character::Samurai => 2,
            Character::Clown => 3,
        }
    }

    pub fn index(self) -> (i: usize)
        ensures
            i == self.spec_index(),
            i < CHARACTER_COUNT,
    {
        match self {
            Character::Ninja => 0,
            Character::Zombie => 1,
            Character::Samurai => 2,
            Character::Clown => 3,
        }
    }

    pub open spec fn spec_all() -> Seq<Character> {
        seq![Character::Ninja, Character::Zombie, Character::Samurai, Character::Clown]
    }

    /// Every character, in catalogue order.
    pub fn all() -> (characters: Vec<Character>)
        ensures
            characters@ == Character::spec_all(),
    {
        let characters = vec![
            Character::Ninja,
            Character::Zombie,
            Character::Samurai,
            Character::Clown,
        ];
        assert(characters@ =~= Character::spec_all());
        characters
    }

    pub open spec fn spec_moves(self) -> Seq<Move> {
        match self {
            Character::Ninja => seq![Move::Kick, Move::NinjaSword, Move::Nunchucks],
            Character::Zombie => seq![Move::Rampage, Move::Muscle, Move::Zap],
            Character::Samurai => seq![Move::SamuraiSword, Move::Helmet, Move::Smash],
            Character::Clown => seq![Move::JugglingKnives, Move::AcidSpray, Move::Nose],
        }
    }

    /// The three moves that the character brings by itself.
    pub fn moves(self) -> (moves: Vec<Move>)
        ensures
            moves@ == self.spec_moves(),
    {
        let moves = match self {
            Character::Ninja => vec![Move::Kick, Move::NinjaSword, Move::Nunchucks],
            Character::Zombie => vec![Move::Rampage, Move::Muscle, Move::Zap],
            Character::Samurai => vec![Move::SamuraiSword, Move::Helmet, Move::Smash],
            Character::Clown => vec![Move::JugglingKnives, Move::AcidSpray, Move::Nose],
        };
        assert(moves@ =~= self.spec_moves());
        moves
    }

    pub open spec fn spec_boosters(self) -> Seq<Booster> {
        match self {
            Character::Ninja => seq![Booster::Shadow, Booster::Speedy, Booster::NoBooster],
            Character::Zombie => seq![Booster::Regenerative, Booster::ZombieCorps, Booster::NoBooster],
            Character::Samurai => seq![Booster::Atlas, Booster::Strong, Booster::NoBooster],
            Character::Clown => seq![Booster::Backwards, Booster::Moustachio, Booster::NoBooster],
        }
    }

    /// The boosters that the character may pick; "no booster" is always among
    /// them.
    pub fn boosters(self) -> (boosters: Vec<Booster>)
        ensures
            boosters@ == self.spec_boosters(),
    {
        let boosters = match self {
            Character::Ninja => vec![Booster::Shadow, Booster::Speedy, Booster::NoBooster],
            Character::Zombie => vec![Booster::Regenerative, Booster::ZombieCorps, Booster::NoBooster],
            Character::Samurai => vec![Booster::Atlas, Booster::Strong, Booster::NoBooster],
            Character::Clown => vec![Booster::Backwards, Booster::Moustachio, Booster::NoBooster],
        };
        assert(boosters@ =~= self.spec_boosters());
        boosters
    }

    /// Every entry of the table is zero or one.
    pub proof fn lemma_points_at_most_one(self, other: Character)
        ensures
            self.spec_points_against(&other) <= 1,
    {
    }

    /// Headstart points that `self` gets for meeting `other`: the entry of
    /// [`CHARACTER_HEADSTARTS`] in the row of `other` and the column of `self`.
    pub fn points_against(self, other: Character) -> (points: u8)
        ensures
            points == self.spec_points_against(&other),
            points <= 1,
    {
        CHARACTER_HEADSTARTS[other.index() * 4 + self.index()]
    }
}

impl PointsAgainst for Character {
    open spec fn spec_points_against(&self, other: &Character) -> u8 {
        CHARACTER_HEADSTARTS[other.spec_index() * 4 + self.spec_index()]
    }

    fn points_against(&self, other: &Character) -> (points: u8) {
        CHARACTER_HEADSTARTS[other.index() * 4 + self.index()]
    }
}

impl Character {
    /// The name of the character as it is shown.
    pub open spec fn spec_name(self) -> Seq<char> {
        match self {
            Character::Ninja => "Ninja"@,
            Character::Zombie => "Zombie"@,
            Character::Samurai => "Samurai"@,
            Character::Clown => "Clown"@,
        }
    }

    pub fn to_string(&self) -> (name: String)
        ensures
            name@ == self.spec_name(),
    {
        match self {
            Character::Ninja => "Ninja".to_owned(),
            Character::Zombie => "Zombie".to_owned(),
            Character::Samurai => "Samurai".to_owned(),
            Character::Clown => "Clown".to_owned(),
        }
    }

    /// The character that goes by `name`, a name in lower case and without
    /// white space.
    pub open spec fn spec_named(name: Seq<char>) -> Option<Character> {
        if name == "ninja"@ {
            Some(Character::Ninja)
        } else if name == "zombie"@ {
            Some(Character::Zombie)
        } else if name == "samurai"@ {
            Some(Character::Samurai)
        } else if name == "clown"@ {
            Some(Character::Clown)
        } else {
            None
        }
    }

    /// Reads the name of a character, whatever its case and its white space.
    pub fn from_name(s: &str) -> (result: Result<Character, ()>)
        ensures
            result == match Character::spec_named(helpers::normalized(s.spec_bytes())) {
                Some(named) => Ok::<Character, ()>(named),
                None => Err(()),
            },
    {
        let name = helpers::lowercase_no_whitespace(s);
        if name == "ninja".to_owned() {
            Ok(Character::Ninja)
        } else if name == "zombie".to_owned() {
            Ok(Character::Zombie)
        } else if name == "samurai".to_owned() {
            Ok(Character::Samurai)
        } else if name == "clown".to_owned() {
            Ok(Character::Clown)
        } else {
            Err(())
        }
    }
}

impl FromStr for Character {
    type Err = ();

    fn from_str(s: &str) -> (result: Result<Character, ()>)
        ensures
            result == match Character::spec_named(helpers::normalized(s.spec_bytes())) {
                Some(named) => Ok::<Character, ()>(named),
                None => Err(()),
            },
    {
        Character::from_name(s)
    }
}

} // verus!
