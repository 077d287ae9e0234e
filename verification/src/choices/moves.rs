use crate::helpers;
use std::str::FromStr;
use vstd::prelude::*;
use vstd::string::StringSliceAdditionalSpecFns;

verus! {

/// A move of the catalogue. The declaration order is the order of the rows and
/// columns of [`MOVE_OUTCOMES`].
#[derive(Clone, Copy, PartialEq, Eq, Hash, Debug, Structural)]
pub enum Move {
    Kick,
    NinjaSword,
    Nunchucks,
    ShadowFireball,
    ShadowSlip,
    RunInCircles,
    LightningFastKarateChop,
    Rampage,
    Muscle,
    Zap,
    Regenerate,
    Gravedigger,
    ZombieCorps,
    Apocalypse,
    SamuraiSword,
    Helmet,
    Smash,
    StrongSmash,
    Lightning,
    Earthquake,
    Twist,
    Bend,
    JugglingKnives,
    AcidSpray,
    Nose,
    BackwardsMoustachio,
    NoseOfTheTaunted,
    MustacheMash,
    BigHairyDeal,
}

/// Number of moves in the catalogue.
pub const MOVE_COUNT: usize = 29;

/// Points scored in a pairing of two moves, one row per opposing move and one
/// column per scoring move. The relation is a plain table: it is neither
/// antisymmetric nor transitive, and a few pairs score against each other.
pub const MOVE_OUTCOMES: [u8; 841] = [
    0, 0, 0, 0, 0, 0, 0, 0, 1, 0, 1, 0, 1, 1, 0, 0, 1, 1, 1, 0, 0, 1, 1, 0, 0, 0, 0, 0, 1,
    0, 0, 0, 0, 0, 0, 0, 1, 0, 0, 1, 0, 1, 0, 1, 0, 0, 0, 0, 1, 0, 1, 0, 0, 1, 0, 1, 0, 0,
    0, 0, 0, 0, 0, 0, 0, 1, 0, 0, 1, 0, 0, 1, 1, 0, 1, 1, 0, 1, 1, 0, 0, 0, 1, 0, 1, 0, 0,
    0, 0, 0, 0, 0, 0, 0, 0, 0, 0, 1, 0, 1, 1, 0, 0, 0, 1, 0, 1, 0, 0, 0, 0, 0, 1, 1, 0, 0,
    0, 0, 0, 0, 0, 0, 0, 0, 0, 0, 1, 0, 0, 0, 0, 0, 0, 0, 0, 1, 0, 0, 0, 0, 0, 1, 0, 0, 0,
    0, 0, 0, 0, 0, 0, 0, 0, 0, 0, 1, 0, 0, 0, 0, 0, 0, 0, 0, 1, 0, 0, 0, 0, 0, 1, 0, 0, 0,
    0, 0, 0, 0, 0, 0, 0, 0, 1, 0, 1, 0, 0, 1, 1, 0, 0, 0, 1, 0, 0, 1, 1, 0, 0, 1, 0, 0, 1,
    1, 0, 0, 1, 0, 0, 1, 0, 0, 0, 0, 0, 0, 0, 0, 0, 1, 1, 1, 0, 0, 1, 1, 0, 0, 0, 0, 0, 0,
    0, 1, 1, 1, 0, 0, 0, 0, 0, 0, 0, 0, 0, 0, 1, 0, 0, 0, 1, 1, 1, 0, 1, 0, 0, 0, 0, 0, 0,
    0, 0, 0, 0, 0, 0, 0, 0, 0, 0, 0, 0, 0, 0, 0, 0, 0, 0, 0, 0, 0, 0, 0, 0, 0, 0, 0, 0, 0,
    0, 0, 0, 0, 0, 0, 0, 0, 0, 0, 0, 0, 0, 0, 0, 0, 0, 0, 0, 0, 0, 0, 0, 0, 0, 1, 0, 0, 0,
    0, 0, 0, 0, 0, 0, 0, 0, 0, 0, 0, 0, 0, 0, 0, 0, 0, 0, 0, 1, 0, 0, 0, 0, 0, 1, 0, 0, 0,
    0, 0, 1, 0, 0, 0, 1, 0, 0, 0, 0, 0, 0, 0, 0, 0, 0, 0, 1, 0, 0, 1, 0, 0, 0, 1, 0, 0, 1,
    0, 1, 0, 0, 0, 0, 0, 0, 0, 0, 0, 0, 0, 0, 0, 0, 0, 0, 0, 1, 0, 1, 0, 0, 0, 1, 0, 0, 1,
    1, 0, 1, 1, 0, 0, 0, 1, 0, 0, 1, 0, 1, 1, 0, 0, 0, 0, 0, 0, 0, 0, 0, 0, 1, 0, 1, 0, 0,
    0, 0, 0, 0, 0, 0, 0, 0, 0, 0, 1, 0, 0, 0, 0, 0, 0, 0, 0, 0, 0, 0, 0, 0, 0, 0, 0, 0, 0,
    0, 1, 0, 1, 0, 0, 1, 0, 1, 0, 1, 0, 1, 1, 0, 0, 0, 0, 0, 0, 0, 0, 1, 0, 0, 0, 0, 0, 1,
    0, 1, 0, 0, 0, 0, 1, 0, 1, 0, 1, 0, 1, 1, 0, 0, 0, 0, 0, 0, 0, 0, 1, 0, 0, 0, 0, 0, 1,
    0, 1, 1, 1, 0, 0, 0, 0, 1, 0, 1, 0, 0, 1, 0, 0, 0, 0, 0, 0, 0, 0, 1, 0, 0, 1, 0, 0, 0,
    1, 0, 0, 0, 0, 0, 1, 1, 0, 0, 1, 0, 1, 0, 0, 0, 0, 0, 0, 0, 0, 0, 0, 0, 0, 1, 0, 0, 1,
    1, 1, 0, 1, 0, 0, 1, 1, 0, 0, 1, 0, 1, 1, 0, 0, 0, 0, 0, 0, 0, 0, 1, 0, 0, 1, 0, 0, 1,
    0, 0, 1, 1, 0, 0, 0, 0, 1, 0, 1, 0, 0, 0, 0, 0, 0, 0, 0, 0, 0, 0, 1, 0, 1, 1, 0, 0, 1,
    0, 1, 1, 1, 0, 0, 0, 0, 0, 0, 1, 0, 1, 1, 1, 1, 0, 0, 0, 1, 0, 0, 0, 0, 0, 0, 0, 0, 0,
    0, 0, 0, 0, 0, 0, 0, 0, 0, 0, 1, 0, 0, 0, 0, 0, 0, 0, 0, 0, 0, 0, 0, 0, 0, 0, 0, 0, 0,
    1, 0, 0, 1, 0, 0, 1, 1, 1, 0, 1, 0, 1, 1, 0, 0, 1, 1, 1, 1, 1, 0, 0, 0, 0, 0, 0, 0, 0,
    1, 1, 1, 0, 0, 0, 0, 1, 1, 0, 1, 0, 0, 0, 1, 0, 1, 1, 0, 0, 0, 0, 0, 0, 0, 0, 0, 0, 0,
    1, 0, 0, 0, 0, 0, 1, 1, 1, 0, 1, 0, 1, 1, 0, 0, 1, 1, 1, 1, 1, 1, 0, 0, 0, 0, 0, 0, 0,
    0, 0, 0, 0, 0, 0, 0, 0, 0, 0, 1, 0, 0, 0, 0, 0, 0, 0, 0, 0, 0, 0, 0, 0, 0, 0, 0, 0, 0,
    0, 1, 1, 1, 0, 0, 0, 1, 1, 0, 1, 0, 0, 0, 1, 0, 0, 0, 1, 0, 0, 0, 0, 0, 0, 0, 0, 0, 0,
];

impl Move {
    /// Position of the move in the catalogue.
    pub open spec fn spec_index(self) -> int {
        match self {
            Move::Kick => 0,
            Move::NinjaSword => 1,
            Move::Nunchucks => 2,
            Move::ShadowFireball => 3,
            Move::ShadowSlip => 4,
            Move::RunInCircles => 5,
            Move::LightningFastKarateChop => 6,
            Move::Rampage => 7,
            Move::Muscle => 8,
            Move::Zap => 9,
            Move::Regenerate => 10,
            Move::Gravedigger => 11,
            Move::ZombieCorps => 12,
            Move::Apocalypse => 13,
            Move::SamuraiSword => 14,
            Move::Helmet => 15,
            Move::Smash => 16,
            Move::StrongSmash => 17,
            Move::Lightning => 18,
            Move::Earthquake => 19,
            Move::Twist => 20,
            Move::Bend => 21,
            Move::JugglingKnives => 22,
            Move::AcidSpray => 23,
            Move::Nose => 24,
            Move::BackwardsMoustachio => 25,
            Move::NoseOfTheTaunted => 26,
            Move::MustacheMash => 27,
            Move::BigHairyDeal => 28,
        }
    }

    pub fn index(self) -> (i: usize)
        ensures
            i == self.spec_index(),
            i < MOVE_COUNT,
    {
        match self {
            Move::Kick => 0,
            Move::NinjaSword => 1,
            Move::Nunchucks => 2,
            Move::ShadowFireball => 3,
            Move::ShadowSlip => 4,
            Move::RunInCircles => 5,
            Move::LightningFastKarateChop => 6,
            Move::Rampage => 7,
            Move::Muscle => 8,
            Move::Zap => 9,
            Move::Regenerate => 10,
            Move::Gravedigger => 11,
            Move::ZombieCorps => 12,
            Move::Apocalypse => 13,
            Move::SamuraiSword => 14,
            Move::Helmet => 15,
            Move::Smash => 16,
            Move::StrongSmash => 17,
            Move::Lightning => 18,
            Move::Earthquake => 19,
            Move::Twist => 20,
            Move::Bend => 21,
            Move::JugglingKnives => 22,
            Move::AcidSpray => 23,
            Move::Nose => 24,
            Move::BackwardsMoustachio => 25,
            Move::NoseOfTheTaunted => 26,
            Move::MustacheMash => 27,
            Move::BigHairyDeal => 28,
        }
    }

    /// The entry of [`MOVE_OUTCOMES`] for `self` scoring against `other`.
    #[verifier::opaque]
    pub open spec fn spec_points_against(self, other: Move) -> u8 {
        MOVE_OUTCOMES[other.spec_index() * 29 + self.spec_index()]
    }

    /// Every entry of the table is zero or one.
    pub proof fn lemma_points_at_most_one(self, other: Move)
        ensures
            self.spec_points_against(other) <= 1,
    {
        reveal(Move::spec_points_against);
        let i = other.spec_index() * 29 + self.spec_index();
        // The table is looked through a hundred entries at a time.
        if i < 100 {
        } else if i < 200 {
        } else if i < 300 {
        } else if i < 400 {
        } else if i < 500 {
        } else if i < 600 {
        } else if i < 700 {
        } else if i < 800 {
        } else {
        }
    }

    /// Points that `self` scores when it meets `other`.
    pub fn points_against(self, other: Move) -> (points: u8)
        ensures
            points == self.spec_points_against(other),
            points <= 1,
    {
        proof {
            reveal(Move::spec_points_against);
            self.lemma_points_at_most_one(other);
        }
        MOVE_OUTCOMES[other.index() * 29 + self.index()]
    }

    pub open spec fn spec_is_destructive(self) -> bool {
        self == Move::Zap || self == Move::AcidSpray
    }

    /// Whether using the move keeps every item used in the same round out of
    /// the queues.
    pub fn is_destructive(self) -> (b: bool)
        ensures
            b == self.spec_is_destructive(),
    {
        match self {
            Move::Zap | Move::AcidSpray => true,
            _ => false,
        }
    }

    pub open spec fn spec_is_single_use(self) -> bool {
        self == Move::Zap || self == Move::Regenerate || self == Move::AcidSpray
    }

    /// Whether the move never returns to its player's queue once used.
    pub fn is_single_use(self) -> (b: bool)
        ensures
            b == self.spec_is_single_use(),
    {
        match self {
            Move::Zap | Move::Regenerate | Move::AcidSpray => true,
            _ => false,
        }
    }
}

impl Move {
    /// The name of the move as it is shown.
    pub open spec fn spec_name(self) -> Seq<char> {
        match self {
            Move::Kick => "Kick"@,
            Move::NinjaSword => "Ninja Sword"@,
            Move::Nunchucks => "Nunchucks"@,
            Move::ShadowFireball => "Shadow Fireball"@,
            Move::ShadowSlip => "Shadow Slip"@,
            Move::RunInCircles => "Run In Circles"@,
            Move::LightningFastKarateChop => "Lightning Fast Karate Chop"@,
            Move::Rampage => "Rampage"@,
            Move::Muscle => "Muscle"@,
            Move::Zap => "Zap"@,
            Move::Regenerate => "Regenerate"@,
            Move::Gravedigger => "Gravedigger"@,
            Move::ZombieCorps => "Zombie Corps"@,
            Move::Apocalypse => "Apocalypse"@,
            Move::SamuraiSword => "Samurai Sword"@,
            Move::Helmet => "Helmet"@,
            Move::Smash => "Smash"@,
            Move::StrongSmash => "Strong Smash"@,
            Move::Lightning => "Lightning"@,
            Move::Earthquake => "Earthquake"@,
            Move::Twist => "Twist"@,
            Move::Bend => "Bend"@,
            Move::JugglingKnives => "Juggling Knives"@,
            Move::AcidSpray => "Acid Spray"@,
            Move::Nose => "Nose"@,
            Move::BackwardsMoustachio => "Backwards Moustachio"@,
            Move::NoseOfTheTaunted => "Nose Of The Taunted"@,
            Move::MustacheMash => "Mustache Mash"@,
            Move::BigHairyDeal => "Big Hairy Deal"@,
        }
    }

    pub fn to_string(&self) -> (name: String)
        ensures
            name@ == self.spec_name(),
    {
        match self {
            Move::Kick => "Kick".to_owned(),
            Move::NinjaSword => "Ninja Sword".to_owned(),
            Move::Nunchucks => "Nunchucks".to_owned(),
            Move::ShadowFireball => "Shadow Fireball".to_owned(),
            Move::ShadowSlip => "Shadow Slip".to_owned(),
            Move::RunInCircles => "Run In Circles".to_owned(),
            Move::LightningFastKarateChop => "Lightning Fast Karate Chop".to_owned(),
            Move::Rampage => "Rampage".to_owned(),
            Move::Muscle => "Muscle".to_owned(),
            Move::Zap => "Zap".to_owned(),
            Move::Regenerate => "Regenerate".to_owned(),
            Move::Gravedigger => "Gravedigger".to_owned(),
            Move::ZombieCorps => "Zombie Corps".to_owned(),
            Move::Apocalypse => "Apocalypse".to_owned(),
            Move::SamuraiSword => "Samurai Sword".to_owned(),
            Move::Helmet => "Helmet".to_owned(),
            Move::Smash => "Smash".to_owned(),
            Move::StrongSmash => "Strong Smash".to_owned(),
            Move::Lightning => "Lightning".to_owned(),
            Move::Earthquake => "Earthquake".to_owned(),
            Move::Twist => "Twist".to_owned(),
            Move::Bend => "Bend".to_owned(),
            Move::JugglingKnives => "Juggling Knives".to_owned(),
            Move::AcidSpray => "Acid Spray".to_owned(),
            Move::Nose => "Nose".to_owned(),
            Move::BackwardsMoustachio => "Backwards Moustachio".to_owned(),
            Move::NoseOfTheTaunted => "Nose Of The Taunted".to_owned(),
            Move::MustacheMash => "Mustache Mash".to_owned(),
            Move::BigHairyDeal => "Big Hairy Deal".to_owned(),
        }
    }

    /// The move that goes by `name`, a name in lower case and without
    /// white space.
    pub open spec fn spec_named(name: Seq<char>) -> Option<Move> {
        if name == "kick"@ {
            Some(Move::Kick)
        } else if name == "ninjasword"@ {
            Some(Move::NinjaSword)
        } else if name == "nunchucks"@ {
            Some(Move::Nunchucks)
        } else if name == "shadowfireball"@ {
            Some(Move::ShadowFireball)
        } else if name == "shadowslip"@ {
            Some(Move::ShadowSlip)
        } else if name == "runincircles"@ {
            Some(Move::RunInCircles)
        } else if name == "lightningfastkaratechop"@ {
            Some(Move::LightningFastKarateChop)
        } else if name == "rampage"@ {
            Some(Move::Rampage)
        } else if name == "muscle"@ {
            Some(Move::Muscle)
        } else if name == "zap"@ {
            Some(Move::Zap)
        } else if name == "regenerate"@ {
            Some(Move::Regenerate)
        } else if name == "gravedigger"@ {
            Some(Move::Gravedigger)
        } else if name == "zombiecorps"@ {
            Some(Move::ZombieCorps)
        } else if name == "apocalypse"@ {
            Some(Move::Apocalypse)
        } else if name == "samuraisword"@ {
            Some(Move::SamuraiSword)
        } else if name == "helmet"@ {
            Some(Move::Helmet)
        } else if name == "smash"@ {
            Some(Move::Smash)
        } else if name == "strongsmash"@ {
            Some(Move::StrongSmash)
        } else if name == "lightning"@ {
            Some(Move::Lightning)
        } else if name == "earthquake"@ {
            Some(Move::Earthquake)
        } else if name == "twist"@ {
            Some(Move::Twist)
        } else if name == "bend"@ {
            Some(Move::Bend)
        } else if name == "jugglingknives"@ {
            Some(Move::JugglingKnives)
        } else if name == "acidspray"@ {
            Some(Move::AcidSpray)
        } else if name == "nose"@ {
            Some(Move::Nose)
        } else if name == "backwardsmoustachio"@ {
            Some(Move::BackwardsMoustachio)
        } else if name == "noseofthetaunted"@ {
            Some(Move::NoseOfTheTaunted)
        } else if name == "mustachemash"@ {
            Some(Move::MustacheMash)
        } else if name == "bighairydeal"@ {
            Some(Move::BigHairyDeal)
        } else {
            None
        }
    }

    /// Reads the name of a move, whatever its case and its white space.
    pub fn from_name(s: &str) -> (result: Result<Move, ()>)
        ensures
            result == match Move::spec_named(helpers::normalized(s.spec_bytes())) {
                Some(named) => Ok::<Move, ()>(named),
                None => Err(()),
            },
    {
        let name = helpers::lowercase_no_whitespace(s);
        if name == "kick".to_owned() {
            Ok(Move::Kick)
        } else if name == "ninjasword".to_owned() {
            Ok(Move::NinjaSword)
        } else if name == "nunchucks".to_owned() {
            Ok(Move::Nunchucks)
        } else if name == "shadowfireball".to_owned() {
            Ok(Move::ShadowFireball)
        } else if name == "shadowslip".to_owned() {
            Ok(Move::ShadowSlip)
        } else if name == "runincircles".to_owned() {
            Ok(Move::RunInCircles)
        } else if name == "lightningfastkaratechop".to_owned() {
            Ok(Move::LightningFastKarateChop)
        } else if name == "rampage".to_owned() {
            Ok(Move::Rampage)
        } else if name == "muscle".to_owned() {
            Ok(Move::Muscle)
        } else if name == "zap".to_owned() {
            Ok(Move::Zap)
        } else if name == "regenerate".to_owned() {
            Ok(Move::Regenerate)
        } else if name == "gravedigger".to_owned() {
            Ok(Move::Gravedigger)
        } else if name == "zombiecorps".to_owned() {
            Ok(Move::ZombieCorps)
        } else if name == "apocalypse".to_owned() {
            Ok(Move::Apocalypse)
        } else if name == "samuraisword".to_owned() {
            Ok(Move::SamuraiSword)
        } else if name == "helmet".to_owned() {
            Ok(Move::Helmet)
        } else if name == "smash".to_owned() {
            Ok(Move::Smash)
        } else if name == "strongsmash".to_owned() {
            Ok(Move::StrongSmash)
        } else if name == "lightning".to_owned() {
            Ok(Move::Lightning)
        } else if name == "earthquake".to_owned() {
            Ok(Move::Earthquake)
        } else if name == "twist".to_owned() {
            Ok(Move::Twist)
        } else if name == "bend".to_owned() {
            Ok(Move::Bend)
        } else if name == "jugglingknives".to_owned() {
            Ok(Move::JugglingKnives)
        } else if name == "acidspray".to_owned() {
            Ok(Move::AcidSpray)
        } else if name == "nose".to_owned() {
            Ok(Move::Nose)
        } else if name == "backwardsmoustachio".to_owned() {
            Ok(Move::BackwardsMoustachio)
        } else if name == "noseofthetaunted".to_owned() {
            Ok(Move::NoseOfTheTaunted)
        } else if name == "mustachemash".to_owned() {
            Ok(Move::MustacheMash)
        } else if name == "bighairydeal".to_owned() {
            Ok(Move::BigHairyDeal)
        } else {
            Err(())
        }
    }
}

impl FromStr for Move {
    type Err = ();

    fn from_str(s: &str) -> (result: Result<Move, ()>)
        ensures
            result == match Move::spec_named(helpers::normalized(s.spec_bytes())) {
                Some(named) => Ok::<Move, ()>(named),
                None => Err(()),
            },
    {
        Move::from_name(s)
    }
}

} // verus!
