use super::moves::Move;
use crate::helpers;
use std::str::FromStr;
use vstd::prelude::*;
use vstd::string::StringSliceAdditionalSpecFns;

verus! {

/// A booster of the catalogue. Each character may pick two of them, or none.
#[derive(Clone, Copy, PartialEq, Eq, Hash, Debug, Structural)]
pub enum Booster {
    Shadow,
    Speedy,
    Regenerative,
    ZombieCorps,
    Atlas,
    Strong,
    Backwards,
    Moustachio,
    NoBooster,
}

impl Booster {
    pub open spec fn spec_moves(self) -> Seq<Move> {
        match self {
            Booster::Shadow => seq![Move::ShadowFireball, Move::ShadowSlip],
            Booster::Speedy => seq![Move::RunInCircles, Move::LightningFastKarateChop],
            Booster::Regenerative => seq![Move::Regenerate, Move::Gravedigger],
            Booster::ZombieCorps => seq![Move::ZombieCorps, Move::Apocalypse],
            Booster::Atlas => seq![Move::Lightning, Move::Earthquake],
            Booster::Strong => seq![Move::Twist, Move::Bend],
            Booster::Backwards => seq![Move::BackwardsMoustachio, Move::NoseOfTheTaunted],
            Booster::Moustachio => seq![Move::MustacheMash, Move::BigHairyDeal],
            Booster::NoBooster => seq![],
        }
    }

    /// The moves that the booster grants: two, or none without a booster.
    pub fn moves(self) -> (moves: Vec<Move>)
        ensures
            moves@ == self.spec_moves(),
    {
        let moves = match self {
            Booster::Shadow => vec![Move::ShadowFireball, Move::ShadowSlip],
            Booster::Speedy => vec![Move::RunInCircles, Move::LightningFastKarateChop],
            Booster::Regenerative => vec![Move::Regenerate, Move::Gravedigger],
            Booster::ZombieCorps => vec![Move::ZombieCorps, Move::Apocalypse],
            Booster::Atlas => vec![Move::Lightning, Move::Earthquake],
            Booster::Strong => vec![Move::Twist, Move::Bend],
            Booster::Backwards => vec![Move::BackwardsMoustachio, Move::NoseOfTheTaunted],
            Booster::Moustachio => vec![Move::MustacheMash, Move::BigHairyDeal],
            Booster::NoBooster => Vec::new(),
        };
        assert(moves@ =~= self.spec_moves());
        moves
    }

    /// What the booster makes of a list of moves: `Strong` takes every `Smash`
    /// out and appends one `StrongSmash`; the others leave the list alone.
    pub open spec fn spec_replace_moves(self, moves: Seq<Move>) -> Seq<Move> {
        if self == Booster::Strong {
            moves.filter(|m: Move| m != Move::Smash).push(Move::StrongSmash)
        } else {
            moves
        }
    }

    /// Applies the booster's replacement rule to `moves`.
    pub fn replace_moves(self, moves: &mut Vec<Move>)
        ensures
            final(moves)@ == self.spec_replace_moves(old(moves)@),
    {
        match self {
            Booster::Strong => {
                let mut kept: Vec<Move> = Vec::new();
                let mut i: usize = 0;
                while i < moves.len()
                    invariant
                        i <= moves.len(),
                        moves@ == old(moves)@,
                        kept@ == moves@.take(i as int).filter(|m: Move| m != Move::Smash),
                    decreases moves.len() - i,
                {
                    let m = moves[i];
                    proof {
                        assert(moves@.take(i as int + 1) =~= moves@.take(i as int).push(m));
                        moves@.take(i as int).lemma_filter_push(m, |m: Move| m != Move::Smash);
                    }
                    if m != Move::Smash {
                        kept.push(m);
                    }
                    i += 1;
                }
                assert(moves@.take(i as int) =~= moves@);
                kept.push(Move::StrongSmash);
                *moves = kept;
            },
            _ => {},
        }
    }
}

impl Booster {
    /// The name of the booster as it is shown.
    pub open spec fn spec_name(self) -> Seq<char> {
        match self {
            Booster::Shadow => "Shadow"@,
            Booster::Speedy => "Speedy"@,
            Booster::Regenerative => "Regenerative"@,
            Booster::ZombieCorps => "Zombie Corps"@,
            Booster::Atlas => "Atlas"@,
            Booster::Strong => "Strong"@,
            Booster::Backwards => "Backwards"@,
            Booster::Moustachio => "Moustachio"@,
            Booster::NoBooster => "No Booster"@,
        }
    }

    pub fn to_string(&self) -> (name: String)
        ensures
            name@ == self.spec_name(),
    {
        match self {
            Booster::Shadow => "Shadow".to_owned(),
            Booster::Speedy => "Speedy".to_owned(),
            Booster::Regenerative => "Regenerative".to_owned(),
            Booster::ZombieCorps => "Zombie Corps".to_owned(),
            Booster::Atlas => "Atlas".to_owned(),
            Booster::Strong => "Strong".to_owned(),
            Booster::Backwards => "Backwards".to_owned(),
            Booster::Moustachio => "Moustachio".to_owned(),
            Booster::NoBooster => "No Booster".to_owned(),
        }
    }

    /// The booster that goes by `name`, a name in lower case and without
    /// white space.
    pub open spec fn spec_named(name: Seq<char>) -> Option<Booster> {
        if name == "shadow"@ {
            Some(Booster::Shadow)
        } else if name == "speedy"@ {
            Some(Booster::Speedy)
        } else if name == "regenerative"@ {
            Some(Booster::Regenerative)
        } else if name == "zombiecorps"@ {
            Some(Booster::ZombieCorps)
        } else if name == "atlas"@ {
            Some(Booster::Atlas)
        } else if name == "strong"@ {
            Some(Booster::Strong)
        } else if name == "backwards"@ {
            Some(Booster::Backwards)
        } else if name == "moustachio"@ {
            Some(Booster::Moustachio)
        } else if name == "none"@ {
            Some(Booster::NoBooster)
        } else if name == "nobooster"@ {
            Some(Booster::NoBooster)
        } else {
            None
        }
    }

    /// Reads the name of a booster, whatever its case and its white space.
    pub fn from_name(s: &str) -> (result: Result<Booster, ()>)
        ensures
            result == match Booster::spec_named(helpers::normalized(s.spec_bytes())) {
                Some(named) => Ok::<Booster, ()>(named),
                None => Err(()),
            },
    {
        let name = helpers::lowercase_no_whitespace(s);
        if name == "shadow".to_owned() {
            Ok(Booster::Shadow)
        } else if name == "speedy".to_owned() {
            Ok(Booster::Speedy)
        } else if name == "regenerative".to_owned() {
            Ok(Booster::Regenerative)
        } else if name == "zombiecorps".to_owned() {
            Ok(Booster::ZombieCorps)
        } else if name == "atlas".to_owned() {
            Ok(Booster::Atlas)
        } else if name == "strong".to_owned() {
            Ok(Booster::Strong)
        } else if name == "backwards".to_owned() {
            Ok(Booster::Backwards)
        } else if name == "moustachio".to_owned() {
            Ok(Booster::Moustachio)
        } else if name == "none".to_owned() {
            Ok(Booster::NoBooster)
        } else if name == "nobooster".to_owned() {
            Ok(Booster::NoBooster)
        } else {
            Err(())
        }
    }
}

impl FromStr for Booster {
    type Err = ();

    fn from_str(s: &str) -> (result: Result<Booster, ()>)
        ensures
            result == match Booster::spec_named(helpers::normalized(s.spec_bytes())) {
                Some(named) => Ok::<Booster, ()>(named),
                None => Err(()),
            },
    {
        Booster::from_name(s)
    }
}

} // verus!
