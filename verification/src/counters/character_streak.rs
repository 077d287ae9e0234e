use crate::choices::Character;
use vstd::prelude::*;

verus! {

/// The character that a player picked last, and how many times in a row.
#[derive(Debug, Clone, Copy, PartialEq, Eq, Hash, Structural)]
pub struct CharacterStreak {
    pub character: Character,
    pub times: u8,
}

impl CharacterStreak {
    /// Whether `streak` has reached the cap, so that its character is closed.
    pub open spec fn capped(streak: Option<CharacterStreak>, max_times: u8) -> bool {
        streak matches Some(s) && s.times >= max_times
    }

    /// The characters open to selection: all of them, but for the one of a
    /// streak that has reached `max_times`.
    pub open spec fn offered(streak: Option<CharacterStreak>, max_times: u8) -> Seq<Character> {
        if CharacterStreak::capped(streak, max_times) {
            Character::spec_all().filter(|c: Character| c != streak->0.character)
        } else {
            Character::spec_all()
        }
    }

    /// Whether a pick of `character` is accepted: every pick but one of the
    /// character of a streak that has reached the cap.
    pub open spec fn accepts(
        streak: Option<CharacterStreak>,
        max_times: u8,
        character: Character,
    ) -> bool {
        !(CharacterStreak::capped(streak, max_times) && streak->0.character == character)
    }

    /// The streak after an accepted pick of `character`: one longer where the
    /// pick repeats the streak's character, and a new streak of one otherwise.
    pub open spec fn extended(
        streak: Option<CharacterStreak>,
        character: Character,
    ) -> CharacterStreak {
        match streak {
            Some(s) if s.character == character => CharacterStreak {
                character,
                times: (s.times + 1) as u8,
            },
            _ => CharacterStreak { character, times: 1 },
        }
    }

    /// The streak after `n` picks of `character` in a row by a player who had
    /// picked nothing before.
    pub open spec fn repeated(character: Character, n: nat) -> Option<CharacterStreak>
        decreases n,
    {
        if n == 0 {
            None
        } else {
            Some(CharacterStreak::extended(CharacterStreak::repeated(character, (n - 1) as nat), character))
        }
    }

    /// A pick is accepted exactly when the character is among those offered.
    pub proof fn lemma_accepted_iff_offered(
        streak: Option<CharacterStreak>,
        max_times: u8,
        character: Character,
    )
        ensures
            CharacterStreak::accepts(streak, max_times, character) <==> CharacterStreak::offered(
                streak,
                max_times,
            ).contains(character),
    {
        let all = Character::spec_all();
        assert(all[character.spec_index()] == character);
        assert(all.contains(character));
        if CharacterStreak::capped(streak, max_times) {
            let closed = streak->0.character;
            let open = |c: Character| c != closed;
            broadcast use vstd::seq_lib::group_filter_ensures;

            if character != closed {
                assert(open(character));
            }
        }
    }

    /// A player may pick one character `max_times` times in a row. The
    /// character is then closed: it is not offered and a pick of it is
    /// refused. A pick of any other character is accepted and starts a streak
    /// of one, after which the first character is offered again.
    pub proof fn lemma_streak_cap(max_times: u8, character: Character, other: Character)
        requires
            max_times >= 1,
            other != character,
        ensures
            forall|n: nat|
                n < max_times ==> CharacterStreak::accepts(
                    #[trigger] CharacterStreak::repeated(character, n),
                    max_times,
                    character,
                ),
            CharacterStreak::repeated(character, max_times as nat) == Some(
                CharacterStreak { character, times: max_times },
            ),
            !CharacterStreak::offered(
                CharacterStreak::repeated(character, max_times as nat),
                max_times,
            ).contains(character),
            !CharacterStreak::accepts(
                CharacterStreak::repeated(character, max_times as nat),
                max_times,
                character,
            ),
            CharacterStreak::accepts(
                CharacterStreak::repeated(character, max_times as nat),
                max_times,
                other,
            ),
            CharacterStreak::extended(
                CharacterStreak::repeated(character, max_times as nat),
                other,
            ) == (CharacterStreak { character: other, times: 1 }),
            CharacterStreak::offered(
                Some(CharacterStreak { character: other, times: 1 }),
                max_times,
            ).contains(character),
    {
        assert forall|n: nat| 1 <= n <= max_times implies #[trigger] CharacterStreak::repeated(
            character,
            n,
        ) == Some(CharacterStreak { character, times: n as u8 }) by {
            CharacterStreak::lemma_repeated(character, n);
        }
        let capped = CharacterStreak::repeated(character, max_times as nat);
        assert(capped == Some(CharacterStreak { character, times: max_times }));
        CharacterStreak::lemma_accepted_iff_offered(capped, max_times, character);
        CharacterStreak::lemma_accepted_iff_offered(
            Some(CharacterStreak { character: other, times: 1 }),
            max_times,
            character,
        );
        assert forall|n: nat| n < max_times implies CharacterStreak::accepts(
            #[trigger] CharacterStreak::repeated(character, n),
            max_times,
            character,
        ) by {
            if n > 0 {
                CharacterStreak::lemma_repeated(character, n);
            }
        }
    }

    /// After `n` picks in a row, at most 255, the streak counts `n`.
    pub proof fn lemma_repeated(character: Character, n: nat)
        requires
            1 <= n <= u8::MAX,
        ensures
            CharacterStreak::repeated(character, n) == Some(
                CharacterStreak { character, times: n as u8 },
            ),
        decreases n,
    {
        if n > 1 {
            CharacterStreak::lemma_repeated(character, (n - 1) as nat);
        } else {
            assert(CharacterStreak::repeated(character, 0) == None::<CharacterStreak>);
        }
    }
}

/// Character selection under a cap on consecutive picks of one character.
pub trait CharacterChoices {
    fn choices(&self, max_times: u8) -> Vec<Character>;

    fn make_choice(&mut self, max_times: u8, character: Character) -> Result<(), ()>;
}

impl CharacterChoices for Option<CharacterStreak> {
    /// The characters that may be picked next, in catalogue order.
    fn choices(&self, max_times: u8) -> (characters: Vec<Character>)
        ensures
            characters@ == CharacterStreak::offered(*self, max_times),
    {
        let all = Character::all();
        match self {
            Some(streak) => {
                if streak.times >= max_times {
                    let closed = streak.character;
                    let mut open: Vec<Character> = Vec::new();
                    let mut i: usize = 0;
                    while i < all.len()
                        invariant
                            i <= all.len(),
                            open@ == all@.take(i as int).filter(|c: Character| c != closed),
                        decreases all.len() - i,
                    {
                        let c = all[i];
                        proof {
                            assert(all@.take(i as int + 1) =~= all@.take(i as int).push(c));
                            all@.take(i as int).lemma_filter_push(c, |c: Character| c != closed);
                        }
                        if c != closed {
                            open.push(c);
                        }
                        i += 1;
                    }
                    assert(all@.take(i as int) =~= all@);
                    open
                } else {
                    all
                }
            },
            None => all,
        }
    }

    /// Records a pick of `character`. A refused pick leaves the streak as it
    /// was.
    fn make_choice(&mut self, max_times: u8, character: Character) -> (result: Result<(), ()>)
        ensures
            result is Ok <==> CharacterStreak::accepts(*old(self), max_times, character),
            result is Ok ==> *final(self) == Some(CharacterStreak::extended(*old(self), character)),
            result is Err ==> *final(self) == *old(self),
    {
        match *self {
            None => {
                *self = Some(CharacterStreak { character, times: 1 });
                Ok(())
            },
            Some(streak) => {
                if streak.character == character {
                    if streak.times < max_times {
                        *self = Some(CharacterStreak { character, times: streak.times + 1 });
                        Ok(())
                    } else {
                        Err(())
                    }
                } else {
                    *self = Some(CharacterStreak { character, times: 1 });
                    Ok(())
                }
            },
        }
    }
}

} // verus!
