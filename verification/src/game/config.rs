use vstd::prelude::*;

verus! {

/// The rules of one game.
#[derive(Debug, Clone, Copy, PartialEq, Eq, Hash, Structural)]
pub struct Config {
    pub player_count: u8,
    pub points_to_win: u8,
    pub max_character_repetitions: u8,
    pub max_arsenal_items: u8,
}

/// A sequence of small numbers as mathematical integers.
pub open spec fn ints_of_u8(numbers: Seq<u8>) -> Seq<int> {
    numbers.map_values(|n: u8| n as int)
}

/// A sequence of numbers as mathematical integers.
pub open spec fn ints_of_u16(numbers: Seq<u16>) -> Seq<int> {
    numbers.map_values(|n: u16| n as int)
}

impl Config {
    /// The rules by default: two players, five points to win, three picks of
    /// a character in a row, and an arsenal that counts as full from two
    /// items on.
    pub open spec fn standard() -> Config {
        Config {
            player_count: 2,
            points_to_win: 5,
            max_character_repetitions: 3,
            max_arsenal_items: 2,
        }
    }

    /// How many of the totals equal the highest total.
    pub open spec fn leaders(totals: Seq<int>) -> nat {
        totals.to_multiset().count(totals.max())
    }

    /// What every player is deducted once the totals of a round are known.
    /// Nothing while the highest total is below the winning amount. Else the
    /// excess of the highest total over the winning amount, and one point
    /// more where two or more players hold the highest total.
    pub open spec fn spec_deduction(self, totals: Seq<int>) -> int {
        if totals.len() == 0 || totals.max() < self.points_to_win {
            0
        } else if Config::leaders(totals) > 1 {
            totals.max() - self.points_to_win + 1
        } else {
            totals.max() - self.points_to_win
        }
    }

    /// A total after the deduction; it does not go below zero.
    pub open spec fn settled(total: int, deduction: int) -> int {
        if total >= deduction {
            total - deduction
        } else {
            0
        }
    }

    /// Whether the round ends the game: after the deduction some total is
    /// the winning amount exactly.
    pub open spec fn ends_game(self, totals: Seq<int>) -> bool {
        exists|i: int|
            0 <= i < totals.len() && #[trigger] totals[i] - self.spec_deduction(totals)
                == self.points_to_win
    }

    /// What every player is deducted once the totals of a round are known.
    pub fn deduction(&self, totals: &Vec<u16>) -> (deduction: u16)
        requires
            forall|i: int| 0 <= i < totals@.len() ==> totals@[i] < u16::MAX,
        ensures
            deduction == self.spec_deduction(ints_of_u16(totals@)),
    {
        let ghost ints = ints_of_u16(totals@);
        if totals.len() == 0 {
            return 0;
        }
        let mut highest: u16 = totals[0];
        let mut i: usize = 1;
        while i < totals.len()
            invariant
                1 <= i <= totals.len(),
                forall|k: int| 0 <= k < i ==> totals@[k] <= highest,
                exists|k: int| 0 <= k < i && totals@[k] == highest,
            decreases totals.len() - i,
        {
            if totals[i] > highest {
                highest = totals[i];
            }
            i += 1;
        }
        proof {
            ints.max_ensures();
            let k = choose|k: int| 0 <= k < totals@.len() && totals@[k] == highest;
            assert(ints[k] == highest);
            let at = ints.index_of(ints.max());
            assert(ints[at] == totals@[at]);
        }
        assert(highest == ints.max());
        if highest < self.points_to_win as u16 {
            return 0;
        }
        let mut leaders: usize = 0;
        let mut j: usize = 0;
        proof {
            let none = ints.take(0);
            assert(none.len() == 0);
            vstd::seq_lib::to_multiset_contains(none, highest as int);
        }
        while j < totals.len()
            invariant
                j <= totals.len(),
                leaders <= j,
                ints == ints_of_u16(totals@),
                leaders == ints.take(j as int).to_multiset().count(highest as int),
            decreases totals.len() - j,
        {
            proof {
                let before = ints.take(j as int);
                let next = ints[j as int];
                assert(ints.take(j as int + 1) =~= before.push(next));
                vstd::seq_lib::to_multiset_build(before, next);
                vstd::multiset::lemma_insert_increases_count_by_1(before.to_multiset(), next);
                vstd::multiset::lemma_insert_other_elements_unchanged(
                    before.to_multiset(),
                    next,
                    highest as int,
                );
            }
            if totals[j] == highest {
                leaders += 1;
            }
            j += 1;
        }
        assert(ints.take(j as int) =~= ints);
        if leaders > 1 {
            highest - self.points_to_win as u16 + 1
        } else {
            highest - self.points_to_win as u16
        }
    }

    /// For each player, what the player is deducted once the totals of a
    /// round are known: the same amount for all. The amount has to fit the
    /// result's type.
    pub fn deductions(&self, points: Vec<u8>) -> (deductions: Vec<u8>)
        requires
            self.spec_deduction(ints_of_u8(points@)) <= u8::MAX,
        ensures
            deductions@.len() == points@.len(),
            forall|i: int|
                0 <= i < points@.len() ==> deductions@[i] == self.spec_deduction(
                    ints_of_u8(points@),
                ),
    {
        let mut totals: Vec<u16> = Vec::new();
        let mut i: usize = 0;
        while i < points.len()
            invariant
                i <= points.len(),
                totals@.len() == i,
                forall|k: int| 0 <= k < i ==> totals@[k] == points@[k],
            decreases points.len() - i,
        {
            totals.push(points[i] as u16);
            i += 1;
        }
        assert(ints_of_u16(totals@) =~= ints_of_u8(points@));
        let deduction = self.deduction(&totals) as u8;
        let mut deductions: Vec<u8> = Vec::new();
        let mut j: usize = 0;
        while j < points.len()
            invariant
                j <= points.len(),
                deductions@.len() == j,
                forall|k: int| 0 <= k < j ==> deductions@[k] == deduction,
            decreases points.len() - j,
        {
            deductions.push(deduction);
            j += 1;
        }
        deductions
    }

    /// The round ends the game exactly when one player alone holds the
    /// highest total and that total is at least the winning amount.
    pub proof fn lemma_ends_game(self, totals: Seq<int>)
        ensures
            self.ends_game(totals) <==> totals.len() > 0 && totals.max() >= self.points_to_win
                && Config::leaders(totals) == 1,
    {
        broadcast use vstd::seq_lib::group_to_multiset_ensures;

        totals.max_ensures();
        let d = self.spec_deduction(totals);
        if totals.len() > 0 {
            let m = totals.max();
            assert(totals.contains(m));
            assert(Config::leaders(totals) >= 1);
            if m >= self.points_to_win && Config::leaders(totals) == 1 {
                let i = totals.index_of(m);
                assert(totals[i] - d == self.points_to_win);
            }
            if self.ends_game(totals) {
                let i = choose|i: int|
                    0 <= i < totals.len() && #[trigger] totals[i] - d == self.points_to_win;
                assert(totals[i] <= m);
            }
        }
    }

    /// Where two or more players hold the highest total and it is at least the
    /// winning amount, the round does not end the game, and each of them is
    /// left with one point less than the winning amount.
    pub proof fn lemma_tie_is_suppressed(self, totals: Seq<int>, i: int)
        requires
            self.points_to_win >= 1,
            0 <= i < totals.len(),
            totals[i] == totals.max(),
            totals.max() >= self.points_to_win,
            Config::leaders(totals) > 1,
        ensures
            !self.ends_game(totals),
            Config::settled(totals[i], self.spec_deduction(totals)) == self.points_to_win - 1,
    {
        self.lemma_ends_game(totals);
    }

    /// Where one player alone holds the highest total, and it exceeds the
    /// winning amount by `excess`, the round ends the game. That player is
    /// left with the winning amount exactly, and every other player with
    /// `excess` points less than before, or with none: less than the winning
    /// amount, unless that is zero.
    pub proof fn lemma_single_winner_is_clamped(self, totals: Seq<int>, i: int, excess: int)
        requires
            0 <= i < totals.len(),
            forall|j: int| 0 <= j < totals.len() ==> 0 <= totals[j],
            totals[i] == totals.max(),
            totals[i] == self.points_to_win + excess,
            excess >= 0,
            Config::leaders(totals) == 1,
        ensures
            self.ends_game(totals),
            self.spec_deduction(totals) == excess,
            Config::settled(totals[i], excess) == self.points_to_win,
            forall|j: int|
                0 <= j < totals.len() && j != i ==> #[trigger] Config::settled(totals[j], excess)
                    == (if totals[j] >= excess {
                    totals[j] - excess
                } else {
                    0
                }) && Config::settled(totals[j], excess) <= self.points_to_win && (
                self.points_to_win >= 1 ==> Config::settled(totals[j], excess)
                    < self.points_to_win),
    {
        broadcast use vstd::seq_lib::group_to_multiset_ensures;

        self.lemma_ends_game(totals);
        totals.max_ensures();
        assert forall|j: int| 0 <= j < totals.len() && j != i implies totals[j] < totals[i] by {
            if totals[j] == totals[i] {
                Config::lemma_two_leaders(totals, i, j);
            }
        }
    }

    /// Two places that hold the highest total make two leaders.
    pub proof fn lemma_two_leaders(totals: Seq<int>, i: int, j: int)
        requires
            0 <= i < totals.len(),
            0 <= j < totals.len(),
            i != j,
            totals[i] == totals.max(),
            totals[j] == totals.max(),
        ensures
            Config::leaders(totals) >= 2,
    {
        broadcast use vstd::seq_lib::group_to_multiset_ensures;
        broadcast use vstd::multiset::group_multiset_properties;

        let m = totals.max();
        let (lo, hi) = if i < j {
            (i, j)
        } else {
            (j, i)
        };
        let without_hi = totals.remove(hi);
        assert(without_hi[lo] == m);
        assert(without_hi.contains(m));
        assert(without_hi.to_multiset().count(m) >= 1);
        assert(without_hi.to_multiset() =~= totals.to_multiset().remove(m));
    }
}

impl Default for Config {
    fn default() -> (config: Config)
        ensures
            config == Config::standard(),
    {
        Config {
            player_count: 2,
            points_to_win: 5,
            max_character_repetitions: 3,
            max_arsenal_items: 2,
        }
    }
}

} // verus!
