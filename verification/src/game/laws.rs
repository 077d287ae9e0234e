use super::{Config, GameView, PhaseView};
use crate::choices;
use crate::choices::{Action, BatchChoice, Character, PointsAgainst};
use crate::counters::CharacterStreak;
use crate::outcomes::{CharacterHeadstart, OutcomeView};
use vstd::prelude::*;

verus! {

impl GameView {
    /// A game that is over accepts no batch.
    pub proof fn lemma_finished_game_accepts_nothing(self, batch: BatchChoice)
        requires
            self.phase is Final,
        ensures
            !self.accepts(batch),
    {
    }

    /// A batch of characters with duplicates, where the game accepts it,
    /// never completes the character phase: the players are asked to choose
    /// again, and the pick of each of them is counted in its streak.
    pub proof fn lemma_duplicates_keep_the_character_phase(self, batch: BatchChoice)
        requires
            self.wf(),
            self.phase is Character,
            self.accepts(batch),
            GameView::has_duplicates(batch->Characters_0@),
        ensures
            self.next(batch).phase is Character,
            self.outcome(batch) == OutcomeView::CharacterPhaseRechoose(batch->Characters_0@),
            self.next(batch).phase->Character_0.len() == self.phase->Character_0.len(),
            forall|i: int|
                0 <= i < self.phase->Character_0.len() ==> {
                    let before = self.phase->Character_0[i];
                    let after = #[trigger] self.next(batch).phase->Character_0[i];
                    let character = batch->Characters_0@[i];
                    &&& after.game_config == before.game_config
                    &&& after.streak == Some(CharacterStreak::extended(before.streak, character))
                    &&& after.streak->0.character == character
                    &&& after.streak->0.times == (if before.streak is Some
                        && before.streak->0.character == character {
                        before.streak->0.times + 1
                    } else {
                        1
                    })
                },
    {
        let players = self.phase->Character_0;
        let characters = batch->Characters_0@;
        assert forall|i: int| 0 <= i < players.len() implies {
            let before = players[i];
            let after = #[trigger] self.next(batch).phase->Character_0[i];
            let character = characters[i];
            &&& after.game_config == before.game_config
            &&& after.streak == Some(CharacterStreak::extended(before.streak, character))
            &&& after.streak->0.character == character
            &&& after.streak->0.times == (if before.streak is Some && before.streak->0.character
                == character {
                before.streak->0.times + 1
            } else {
                1
            })
        } by {
            let before = players[i];
            assert(before.spec_choices().contains(characters[i]));
            CharacterStreak::lemma_accepted_iff_offered(
                before.streak,
                before.game_config.max_character_repetitions,
                characters[i],
            );
        }
    }

    /// Of two characters of which the first scores against the second and
    /// the second does not score against the first, the first starts with one
    /// point and the second with none.
    pub proof fn lemma_headstart_of_two(first: Character, second: Character)
        requires
            first.spec_points_against(&second) == 1,
            second.spec_points_against(&first) == 0,
        ensures
            GameView::headstarts(seq![first, second]) == seq![
                CharacterHeadstart(first, 1),
                CharacterHeadstart(second, 0),
            ],
    {
        let characters = seq![first, second];
        reveal_with_fuel(choices::sum, 3);
        let row = choices::points_row(characters, 0);
        assert(row.drop_last().len() == 1);
        assert(row.drop_last().drop_last().len() == 0);
        assert(choices::total_points(characters, 0) == 1);
        let row = choices::points_row(characters, 1);
        assert(row.drop_last().len() == 1);
        assert(row.drop_last().drop_last().len() == 0);
        assert(choices::total_points(characters, 1) == 0);
        assert(GameView::headstarts(characters) =~= seq![
            CharacterHeadstart(first, 1),
            CharacterHeadstart(second, 0),
        ]);
    }

    /// Where two players reach the highest total of a round together, and it
    /// is at least the winning amount, the game goes on: the round is
    /// reported as scored, the dequeue phase follows, and each of the two is
    /// left with one point less than the winning amount.
    pub proof fn lemma_tied_leaders_do_not_win(self, batch: BatchChoice, i: int, j: int)
        requires
            self.wf(),
            self.phase is Action,
            self.accepts(batch),
            self.config.points_to_win >= 1,
            0 <= i < self.phase->Action_0.len(),
            0 <= j < self.phase->Action_0.len(),
            i != j,
            ({
                let totals = GameView::totals(self.phase->Action_0, batch->Actions_0@);
                &&& totals[i] == totals.max()
                &&& totals[j] == totals.max()
                &&& totals.max() >= self.config.points_to_win
            }),
        ensures
            self.next(batch).phase is Dequeue,
            self.outcome(batch) is ActionPhaseDone,
            self.next(batch).phase->Dequeue_0[i].points == self.config.points_to_win - 1,
            self.next(batch).phase->Dequeue_0[j].points == self.config.points_to_win - 1,
    {
        let players = self.phase->Action_0;
        let actions = batch->Actions_0@;
        let totals = GameView::totals(players, actions);
        Config::lemma_two_leaders(totals, i, j);
        self.config.lemma_tie_is_suppressed(totals, i);
        self.config.lemma_tie_is_suppressed(totals, j);
        GameView::lemma_round_is_bounded(self.config, players, actions);
        let gain_i = choices::total_points(actions, i);
        let gain_j = choices::total_points(actions, j);
        assert(0 <= gain_i <= 4 && 0 <= gain_j <= 4);
    }

    /// Where one player alone reaches the highest total of a round, and it
    /// exceeds the winning amount by `excess`, the game is over. The winner
    /// is left with the winning amount exactly, and every other player with
    /// `excess` points less than its total, or with none where its total is
    /// less than `excess`.
    pub proof fn lemma_single_leader_wins(self, batch: BatchChoice, i: int, excess: int)
        requires
            self.wf(),
            self.phase is Action,
            self.accepts(batch),
            0 <= i < self.phase->Action_0.len(),
            excess >= 0,
            ({
                let totals = GameView::totals(self.phase->Action_0, batch->Actions_0@);
                &&& totals[i] == totals.max()
                &&& totals[i] == self.config.points_to_win + excess
                &&& Config::leaders(totals) == 1
            }),
        ensures
            self.next(batch).phase is Final,
            self.outcome(batch) is GameOver,
            self.next(batch).phase->Final_0[i].points == self.config.points_to_win,
            forall|k: int|
                0 <= k < self.phase->Action_0.len() && k != i ==> {
                    let total = GameView::totals(self.phase->Action_0, batch->Actions_0@)[k];
                    (#[trigger] self.next(batch).phase->Final_0[k]).points == (if total >= excess {
                        total - excess
                    } else {
                        0
                    })
                },
    {
        let players = self.phase->Action_0;
        let actions = batch->Actions_0@;
        let totals = GameView::totals(players, actions);
        GameView::lemma_round_is_bounded(self.config, players, actions);
        assert forall|k: int| 0 <= k < totals.len() implies 0 <= totals[k] by {
            assert(0 <= choices::total_points(actions, k) <= 4);
        }
        self.config.lemma_single_winner_is_clamped(totals, i, excess);
        assert forall|k: int| 0 <= k < players.len() implies (#[trigger] self.next(
            batch,
        ).phase->Final_0[k]).points == Config::settled(totals[k], excess) by {
            assert(0 <= choices::total_points(actions, k) <= 4);
        }
        assert forall|k: int| 0 <= k < players.len() && k != i implies {
            let total = totals[k];
            (#[trigger] self.next(batch).phase->Final_0[k]).points == (if total >= excess {
                total - excess
            } else {
                0
            })
        } by {
            assert(self.next(batch).phase->Final_0[k].points == Config::settled(totals[k], excess));
        }
    }

    /// Where any action of a round is destructive, the item of every action
    /// of the round is reported lost, whoever played the destructive one, and
    /// no queue takes anything in: every queue is after the round as it was
    /// before.
    pub proof fn lemma_destruction_reaches_everyone(self, batch: BatchChoice)
        requires
            self.wf(),
            self.phase is Action,
            self.accepts(batch),
            Action::any_destructive(batch->Actions_0@),
        ensures
            forall|k: int|
                0 <= k < self.phase->Action_0.len() ==> (#[trigger] GameView::scores(
                    self.config,
                    self.phase->Action_0,
                    batch->Actions_0@,
                )[k]).2,
            forall|k: int|
                0 <= k < self.phase->Action_0.len() ==> (#[trigger] GameView::after_actions(
                    self.config,
                    self.phase->Action_0,
                    batch->Actions_0@,
                )[k]).queue == self.phase->Action_0[k].queue,
            self.next(batch).phase == (if self.config.ends_game(
                GameView::totals(self.phase->Action_0, batch->Actions_0@),
            ) {
                PhaseView::Final(
                    GameView::after_actions(self.config, self.phase->Action_0, batch->Actions_0@),
                )
            } else {
                PhaseView::Dequeue(
                    GameView::after_actions(self.config, self.phase->Action_0, batch->Actions_0@),
                )
            }),
    {
    }
}

} // verus!
