use super::{Config, PhaseView};
use crate::choices;
use crate::choices::{
    Action, BatchChoice, BatchChoices, Booster, Character, DequeueChoice, PointsAgainst,
};
use crate::outcomes::{ActionPointsDestroyed, CharacterHeadstart, OutcomeView};
use crate::players::{BoosterlessPlayer, CharacterlessPlayer, PlayerView};
use vstd::prelude::*;

verus! {

/// A game as plain values, and the rules as functions on them.
pub struct GameView {
    pub config: Config,
    pub phase: PhaseView,
}

impl GameView {
    /// A new game: every player has yet to pick a character for the first
    /// time.
    pub open spec fn initial(config: Config) -> GameView {
        GameView {
            config,
            phase: PhaseView::Character(
                Seq::new(
                    config.player_count as nat,
                    |i: int| CharacterlessPlayer { game_config: config, streak: None },
                ),
            ),
        }
    }

    /// The most points that a player can hold between two rounds: the
    /// winning amount, which no round leaves a player above, or four where
    /// that is more, since a headstart can be any number up to the number of
    /// characters.
    pub open spec fn points_bound(config: Config) -> int {
        if config.points_to_win >= 4 {
            config.points_to_win as int
        } else {
            4
        }
    }

    /// What holds of the players once each has a character: they follow the
    /// rules of the game, no two have the same character, and none holds more
    /// points than a round can leave.
    pub open spec fn players_wf(config: Config, players: Seq<PlayerView>) -> bool {
        &&& players.len() == config.player_count
        &&& forall|i: int|
            0 <= i < players.len() ==> (#[trigger] players[i]).game_config == config
                && players[i].points <= GameView::points_bound(config)
        &&& forall|i: int, j: int|
            0 <= i < j < players.len() ==> (#[trigger] players[i]).character
                != (#[trigger] players[j]).character
    }

    /// What holds of the players of a finished game: some player holds the
    /// winning amount, none holds more, and no second player holds it unless
    /// it is zero.
    pub open spec fn has_winner(config: Config, players: Seq<PlayerView>) -> bool {
        &&& exists|w: int| 0 <= w < players.len() && (#[trigger] players[w]).points == config.points_to_win
        &&& forall|i: int|
            0 <= i < players.len() ==> (#[trigger] players[i]).points <= config.points_to_win
        &&& config.points_to_win >= 1 ==> forall|i: int, j: int|
            0 <= i < j < players.len() ==> !((#[trigger] players[i]).points == config.points_to_win
                && (#[trigger] players[j]).points == config.points_to_win)
    }

    /// The states that a game can be in.
    pub open spec fn wf(self) -> bool {
        match self.phase {
            PhaseView::Character(players) => {
                &&& players.len() == self.config.player_count
                &&& forall|i: int|
                    0 <= i < players.len() ==> (#[trigger] players[i]).game_config == self.config
            },
            PhaseView::Booster(players) => {
                &&& players.len() == self.config.player_count
                &&& forall|i: int|
                    0 <= i < players.len() ==> (#[trigger] players[i]).game_config == self.config
                        && players[i].points <= GameView::points_bound(self.config)
                &&& forall|i: int, j: int|
                    0 <= i < j < players.len() ==> (#[trigger] players[i]).character
                        != (#[trigger] players[j]).character
            },
            PhaseView::Dequeue(players) => GameView::players_wf(self.config, players),
            PhaseView::Action(players) => GameView::players_wf(self.config, players),
            PhaseView::Final(players) => GameView::players_wf(self.config, players)
                && GameView::has_winner(self.config, players),
        }
    }

    /// Whether the batch has a character for each player, one that the player
    /// may pick.
    pub open spec fn legal_characters(
        players: Seq<CharacterlessPlayer>,
        characters: Seq<Character>,
    ) -> bool {
        &&& characters.len() == players.len()
        &&& forall|i: int|
            0 <= i < players.len() ==> (#[trigger] players[i]).spec_choices().contains(
                characters[i],
            )
    }

    /// Whether the batch has a booster for each player, one that the player
    /// may pick.
    pub open spec fn legal_boosters(players: Seq<BoosterlessPlayer>, boosters: Seq<Booster>) -> bool {
        &&& boosters.len() == players.len()
        &&& forall|i: int|
            0 <= i < players.len() ==> (#[trigger] players[i]).spec_choices().contains(boosters[i])
    }

    /// Whether the batch has a dequeue choice for each player, one that the
    /// player may make.
    pub open spec fn legal_dequeue_choices(
        players: Seq<PlayerView>,
        dequeue_choices: Seq<DequeueChoice>,
    ) -> bool {
        &&& dequeue_choices.len() == players.len()
        &&& forall|i: int|
            0 <= i < players.len() ==> (#[trigger] players[i]).dequeue_choices().contains(
                dequeue_choices[i],
            )
    }

    /// Whether the batch has an action for each player, one that the player
    /// may take.
    pub open spec fn legal_actions(players: Seq<PlayerView>, actions: Seq<Action>) -> bool {
        &&& actions.len() == players.len()
        &&& forall|i: int|
            0 <= i < players.len() ==> (#[trigger] players[i]).actions().contains(actions[i])
    }

    /// Whether `choices` lists, for each player in turn, the choices that the
    /// player may make in this phase; a game that is over offers none.
    pub open spec fn offers(self, choices: BatchChoices) -> bool {
        match (self.phase, choices) {
            (PhaseView::Character(players), BatchChoices::Characters(characters)) => {
                &&& characters@.len() == players.len()
                &&& forall|i: int|
                    0 <= i < players.len() ==> (#[trigger] characters@[i])@
                        == players[i].spec_choices()
            },
            (PhaseView::Booster(players), BatchChoices::Boosters(boosters)) => {
                &&& boosters@.len() == players.len()
                &&& forall|i: int|
                    0 <= i < players.len() ==> (#[trigger] boosters@[i])@
                        == players[i].spec_choices()
            },
            (PhaseView::Dequeue(players), BatchChoices::DequeueChoices(dequeue_choices)) => {
                &&& dequeue_choices@.len() == players.len()
                &&& forall|i: int|
                    0 <= i < players.len() ==> (#[trigger] dequeue_choices@[i])@
                        == players[i].dequeue_choices()
            },
            (PhaseView::Action(players), BatchChoices::Actions(actions)) => {
                &&& actions@.len() == players.len()
                &&& forall|i: int|
                    0 <= i < players.len() ==> (#[trigger] actions@[i])@ == players[i].actions()
            },
            (PhaseView::Final(_), BatchChoices::NoChoices) => true,
            _ => false,
        }
    }

    /// Whether the game accepts the batch: it has one choice for each player,
    /// of the kind that the phase asks for, and each player may make the
    /// choice that the batch has for it.
    pub open spec fn accepts(self, batch: BatchChoice) -> bool {
        &&& batch.spec_len() == self.config.player_count
        &&& match (self.phase, batch) {
            (PhaseView::Character(players), BatchChoice::Characters(characters)) =>
                GameView::legal_characters(players, characters@),
            (PhaseView::Booster(players), BatchChoice::Boosters(boosters)) =>
                GameView::legal_boosters(players, boosters@),
            (PhaseView::Dequeue(players), BatchChoice::DequeueChoices(dequeue_choices)) =>
                GameView::legal_dequeue_choices(players, dequeue_choices@),
            (PhaseView::Action(players), BatchChoice::Actions(actions)) =>
                GameView::legal_actions(players, actions@),
            _ => false,
        }
    }

    /// Whether two of the characters are the same.
    pub open spec fn has_duplicates(characters: Seq<Character>) -> bool {
        exists|i: int, j: int|
            0 <= i < j < characters.len() && #[trigger] characters[i] == #[trigger] characters[j]
    }

    /// The players after a batch of characters with duplicates: each has one
    /// more pick in its streak.
    pub open spec fn with_picks(
        players: Seq<CharacterlessPlayer>,
        characters: Seq<Character>,
    ) -> Seq<CharacterlessPlayer> {
        Seq::new(players.len(), |i: int| players[i].with_pick(characters[i]))
    }

    /// Each character with its headstart: the points it scores against all
    /// the characters of the batch.
    pub open spec fn headstarts(characters: Seq<Character>) -> Seq<CharacterHeadstart> {
        Seq::new(
            characters.len(),
            |i: int| CharacterHeadstart(characters[i], choices::total_points(characters, i) as u8),
        )
    }

    /// The players after a batch of characters without duplicates: each has
    /// its character, and its headstart for points.
    pub open spec fn with_characters(
        players: Seq<CharacterlessPlayer>,
        characters: Seq<Character>,
    ) -> Seq<BoosterlessPlayer> {
        Seq::new(
            players.len(),
            |i: int|
                BoosterlessPlayer {
                    game_config: players[i].game_config,
                    points: GameView::headstarts(characters)[i].1,
                    character: characters[i],
                },
        )
    }

    /// The players after a batch of boosters.
    pub open spec fn with_boosters(
        players: Seq<BoosterlessPlayer>,
        boosters: Seq<Booster>,
    ) -> Seq<PlayerView> {
        Seq::new(
            players.len(),
            |i: int|
                PlayerView::armed(
                    players[i].game_config,
                    players[i].points,
                    players[i].character,
                    boosters[i],
                ),
        )
    }

    /// The players after a batch of dequeue choices.
    pub open spec fn after_dequeues(
        players: Seq<PlayerView>,
        dequeue_choices: Seq<DequeueChoice>,
    ) -> Seq<PlayerView> {
        Seq::new(players.len(), |i: int| players[i].after_dequeue(dequeue_choices[i]))
    }

    /// For each player, the points held before the round and those gained in
    /// it.
    pub open spec fn totals(players: Seq<PlayerView>, actions: Seq<Action>) -> Seq<int> {
        Seq::new(players.len(), |i: int| players[i].points + choices::total_points(actions, i))
    }

    /// For each player, the action with what the round changes: the points
    /// gained less the deduction, and whether the item spent is lost.
    pub open spec fn scores(
        config: Config,
        players: Seq<PlayerView>,
        actions: Seq<Action>,
    ) -> Seq<ActionPointsDestroyed> {
        Seq::new(
            players.len(),
            |i: int|
                ActionPointsDestroyed(
                    actions[i],
                    (choices::total_points(actions, i) - config.spec_deduction(
                        GameView::totals(players, actions),
                    )) as i8,
                    Action::spec_destroyed(actions, i),
                ),
        )
    }

    /// The players after a batch of actions.
    pub open spec fn after_actions(
        config: Config,
        players: Seq<PlayerView>,
        actions: Seq<Action>,
    ) -> Seq<PlayerView> {
        Seq::new(
            players.len(),
            |i: int|
                {
                    let score = GameView::scores(config, players, actions)[i];
                    players[i].after_action(score.0, score.1, score.2)
                },
        )
    }

    /// The game after a batch that it accepts.
    ///
    /// Characters with duplicates leave the game in the character phase, with
    /// the picks counted. Characters without duplicates lead to the booster
    /// phase, boosters to the dequeue phase, dequeue choices to the action
    /// phase. Actions lead back to the dequeue phase, or end the game where
    /// the round gives it a winner.
    pub open spec fn next(self, batch: BatchChoice) -> GameView {
        GameView {
            config: self.config,
            phase: match (self.phase, batch) {
                (PhaseView::Character(players), BatchChoice::Characters(characters)) => {
                    if GameView::has_duplicates(characters@) {
                        PhaseView::Character(GameView::with_picks(players, characters@))
                    } else {
                        PhaseView::Booster(GameView::with_characters(players, characters@))
                    }
                },
                (PhaseView::Booster(players), BatchChoice::Boosters(boosters)) => PhaseView::Dequeue(
                    GameView::with_boosters(players, boosters@),
                ),
                (
                    PhaseView::Dequeue(players),
                    BatchChoice::DequeueChoices(dequeue_choices),
                ) => PhaseView::Action(GameView::after_dequeues(players, dequeue_choices@)),
                (PhaseView::Action(players), BatchChoice::Actions(actions)) => {
                    if self.config.ends_game(GameView::totals(players, actions@)) {
                        PhaseView::Final(GameView::after_actions(self.config, players, actions@))
                    } else {
                        PhaseView::Dequeue(GameView::after_actions(self.config, players, actions@))
                    }
                },
                _ => self.phase,
            },
        }
    }

    /// What the game reports of a batch that it accepts.
    pub open spec fn outcome(self, batch: BatchChoice) -> OutcomeView {
        match (self.phase, batch) {
            (PhaseView::Character(players), BatchChoice::Characters(characters)) => {
                if GameView::has_duplicates(characters@) {
                    OutcomeView::CharacterPhaseRechoose(characters@)
                } else {
                    OutcomeView::CharacterPhaseDone(GameView::headstarts(characters@))
                }
            },
            (PhaseView::Booster(players), BatchChoice::Boosters(boosters)) =>
                OutcomeView::BoosterPhaseDone(boosters@),
            (PhaseView::Dequeue(players), BatchChoice::DequeueChoices(dequeue_choices)) =>
                OutcomeView::DequeuePhaseDone(dequeue_choices@),
            (PhaseView::Action(players), BatchChoice::Actions(actions)) => {
                if self.config.ends_game(GameView::totals(players, actions@)) {
                    OutcomeView::GameOver(GameView::scores(self.config, players, actions@))
                } else {
                    OutcomeView::ActionPhaseDone(GameView::scores(self.config, players, actions@))
                }
            },
            _ => arbitrary(),
        }
    }

    /// Whether `winner` tells who has won: once the game is over, the place of
    /// the first player who holds the winning amount; before, nobody.
    pub open spec fn winner_is(self, winner: Option<int>) -> bool {
        match (self.phase, winner) {
            (PhaseView::Final(players), Some(w)) => {
                &&& 0 <= w < players.len()
                &&& players[w].points >= self.config.points_to_win
                &&& forall|i: int|
                    0 <= i < w ==> (#[trigger] players[i]).points < self.config.points_to_win
            },
            (PhaseView::Final(players), None) => forall|i: int|
                0 <= i < players.len() ==> (#[trigger] players[i]).points
                    < self.config.points_to_win,
            (_, Some(_)) => false,
            (_, None) => true,
        }
    }

    /// A game that is over has a winner, who holds the winning amount
    /// exactly; unless that amount is zero, every other player holds less.
    pub proof fn lemma_finished_game_has_one_winner(self)
        requires
            self.wf(),
            self.phase is Final,
        ensures
            exists|w: int|
                {
                    &&& #[trigger] self.winner_is(Some(w))
                    &&& self.phase->Final_0[w].points == self.config.points_to_win
                    &&& self.config.points_to_win >= 1 ==> forall|i: int|
                        0 <= i < self.phase->Final_0.len() && i != w ==> (
                        #[trigger] self.phase->Final_0[i]).points < self.config.points_to_win
                },
    {
        let players = self.phase->Final_0;
        let goal = self.config.points_to_win;
        let some = choose|w: int| 0 <= w < players.len() && (#[trigger] players[w]).points == goal;
        let w = GameView::lemma_first_at_goal(players, goal, some);
        assert(self.winner_is(Some(w)));
        assert(players[w].points <= goal);
    }

    /// The first place at or before `upto` whose player holds `goal` points or
    /// more.
    pub proof fn lemma_first_at_goal(players: Seq<PlayerView>, goal: u8, upto: int) -> (first: int)
        requires
            0 <= upto < players.len(),
            players[upto].points >= goal,
        ensures
            0 <= first <= upto,
            players[first].points >= goal,
            forall|i: int| 0 <= i < first ==> (#[trigger] players[i]).points < goal,
        decreases upto,
    {
        if exists|i: int| 0 <= i < upto && (#[trigger] players[i]).points >= goal {
            let earlier = choose|i: int| 0 <= i < upto && (#[trigger] players[i]).points >= goal;
            GameView::lemma_first_at_goal(players, goal, earlier)
        } else {
            upto
        }
    }

    /// Characters that all differ are at most four.
    pub proof fn lemma_distinct_characters_are_few(characters: Seq<Character>)
        requires
            !GameView::has_duplicates(characters),
        ensures
            characters.len() <= 4,
    {
        if characters.len() >= 5 {
            let a = characters[0];
            let b = characters[1];
            let c = characters[2];
            let d = characters[3];
            let e = characters[4];
            assert(a != b && a != c && a != d && a != e);
            assert(b != c && b != d && b != e);
            assert(c != d && c != e);
            assert(d != e);
            assert(false);
        }
    }

    /// No headstart exceeds the number of characters.
    pub proof fn lemma_headstart_bounded(characters: Seq<Character>, i: int)
        requires
            0 <= i < characters.len(),
        ensures
            0 <= choices::total_points(characters, i) <= characters.len(),
    {
        assert forall|j: int| 0 <= j < characters.len() implies #[trigger] characters[i].spec_points_against(
            &characters[j],
        ) <= 1 by {
            characters[i].lemma_points_at_most_one(characters[j]);
        }
        choices::lemma_total_points_at_most_len(characters, i);
    }

    /// No action gains more points in a round than the round has actions.
    pub proof fn lemma_gain_bounded(actions: Seq<Action>, i: int)
        requires
            0 <= i < actions.len(),
        ensures
            0 <= choices::total_points(actions, i) <= actions.len(),
    {
        assert forall|j: int| 0 <= j < actions.len() implies #[trigger] actions[i].spec_points_against(
            &actions[j],
        ) <= 1 by {
            actions[i].lemma_points_at_most_one(actions[j]);
        }
        choices::lemma_total_points_at_most_len(actions, i);
    }

    /// The numbers of a scored round stay small: at most four players, who
    /// gain at most four points each; a deduction of at most nine points; and
    /// no player left with more points than the winning amount, or the total
    /// of the round where that is less.
    pub proof fn lemma_round_is_bounded(config: Config, players: Seq<PlayerView>, actions: Seq<Action>)
        requires
            GameView::players_wf(config, players),
            actions.len() == players.len(),
        ensures
            players.len() <= 4,
            0 <= config.spec_deduction(GameView::totals(players, actions)) <= 9,
            forall|i: int|
                0 <= i < players.len() ==> {
                    let gain = #[trigger] choices::total_points(actions, i);
                    let total = GameView::totals(players, actions)[i];
                    let deduction = config.spec_deduction(GameView::totals(players, actions));
                    &&& 0 <= gain <= 4
                    &&& total == players[i].points + gain
                    &&& total <= GameView::points_bound(config) + 4
                    &&& players[i].points + (gain - deduction) <= config.points_to_win
                    &&& PlayerView::changed_points(players[i].points, (gain - deduction) as i8)
                        == Config::settled(total, deduction)
                },
    {
        let characters = Seq::new(players.len(), |i: int| players[i].character);
        if GameView::has_duplicates(characters) {
            let (i, j) = choose|i: int, j: int|
                0 <= i < j < characters.len() && #[trigger] characters[i]
                    == #[trigger] characters[j];
            assert(players[i].character == players[j].character);
        }
        GameView::lemma_distinct_characters_are_few(characters);
        let totals = GameView::totals(players, actions);
        let deduction = config.spec_deduction(totals);
        assert forall|i: int| 0 <= i < players.len() implies 0 <= #[trigger] totals[i]
            <= GameView::points_bound(config) + 4 by {
            GameView::lemma_gain_bounded(actions, i);
            assert(players[i].points <= GameView::points_bound(config));
        }
        totals.max_ensures();
        if totals.len() > 0 {
            let at = totals.index_of(totals.max());
            assert(totals[at] == totals.max());
        }
        assert forall|i: int| 0 <= i < players.len() implies {
            let gain = #[trigger] choices::total_points(actions, i);
            let total = totals[i];
            &&& 0 <= gain <= 4
            &&& total == players[i].points + gain
            &&& total <= GameView::points_bound(config) + 4
            &&& players[i].points + (gain - deduction) <= config.points_to_win
            &&& PlayerView::changed_points(players[i].points, (gain - deduction) as i8)
                == Config::settled(total, deduction)
        } by {
            GameView::lemma_gain_bounded(actions, i);
            assert(totals[i] <= totals.max());
        }
    }

    /// Every batch that a game accepts leads to a state that a game can be in.
    pub proof fn lemma_next_is_wf(self, batch: BatchChoice)
        requires
            self.wf(),
            self.accepts(batch),
        ensures
            self.next(batch).wf(),
            self.next(batch).config == self.config,
    {
        match (self.phase, batch) {
            (PhaseView::Character(players), BatchChoice::Characters(characters)) => {
                if !GameView::has_duplicates(characters@) {
                    GameView::lemma_distinct_characters_are_few(characters@);
                    assert forall|i: int| 0 <= i < players.len() implies (#[trigger] GameView::with_characters(
                        players,
                        characters@,
                    )[i]).points <= GameView::points_bound(self.config) by {
                        GameView::lemma_headstart_bounded(characters@, i);
                    }
                }
            },
            (PhaseView::Booster(players), BatchChoice::Boosters(boosters)) => {},
            (PhaseView::Dequeue(players), BatchChoice::DequeueChoices(dequeue_choices)) => {},
            (PhaseView::Action(players), BatchChoice::Actions(actions)) => {
                GameView::lemma_round_is_bounded(self.config, players, actions@);
                let totals = GameView::totals(players, actions@);
                let deduction = self.config.spec_deduction(totals);
                let after = GameView::after_actions(self.config, players, actions@);
                assert forall|i: int| 0 <= i < players.len() implies (#[trigger] after[i]).points
                    == Config::settled(totals[i], deduction) && after[i].game_config
                    == self.config && after[i].character == players[i].character by {
                    let gain = choices::total_points(actions@, i);
                    assert(GameView::scores(self.config, players, actions@)[i].1 == (gain
                        - deduction) as i8);
                }
                if self.config.ends_game(totals) {
                    self.config.lemma_ends_game(totals);
                    totals.max_ensures();
                    let w = totals.index_of(totals.max());
                    assert(after[w].points == self.config.points_to_win);
                    if self.config.points_to_win >= 1 {
                        assert forall|i: int, j: int| 0 <= i < j < after.len() implies !((
                        #[trigger] after[i]).points == self.config.points_to_win && (
                        #[trigger] after[j]).points == self.config.points_to_win) by {
                            if after[i].points == self.config.points_to_win && after[j].points
                                == self.config.points_to_win {
                                assert(totals[i] <= totals.max());
                                assert(totals[j] <= totals.max());
                                Config::lemma_two_leaders(totals, i, j);
                            }
                        }
                    }
                    assert(GameView::has_winner(self.config, after));
                }
                assert(GameView::players_wf(self.config, after));
            },
            _ => {},
        }
    }
}

} // verus!
