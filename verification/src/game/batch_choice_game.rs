use super::{Config, GameView, Phase, PhaseView};
use crate::choices::{
    Action, BatchChoice, BatchChoices, Booster, Character, DequeueChoice, PointsOf,
};
use crate::outcomes::{ActionPointsDestroyed, CharacterHeadstart, Outcome};
use crate::scoreboard::Scoreboard;
use crate::players::{
    ActionlessPlayer, BoosterlessPlayer, CharacterlessPlayer, DequeueChoicelessPlayer,
    FinishedPlayer,
};
use vstd::prelude::*;

verus! {

/// A game that takes the choices of all its players at once.
#[derive(Debug, Clone, PartialEq, Eq)]
pub struct BatchChoiceGame {
    config: Config,
    phase: Phase,
}

impl View for BatchChoiceGame {
    type V = GameView;

    closed spec fn view(&self) -> GameView {
        GameView { config: self.config, phase: self.phase@ }
    }
}

impl BatchChoiceGame {
    /// A new game under the rules of `config`.
    pub fn new(config: Config) -> (game: BatchChoiceGame)
        ensures
            game@ == GameView::initial(config),
            game@.wf(),
    {
        BatchChoiceGame { config, phase: Phase::Character(Self::initial_players(&config)) }
    }

    /// As many players without a character as the rules ask for.
    pub fn initial_players(config: &Config) -> (players: Vec<CharacterlessPlayer>)
        ensures
            GameView::initial(*config).phase == PhaseView::Character(players@),
    {
        let mut players: Vec<CharacterlessPlayer> = Vec::new();
        let mut i: u8 = 0;
        while i < config.player_count
            invariant
                i <= config.player_count,
                players@.len() == i,
                forall|k: int|
                    0 <= k < i ==> players@[k] == (CharacterlessPlayer {
                        game_config: *config,
                        streak: None,
                    }),
            decreases config.player_count - i,
        {
            players.push(CharacterlessPlayer::from_game_config(*config));
            i += 1;
        }
        assert(players@ =~= Seq::new(
            config.player_count as nat,
            |i: int| CharacterlessPlayer { game_config: *config, streak: None },
        ));
        players
    }

    pub fn config(&self) -> (config: &Config)
        ensures
            *config == self@.config,
    {
        &self.config
    }

    /// The phase that the game is in, with its players.
    pub fn phase(&self) -> (phase: &Phase)
        ensures
            phase@ == self@.phase,
    {
        &self.phase
    }

    /// For each player, the choices that the player may make now.
    pub fn choices(&self) -> (choices: BatchChoices)
        ensures
            self@.offers(choices),
    {
        match &self.phase {
            Phase::Character(players) => {
                let mut choices: Vec<Vec<Character>> = Vec::new();
                let mut i: usize = 0;
                while i < players.len()
                    invariant
                        i <= players.len(),
                        choices@.len() == i,
                        forall|k: int|
                            0 <= k < i ==> (#[trigger] choices@[k])@ == players@[k].spec_choices(),
                    decreases players.len() - i,
                {
                    choices.push(players[i].choices());
                    i += 1;
                }
                BatchChoices::Characters(choices)
            },
            Phase::Booster(players) => {
                let mut choices: Vec<Vec<Booster>> = Vec::new();
                let mut i: usize = 0;
                while i < players.len()
                    invariant
                        i <= players.len(),
                        choices@.len() == i,
                        forall|k: int|
                            0 <= k < i ==> (#[trigger] choices@[k])@ == players@[k].spec_choices(),
                    decreases players.len() - i,
                {
                    choices.push(players[i].choices());
                    i += 1;
                }
                BatchChoices::Boosters(choices)
            },
            Phase::Dequeue(players) => {
                let mut choices: Vec<Vec<DequeueChoice>> = Vec::new();
                let mut i: usize = 0;
                while i < players.len()
                    invariant
                        i <= players.len(),
                        choices@.len() == i,
                        forall|k: int|
                            0 <= k < i ==> (#[trigger] choices@[k])@
                                == players@[k]@.dequeue_choices(),
                    decreases players.len() - i,
                {
                    choices.push(players[i].choices());
                    i += 1;
                }
                BatchChoices::DequeueChoices(choices)
            },
            Phase::Action(players) => {
                let mut choices: Vec<Vec<Action>> = Vec::new();
                let mut i: usize = 0;
                while i < players.len()
                    invariant
                        i <= players.len(),
                        choices@.len() == i,
                        forall|k: int|
                            0 <= k < i ==> (#[trigger] choices@[k])@ == players@[k]@.actions(),
                    decreases players.len() - i,
                {
                    choices.push(players[i].choices());
                    i += 1;
                }
                BatchChoices::Actions(choices)
            },
            Phase::Final(_) => BatchChoices::NoChoices,
        }
    }

    /// Whether each player may pick the character that the batch has for it.
    pub fn can_choose_characters(
        players: &Vec<CharacterlessPlayer>,
        characters: &Vec<Character>,
    ) -> (legal: bool)
        ensures
            legal == GameView::legal_characters(players@, characters@),
    {
        if players.len() != characters.len() {
            return false;
        }
        let mut i: usize = 0;
        while i < players.len()
            invariant
                i <= players.len(),
                players.len() == characters.len(),
                forall|k: int|
                    0 <= k < i ==> (#[trigger] players@[k]).spec_choices().contains(characters@[k]),
            decreases players.len() - i,
        {
            if !players[i].can_choose(&characters[i]) {
                return false;
            }
            i += 1;
        }
        true
    }

    /// Whether two of the characters are the same.
    pub fn has_duplicates(characters: &Vec<Character>) -> (duplicates: bool)
        ensures
            duplicates == GameView::has_duplicates(characters@),
    {
        let mut j: usize = 0;
        while j < characters.len()
            invariant
                j <= characters.len(),
                forall|a: int, b: int|
                    0 <= a < b < j ==> #[trigger] characters@[a] != #[trigger] characters@[b],
            decreases characters.len() - j,
        {
            let mut i: usize = 0;
            while i < j
                invariant
                    i <= j < characters.len(),
                    forall|a: int| 0 <= a < i ==> #[trigger] characters@[a] != characters@[j as int],
                decreases j - i,
            {
                if characters[i] == characters[j] {
                    return true;
                }
                i += 1;
            }
            j += 1;
        }
        false
    }

    /// Takes a batch of characters. With duplicates every pick is counted and
    /// the phase stays; without, the phase is completed.
    fn choose_characters(&mut self, characters: Vec<Character>) -> (result: Result<Outcome, ()>)
        requires
            old(self)@.wf(),
            characters@.len() == old(self)@.config.player_count,
        ensures
            final(self)@.wf(),
            match result {
                Ok(outcome) => {
                    &&& old(self)@.accepts(BatchChoice::Characters(characters))
                    &&& final(self)@ == old(self)@.next(BatchChoice::Characters(characters))
                    &&& outcome@ == old(self)@.outcome(BatchChoice::Characters(characters))
                },
                Err(_) => !old(self)@.accepts(BatchChoice::Characters(characters)) && *final(self)
                    == *old(self),
            },
    {
        proof {
            if self@.accepts(BatchChoice::Characters(characters)) {
                self@.lemma_next_is_wf(BatchChoice::Characters(characters));
            }
        }
        match &self.phase {
            Phase::Character(players) => {
                if !Self::can_choose_characters(players, &characters) {
                    Err(())
                } else if Self::has_duplicates(&characters) {
                    let mut picked: Vec<CharacterlessPlayer> = Vec::new();
                    let mut i: usize = 0;
                    while i < players.len()
                        invariant
                            i <= players.len(),
                            GameView::legal_characters(players@, characters@),
                            picked@.len() == i,
                            forall|k: int|
                                0 <= k < i ==> picked@[k] == players@[k].with_pick(characters@[k]),
                        decreases players.len() - i,
                    {
                        let mut player = players[i];
                        assert(players@[i as int].spec_choices().contains(characters@[i as int]));
                        player.add_to_streak(characters[i]);
                        picked.push(player);
                        i += 1;
                    }
                    assert(picked@ =~= GameView::with_picks(players@, characters@));
                    self.phase = Phase::Character(picked);
                    Ok(Outcome::CharacterPhaseRechoose(characters))
                } else {
                    let players = players.clone();
                    Ok(self.complete_character_phase(players, characters))
                }
            },
            _ => Err(()),
        }
    }

    /// Gives each player its character and its headstart, and opens the
    /// booster phase.
    fn complete_character_phase(
        &mut self,
        players: Vec<CharacterlessPlayer>,
        characters: Vec<Character>,
    ) -> (outcome: Outcome)
        requires
            characters@.len() == players@.len(),
            !GameView::has_duplicates(characters@),
        ensures
            final(self).config == old(self).config,
            final(self).phase@ == PhaseView::Booster(
                GameView::with_characters(players@, characters@),
            ),
            outcome@ == crate::outcomes::OutcomeView::CharacterPhaseDone(
                GameView::headstarts(characters@),
            ),
    {
        proof {
            GameView::lemma_distinct_characters_are_few(characters@);
            assert forall|i: int| 0 <= i < characters@.len() implies crate::choices::total_points(
                characters@,
                i,
            ) <= u8::MAX by {
                GameView::lemma_headstart_bounded(characters@, i);
            }
        }
        let headstarts = Character::points_of(characters.as_slice());
        let mut character_headstarts: Vec<CharacterHeadstart> = Vec::new();
        let mut boosterless: Vec<BoosterlessPlayer> = Vec::new();
        let mut i: usize = 0;
        while i < players.len()
            invariant
                i <= players.len(),
                characters@.len() == players@.len(),
                headstarts@.len() == players@.len(),
                forall|k: int|
                    0 <= k < characters@.len() ==> headstarts@[k] == crate::choices::total_points(
                        characters@,
                        k,
                    ),
                character_headstarts@.len() == i,
                boosterless@.len() == i,
                forall|k: int|
                    0 <= k < i ==> character_headstarts@[k] == GameView::headstarts(
                        characters@,
                    )[k],
                forall|k: int|
                    0 <= k < i ==> boosterless@[k] == GameView::with_characters(
                        players@,
                        characters@,
                    )[k],
            decreases players.len() - i,
        {
            let headstart = CharacterHeadstart(characters[i], headstarts[i]);
            character_headstarts.push(headstart);
            boosterless.push(players[i].into_boosterless(headstart));
            i += 1;
        }
        assert(character_headstarts@ =~= GameView::headstarts(characters@));
        assert(boosterless@ =~= GameView::with_characters(players@, characters@));
        self.phase = Phase::Booster(boosterless);
        Outcome::CharacterPhaseDone(character_headstarts)
    }

    /// Whether each player may pick the booster that the batch has for it.
    pub fn can_choose_boosters(players: &Vec<BoosterlessPlayer>, boosters: &Vec<Booster>) -> (legal:
        bool)
        ensures
            legal == GameView::legal_boosters(players@, boosters@),
    {
        if players.len() != boosters.len() {
            return false;
        }
        let mut i: usize = 0;
        while i < players.len()
            invariant
                i <= players.len(),
                players.len() == boosters.len(),
                forall|k: int|
                    0 <= k < i ==> (#[trigger] players@[k]).spec_choices().contains(boosters@[k]),
            decreases players.len() - i,
        {
            if !players[i].can_choose(&boosters[i]) {
                return false;
            }
            i += 1;
        }
        true
    }

    /// Takes a batch of boosters: each player gets its booster, its first
    /// arsenal and a new queue, and the dequeue phase opens.
    fn choose_boosters(&mut self, boosters: Vec<Booster>) -> (result: Result<Outcome, ()>)
        requires
            old(self)@.wf(),
            boosters@.len() == old(self)@.config.player_count,
        ensures
            final(self)@.wf(),
            match result {
                Ok(outcome) => {
                    &&& old(self)@.accepts(BatchChoice::Boosters(boosters))
                    &&& final(self)@ == old(self)@.next(BatchChoice::Boosters(boosters))
                    &&& outcome@ == old(self)@.outcome(BatchChoice::Boosters(boosters))
                },
                Err(_) => !old(self)@.accepts(BatchChoice::Boosters(boosters)) && *final(self)
                    == *old(self),
            },
    {
        proof {
            if self@.accepts(BatchChoice::Boosters(boosters)) {
                self@.lemma_next_is_wf(BatchChoice::Boosters(boosters));
            }
        }
        match &self.phase {
            Phase::Booster(players) => {
                if !Self::can_choose_boosters(players, &boosters) {
                    Err(())
                } else {
                    let mut armed: Vec<DequeueChoicelessPlayer> = Vec::new();
                    let mut i: usize = 0;
                    while i < players.len()
                        invariant
                            i <= players.len(),
                            boosters@.len() == players@.len(),
                            armed@.len() == i,
                            forall|k: int|
                                0 <= k < i ==> (#[trigger] armed@[k])@ == GameView::with_boosters(
                                    players@,
                                    boosters@,
                                )[k],
                        decreases players.len() - i,
                    {
                        armed.push(players[i].into_dequeue_choiceless(boosters[i]));
                        i += 1;
                    }
                    assert(DequeueChoicelessPlayer::views(armed@) =~= GameView::with_boosters(
                        players@,
                        boosters@,
                    ));
                    self.phase = Phase::Dequeue(armed);
                    Ok(Outcome::BoosterPhaseDone(boosters))
                }
            },
            _ => Err(()),
        }
    }

    /// Whether each player may make the dequeue choice that the batch has for
    /// it.
    pub fn can_choose_dequeue_choices(
        players: &Vec<DequeueChoicelessPlayer>,
        dequeue_choices: &Vec<DequeueChoice>,
    ) -> (legal: bool)
        ensures
            legal == GameView::legal_dequeue_choices(
                DequeueChoicelessPlayer::views(players@),
                dequeue_choices@,
            ),
    {
        if players.len() != dequeue_choices.len() {
            return false;
        }
        let ghost views = DequeueChoicelessPlayer::views(players@);
        let mut i: usize = 0;
        while i < players.len()
            invariant
                i <= players.len(),
                players.len() == dequeue_choices.len(),
                views == DequeueChoicelessPlayer::views(players@),
                forall|k: int|
                    0 <= k < i ==> (#[trigger] views[k]).dequeue_choices().contains(
                        dequeue_choices@[k],
                    ),
            decreases players.len() - i,
        {
            assert(views[i as int] == players@[i as int]@);
            if !players[i].can_choose(&dequeue_choices[i]) {
                return false;
            }
            i += 1;
        }
        true
    }

    /// Takes a batch of dequeue choices: each queue follows its player's
    /// choice, and the action phase opens.
    fn choose_dequeue_choices(&mut self, dequeue_choices: Vec<DequeueChoice>) -> (result: Result<
        Outcome,
        (),
    >)
        requires
            old(self)@.wf(),
            dequeue_choices@.len() == old(self)@.config.player_count,
        ensures
            final(self)@.wf(),
            match result {
                Ok(outcome) => {
                    &&& old(self)@.accepts(BatchChoice::DequeueChoices(dequeue_choices))
                    &&& final(self)@ == old(self)@.next(BatchChoice::DequeueChoices(dequeue_choices))
                    &&& outcome@ == old(self)@.outcome(BatchChoice::DequeueChoices(dequeue_choices))
                },
                Err(_) => !old(self)@.accepts(BatchChoice::DequeueChoices(dequeue_choices))
                    && *final(self) == *old(self),
            },
    {
        proof {
            if self@.accepts(BatchChoice::DequeueChoices(dequeue_choices)) {
                self@.lemma_next_is_wf(BatchChoice::DequeueChoices(dequeue_choices));
            }
        }
        let legal = match &self.phase {
            Phase::Dequeue(players) => Self::can_choose_dequeue_choices(players, &dequeue_choices),
            _ => false,
        };
        if !legal {
            return Err(());
        }
        let mut phase = Phase::Final(Vec::new());
        core::mem::swap(&mut self.phase, &mut phase);
        match phase {
            Phase::Dequeue(players) => {
                let ghost before = DequeueChoicelessPlayer::views(players@);
                let mut ready: Vec<ActionlessPlayer> = Vec::new();
                for player in it: players
                    invariant
                        dequeue_choices@.len() == before.len(),
                        it.seq().len() == before.len(),
                        forall|k: int| 0 <= k < before.len() ==> (#[trigger] it.seq()[k])@ == before[k],
                        GameView::legal_dequeue_choices(before, dequeue_choices@),
                        ready@.len() == it.index(),
                        forall|k: int|
                            0 <= k < ready@.len() ==> (#[trigger] ready@[k])@
                                == GameView::after_dequeues(before, dequeue_choices@)[k],
                {
                    let i = ready.len();
                    proof {
                        before[i as int].lemma_legal_drain(dequeue_choices@[i as int]);
                    }
                    ready.push(player.into_actionless(dequeue_choices[i]));
                }
                assert(ActionlessPlayer::views(ready@) =~= GameView::after_dequeues(
                    before,
                    dequeue_choices@,
                ));
                self.phase = Phase::Action(ready);
                Ok(Outcome::DequeuePhaseDone(dequeue_choices))
            },
            _ => vstd::pervasive::unreached(),
        }
    }

    /// Whether each player may take the action that the batch has for it.
    pub fn can_choose_actions(players: &Vec<ActionlessPlayer>, actions: &Vec<Action>) -> (legal:
        bool)
        ensures
            legal == GameView::legal_actions(ActionlessPlayer::views(players@), actions@),
    {
        if players.len() != actions.len() {
            return false;
        }
        let ghost views = ActionlessPlayer::views(players@);
        let mut i: usize = 0;
        while i < players.len()
            invariant
                i <= players.len(),
                players.len() == actions.len(),
                views == ActionlessPlayer::views(players@),
                forall|k: int| 0 <= k < i ==> (#[trigger] views[k]).actions().contains(actions@[k]),
            decreases players.len() - i,
        {
            assert(views[i as int] == players@[i as int]@);
            if !players[i].can_choose(&actions[i]) {
                return false;
            }
            i += 1;
        }
        true
    }

    /// For each player, the action with the change that the round makes to
    /// the player's points and whether the item spent is lost; and whether the
    /// round ends the game.
    pub fn score(config: &Config, players: &Vec<ActionlessPlayer>, actions: &Vec<Action>) -> (scored:
        (Vec<ActionPointsDestroyed>, bool))
        requires
            GameView::players_wf(*config, ActionlessPlayer::views(players@)),
            actions@.len() == players@.len(),
        ensures
            scored.0@ == GameView::scores(*config, ActionlessPlayer::views(players@), actions@),
            scored.1 == config.ends_game(
                GameView::totals(ActionlessPlayer::views(players@), actions@),
            ),
    {
        let ghost views = ActionlessPlayer::views(players@);
        let ghost totals_spec = GameView::totals(views, actions@);
        proof {
            GameView::lemma_round_is_bounded(*config, views, actions@);
            assert forall|i: int| 0 <= i < actions@.len() implies crate::choices::total_points(
                actions@,
                i,
            ) <= u8::MAX by {
                assert(0 <= crate::choices::total_points(actions@, i) <= 4);
            }
        }
        let points_gained = Action::points_of(actions.as_slice());
        let destroyed = Action::which_destroyed(actions.as_slice());
        let mut totals: Vec<u16> = Vec::new();
        let mut i: usize = 0;
        while i < players.len()
            invariant
                i <= players.len(),
                actions@.len() == players@.len(),
                points_gained@.len() == players@.len(),
                views == ActionlessPlayer::views(players@),
                totals_spec == GameView::totals(views, actions@),
                forall|k: int|
                    0 <= k < actions@.len() ==> points_gained@[k] == crate::choices::total_points(
                        actions@,
                        k,
                    ),
                totals@.len() == i,
                forall|k: int| 0 <= k < i ==> totals@[k] == totals_spec[k],
            decreases players.len() - i,
        {
            assert(views[i as int] == players@[i as int]@);
            totals.push(players[i].points() as u16 + points_gained[i] as u16);
            i += 1;
        }
        assert(super::config::ints_of_u16(totals@) =~= totals_spec);
        proof {
            assert forall|k: int| 0 <= k < totals@.len() implies totals@[k] < u16::MAX by {
                assert(totals@[k] == totals_spec[k]);
                assert(0 <= crate::choices::total_points(actions@, k) <= 4);
            }
        }
        let deduction = config.deduction(&totals);
        let mut scores: Vec<ActionPointsDestroyed> = Vec::new();
        let mut ends = false;
        let mut j: usize = 0;
        while j < players.len()
            invariant
                j <= players.len(),
                actions@.len() == players@.len(),
                points_gained@.len() == players@.len(),
                destroyed@.len() == players@.len(),
                totals@.len() == players@.len(),
                views == ActionlessPlayer::views(players@),
                totals_spec == GameView::totals(views, actions@),
                deduction == config.spec_deduction(totals_spec),
                0 <= deduction <= 9,
                forall|k: int|
                    0 <= k < actions@.len() ==> points_gained@[k] == crate::choices::total_points(
                        actions@,
                        k,
                    ) && points_gained@[k] <= 4,
                forall|k: int|
                    0 <= k < actions@.len() ==> destroyed@[k] == Action::spec_destroyed(actions@, k),
                forall|k: int| 0 <= k < totals@.len() ==> totals@[k] == totals_spec[k],
                scores@.len() == j,
                forall|k: int|
                    0 <= k < j ==> scores@[k] == GameView::scores(*config, views, actions@)[k],
                ends == exists|k: int|
                    0 <= k < j && #[trigger] totals_spec[k] - deduction == config.points_to_win,
            decreases players.len() - j,
        {
            let change = (points_gained[j] as i16 - deduction as i16) as i8;
            scores.push(ActionPointsDestroyed(actions[j], change, destroyed[j]));
            let wins = totals[j] as i32 - deduction as i32 == config.points_to_win as i32;
            proof {
                assert(totals@[j as int] == totals_spec[j as int]);
                if ends {
                    let k = choose|k: int|
                        0 <= k < j && #[trigger] totals_spec[k] - deduction
                            == config.points_to_win;
                    assert(0 <= k < j + 1 && totals_spec[k] - deduction == config.points_to_win);
                }
                if wins {
                    assert(totals_spec[j as int] - deduction == config.points_to_win);
                }
            }
            if wins {
                ends = true;
            }
            j += 1;
        }
        assert(scores@ =~= GameView::scores(*config, views, actions@));
        (scores, ends)
    }

    /// Takes a batch of actions: the round is scored, each player spends its
    /// item, and the game ends or goes back to the dequeue phase.
    fn choose_actions(&mut self, actions: Vec<Action>) -> (result: Result<Outcome, ()>)
        requires
            old(self)@.wf(),
            actions@.len() == old(self)@.config.player_count,
        ensures
            final(self)@.wf(),
            match result {
                Ok(outcome) => {
                    &&& old(self)@.accepts(BatchChoice::Actions(actions))
                    &&& final(self)@ == old(self)@.next(BatchChoice::Actions(actions))
                    &&& outcome@ == old(self)@.outcome(BatchChoice::Actions(actions))
                },
                Err(_) => !old(self)@.accepts(BatchChoice::Actions(actions)) && *final(self)
                    == *old(self),
            },
    {
        proof {
            if self@.accepts(BatchChoice::Actions(actions)) {
                self@.lemma_next_is_wf(BatchChoice::Actions(actions));
            }
        }
        let scored = match &self.phase {
            Phase::Action(players) => {
                if Self::can_choose_actions(players, &actions) {
                    Some(Self::score(&self.config, players, &actions))
                } else {
                    None
                }
            },
            _ => None,
        };
        let (scores, ends) = match scored {
            Some(scored) => scored,
            None => {
                return Err(());
            },
        };
        let mut phase = Phase::Final(Vec::new());
        core::mem::swap(&mut self.phase, &mut phase);
        match phase {
            Phase::Action(players) => {
                let ghost before = ActionlessPlayer::views(players@);
                let ghost after = GameView::after_actions(self.config, before, actions@);
                proof {
                    GameView::lemma_round_is_bounded(self.config, before, actions@);
                    assert forall|k: int| 0 <= k < before.len() implies before[k].points + (
                    #[trigger] scores@[k]).1 <= u8::MAX by {
                        let gain = crate::choices::total_points(actions@, k);
                        assert(0 <= gain <= 4);
                    }
                }
                if ends {
                    let mut finished: Vec<FinishedPlayer> = Vec::new();
                    for player in it: players
                        invariant
                            scores@.len() == before.len(),
                            it.seq().len() == before.len(),
                            forall|k: int|
                                0 <= k < before.len() ==> (#[trigger] it.seq()[k])@ == before[k],
                            forall|k: int|
                                0 <= k < before.len() ==> before[k].points + (
                                #[trigger] scores@[k]).1 <= u8::MAX,
                            forall|k: int|
                                0 <= k < before.len() ==> after[k] == before[k].after_action(
                                    (#[trigger] scores@[k]).0,
                                    scores@[k].1,
                                    scores@[k].2,
                                ),
                            finished@.len() == it.index(),
                            forall|k: int|
                                0 <= k < finished@.len() ==> (#[trigger] finished@[k])@ == after[k],
                    {
                        let i = finished.len();
                        finished.push(player.into_finished(scores[i]));
                    }
                    assert(FinishedPlayer::views(finished@) =~= after);
                    self.phase = Phase::Final(finished);
                    Ok(Outcome::GameOver(scores))
                } else {
                    let mut dequeueing: Vec<DequeueChoicelessPlayer> = Vec::new();
                    for player in it: players
                        invariant
                            scores@.len() == before.len(),
                            it.seq().len() == before.len(),
                            forall|k: int|
                                0 <= k < before.len() ==> (#[trigger] it.seq()[k])@ == before[k],
                            forall|k: int|
                                0 <= k < before.len() ==> before[k].points + (
                                #[trigger] scores@[k]).1 <= u8::MAX,
                            forall|k: int|
                                0 <= k < before.len() ==> after[k] == before[k].after_action(
                                    (#[trigger] scores@[k]).0,
                                    scores@[k].1,
                                    scores@[k].2,
                                ),
                            dequeueing@.len() == it.index(),
                            forall|k: int|
                                0 <= k < dequeueing@.len() ==> (#[trigger] dequeueing@[k])@
                                    == after[k],
                    {
                        let i = dequeueing.len();
                        dequeueing.push(player.into_dequeue_choiceless(scores[i]));
                    }
                    assert(DequeueChoicelessPlayer::views(dequeueing@) =~= after);
                    self.phase = Phase::Dequeue(dequeueing);
                    Ok(Outcome::ActionPhaseDone(scores))
                }
            },
            _ => vstd::pervasive::unreached(),
        }
    }

    /// Takes one choice for each player. A batch that the game does not
    /// accept is an error and changes nothing.
    pub fn make_choice(&mut self, choices: BatchChoice) -> (result: Result<Outcome, ()>)
        requires
            old(self)@.wf(),
        ensures
            final(self)@.wf(),
            match result {
                Ok(outcome) => {
                    &&& old(self)@.accepts(choices)
                    &&& final(self)@ == old(self)@.next(choices)
                    &&& outcome@ == old(self)@.outcome(choices)
                },
                Err(_) => !old(self)@.accepts(choices) && *final(self) == *old(self),
            },
    {
        if self.config.player_count as usize != choices.len() {
            Err(())
        } else {
            match choices {
                BatchChoice::Characters(characters) => self.choose_characters(characters),
                BatchChoice::Boosters(boosters) => self.choose_boosters(boosters),
                BatchChoice::DequeueChoices(dequeue_choices) => self.choose_dequeue_choices(
                    dequeue_choices,
                ),
                BatchChoice::Actions(actions) => self.choose_actions(actions),
            }
        }
    }

    /// What may be shown of the game to everyone.
    pub fn scoreboard(&self) -> (scoreboard: Scoreboard)
        ensures
            scoreboard.shows(self@.phase),
    {
        Scoreboard::of(&self.phase)
    }

    /// The place of the first player who holds the winning amount, once the
    /// game is over.
    pub fn winner_index(&self) -> (winner: Option<usize>)
        ensures
            self@.winner_is(
                match winner {
                    Some(w) => Some(w as int),
                    None => None,
                },
            ),
    {
        match &self.phase {
            Phase::Final(players) => {
                let ghost views = FinishedPlayer::views(players@);
                let mut i: usize = 0;
                while i < players.len()
                    invariant
                        i <= players.len(),
                        views == FinishedPlayer::views(players@),
                        self@.phase == PhaseView::Final(views),
                        forall|k: int|
                            0 <= k < i ==> (#[trigger] views[k]).points < self.config.points_to_win,
                    decreases players.len() - i,
                {
                    assert(views[i as int] == players@[i as int]@);
                    if players[i].points() >= self.config.points_to_win {
                        return Some(i);
                    }
                    i += 1;
                }
                None
            },
            _ => None,
        }
    }
}

impl Default for BatchChoiceGame {
    fn default() -> (game: BatchChoiceGame)
        ensures
            game@ == GameView::initial(Config::standard()),
            game@.wf(),
    {
        BatchChoiceGame::new(Config::default())
    }
}

} // verus!
