use super::{DequeueChoicelessPlayer, FinishedPlayer, PlayerView};
use crate::choices::{Action, ArsenalItem, Booster, Character};
use crate::counters::Queue;
use crate::game::Config;
use crate::outcomes::ActionPointsDestroyed;
use vstd::prelude::*;

verus! {

/// A player who has yet to act this round.
#[derive(Debug, Clone, PartialEq, Eq)]
pub struct ActionlessPlayer {
    pub game_config: Config,
    pub points: u8,
    pub character: Character,
    pub booster: Booster,
    pub arsenal: Vec<ArsenalItem>,
    pub queue: Queue,
}

impl View for ActionlessPlayer {
    type V = PlayerView;

    open spec fn view(&self) -> PlayerView {
        PlayerView {
            game_config: self.game_config,
            points: self.points,
            character: self.character,
            booster: self.booster,
            arsenal: self.arsenal@,
            queue: self.queue@,
        }
    }
}

impl ActionlessPlayer {
    /// The players of a list as plain values.
    pub open spec fn views(players: Seq<ActionlessPlayer>) -> Seq<PlayerView> {
        players.map_values(|player: ActionlessPlayer| player@)
    }

    pub fn points(&self) -> (points: u8)
        ensures
            points == self@.points,
    {
        self.points
    }

    /// The actions open to the player.
    pub fn choices(&self) -> (actions: Vec<Action>)
        ensures
            actions@ == self@.actions(),
    {
        let mut has_mirror = false;
        let mut actions: Vec<Action> = Vec::new();
        let mut i: usize = 0;
        assert(self.arsenal@.take(0) =~= Seq::<ArsenalItem>::empty());
        while i < self.arsenal.len()
            invariant
                i <= self.arsenal.len(),
                has_mirror == self.arsenal@.take(i as int).contains(ArsenalItem::Mirror),
                actions@ == self.arsenal@.take(i as int).filter_map(
                    |item: ArsenalItem| item.spec_as_move_action(),
                ),
            decreases self.arsenal.len() - i,
        {
            proof {
                self.arsenal@.lemma_filter_map_take_succ(
                    |item: ArsenalItem| item.spec_as_move_action(),
                    i as int,
                );
                let before = self.arsenal@.take(i as int);
                let after = self.arsenal@.take(i as int + 1);
                assert(after =~= before.push(self.arsenal@[i as int]));
                if before.contains(ArsenalItem::Mirror) {
                    let k = before.index_of(ArsenalItem::Mirror);
                    assert(after[k] == ArsenalItem::Mirror);
                }
                if self.arsenal@[i as int] == ArsenalItem::Mirror {
                    assert(after[i as int] == ArsenalItem::Mirror);
                }
            }
            match self.arsenal[i].as_move_action() {
                Some(action) => {
                    actions.push(action);
                },
                None => {
                    has_mirror = true;
                },
            }
            i += 1;
        }
        assert(self.arsenal@.take(i as int) =~= self.arsenal@);
        if has_mirror {
            let pool = self.queue.pool();
            let ghost moves = actions@;
            let mut j: usize = 0;
            assert(pool@.take(0) =~= Seq::<ArsenalItem>::empty());
            while j < pool.len()
                invariant
                    j <= pool.len(),
                    actions@ == moves + pool@.take(j as int).filter_map(
                        |item: ArsenalItem| item.spec_as_mirror_action(),
                    ),
                decreases pool.len() - j,
            {
                proof {
                    pool@.lemma_filter_map_take_succ(
                        |item: ArsenalItem| item.spec_as_mirror_action(),
                        j as int,
                    );
                }
                match pool[j].as_mirror_action() {
                    Some(action) => {
                        actions.push(action);
                    },
                    None => {},
                }
                j += 1;
            }
            assert(pool@.take(j as int) =~= pool@);
        }
        assert(actions@ =~= self@.move_actions() + self@.mirror_actions());
        if actions.len() == 0 {
            actions.push(Action::Concede);
        }
        actions
    }

    /// Whether `action` is open to the player.
    pub fn can_choose(&self, action: &Action) -> (legal: bool)
        ensures
            legal == self@.actions().contains(*action),
    {
        let choices = self.choices();
        let mut i: usize = 0;
        while i < choices.len()
            invariant
                i <= choices.len(),
                choices@ == self@.actions(),
                forall|k: int| 0 <= k < i ==> choices@[k] != *action,
            decreases choices.len() - i,
        {
            if choices[i] == *action {
                return true;
            }
            i += 1;
        }
        false
    }

    /// Spends the item of `action`: it leaves the arsenal, and the queue takes
    /// it in unless the item is lost.
    pub fn use_action(&mut self, action: Action, action_destroyed: bool)
        ensures
            final(self)@ == old(self)@.after_use(action, action_destroyed),
    {
        let arsenal_item = action.into_opt_arsenal_item();
        if let Some(item) = arsenal_item {
            let mut kept: Vec<ArsenalItem> = Vec::new();
            let mut i: usize = 0;
            while i < self.arsenal.len()
                invariant
                    i <= self.arsenal.len(),
                    *self == *old(self),
                    kept@ == self.arsenal@.take(i as int).filter(|held: ArsenalItem| held != item),
                decreases self.arsenal.len() - i,
            {
                let held = self.arsenal[i];
                proof {
                    assert(self.arsenal@.take(i as int + 1) =~= self.arsenal@.take(i as int).push(
                        held,
                    ));
                    self.arsenal@.take(i as int).lemma_filter_push(
                        held,
                        |held: ArsenalItem| held != item,
                    );
                }
                if held != item {
                    kept.push(held);
                }
                i += 1;
            }
            assert(self.arsenal@.take(i as int) =~= self.arsenal@);
            self.arsenal = kept;
        }
        if !action_destroyed {
            self.queue.enqueue(arsenal_item);
        }
    }

    /// Changes the points by `points`; they do not go below zero.
    pub fn add_points(&mut self, points: i8)
        requires
            old(self).points + points <= u8::MAX,
        ensures
            final(self).points == PlayerView::changed_points(old(self).points, points),
            final(self)@ == (PlayerView { points: final(self).points, ..old(self)@ }),
    {
        let new_points: i16 = self.points as i16 + points as i16;
        self.points = if new_points < 0 {
            0
        } else {
            new_points as u8
        };
    }

    /// The player after a scored round that did not end the game.
    pub fn into_dequeue_choiceless(self, outcome: ActionPointsDestroyed) -> (player:
        DequeueChoicelessPlayer)
        requires
            self.points + outcome.1 <= u8::MAX,
        ensures
            player@ == self@.after_action(outcome.0, outcome.1, outcome.2),
    {
        let mut acted = self;
        acted.use_action(outcome.0, outcome.2);
        acted.add_points(outcome.1);
        DequeueChoicelessPlayer {
            game_config: acted.game_config,
            points: acted.points,
            character: acted.character,
            booster: acted.booster,
            arsenal: acted.arsenal,
            queue: acted.queue,
        }
    }

    /// The player after the scored round that ended the game.
    pub fn into_finished(self, outcome: ActionPointsDestroyed) -> (player: FinishedPlayer)
        requires
            self.points + outcome.1 <= u8::MAX,
        ensures
            player@ == self@.after_action(outcome.0, outcome.1, outcome.2),
    {
        let mut acted = self;
        acted.use_action(outcome.0, outcome.2);
        acted.add_points(outcome.1);
        FinishedPlayer {
            game_config: acted.game_config,
            points: acted.points,
            character: acted.character,
            booster: acted.booster,
            arsenal: acted.arsenal,
            queue: acted.queue,
        }
    }
}

} // verus!
