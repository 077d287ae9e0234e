use nzsc::choices::{ArsenalItem, BatchChoice, Booster, Character, DequeueChoice, Move};
use nzsc::game::{BatchChoiceGame, Config};
use nzsc::scoreboard::{BoosterlessPlayer, DequeueingPlayer, Queue, Scoreboard};

#[test]
fn characterless_returns_some_if_variant_is_characterless() {
    let scoreboard = Scoreboard::Characterless(vec![]);
    assert!(scoreboard.characterless().is_some());
}

#[test]
fn characterless_returns_none_if_variant_is_not_characterless() {
    let scoreboard = Scoreboard::Boosterless(vec![]);
    assert!(scoreboard.characterless().is_none());
}

#[test]
fn boosterless_returns_some_if_variant_is_boosterless() {
    let scoreboard = Scoreboard::Boosterless(vec![]);
    assert!(scoreboard.boosterless().is_some());
}

#[test]
fn boosterless_returns_none_if_variant_is_not_boosterless() {
    let scoreboard = Scoreboard::Characterless(vec![]);
    assert!(scoreboard.boosterless().is_none());
}

#[test]
fn dequeueing_returns_some_if_variant_is_dequeueing() {
    let scoreboard = Scoreboard::Dequeueing(vec![]);
    assert!(scoreboard.dequeueing().is_some());
}

#[test]
fn dequeueing_returns_none_if_variant_is_not_dequeueing() {
    let scoreboard = Scoreboard::Actionless(vec![]);
    assert!(scoreboard.dequeueing().is_none());
}

#[test]
fn actionless_returns_some_if_variant_is_actionless() {
    let scoreboard = Scoreboard::Actionless(vec![]);
    assert!(scoreboard.actionless().is_some());
}

#[test]
fn actionless_returns_none_if_variant_is_not_actionless() {
    let scoreboard = Scoreboard::Final(vec![]);
    assert!(scoreboard.actionless().is_none());
}

#[test]
fn final_returns_some_if_variant_is_actionless() {
    let scoreboard = Scoreboard::Final(vec![]);
    assert!(scoreboard.final_().is_some());
}

#[test]
fn final_returns_none_if_variant_is_not_actionless() {
    let scoreboard = Scoreboard::Dequeueing(vec![]);
    assert!(scoreboard.final_().is_none());
}

#[test]
fn the_scoreboard_follows_the_game() {
    let mut game = BatchChoiceGame::new(Config::default());
    let shown = game.scoreboard().characterless().unwrap();
    assert_eq!(shown.len(), 2);
    assert_eq!(shown[0].streak, None);

    game.make_choice(BatchChoice::Characters(vec![
        Character::Ninja,
        Character::Samurai,
    ]))
    .unwrap();
    assert_eq!(
        game.scoreboard(),
        Scoreboard::Boosterless(vec![
            BoosterlessPlayer {
                points: 1,
                character: Character::Ninja
            },
            BoosterlessPlayer {
                points: 0,
                character: Character::Samurai
            },
        ])
    );

    game.make_choice(BatchChoice::Boosters(vec![Booster::Shadow, Booster::Strong]))
        .unwrap();
    let shown = game.scoreboard().dequeueing().unwrap();
    assert_eq!(
        shown[1],
        DequeueingPlayer {
            points: 0,
            character: Character::Samurai,
            booster: Booster::Strong,
            arsenal: vec![
                ArsenalItem::Move(Move::SamuraiSword),
                ArsenalItem::Move(Move::Helmet),
                ArsenalItem::Move(Move::Twist),
                ArsenalItem::Move(Move::Bend),
                ArsenalItem::Move(Move::StrongSmash),
            ],
            queue: Queue {
                entrance: None,
                pool: vec![ArsenalItem::Mirror],
                exit: None
            },
        }
    );

    game.make_choice(BatchChoice::DequeueChoices(vec![
        DequeueChoice::DrainAndExit(ArsenalItem::Mirror),
        DequeueChoice::Decline,
    ]))
    .unwrap();
    let shown = game.scoreboard().actionless().unwrap();
    assert_eq!(shown[0].queue.exit, Some(ArsenalItem::Mirror));
    assert_eq!(shown[0].queue.pool, vec![]);
    assert_eq!(shown[1].queue.pool, vec![ArsenalItem::Mirror]);
}

#[test]
fn a_phase_turns_into_its_scoreboard() {
    let mut game = BatchChoiceGame::new(Config::default());
    game.make_choice(BatchChoice::Characters(vec![
        Character::Clown,
        Character::Clown,
    ]))
    .unwrap();
    let scoreboard: Scoreboard = game.phase().clone().into();
    assert_eq!(scoreboard, game.scoreboard());
    let shown = scoreboard.characterless().unwrap();
    assert_eq!(shown.len(), 2);
    assert_eq!(shown[0].streak.unwrap().character, Character::Clown);
    assert_eq!(shown[0].streak.unwrap().times, 1);
}
