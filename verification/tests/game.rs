use nzsc::choices::{
    Action, ArsenalItem, BatchChoice, BatchChoices, Booster, Character, DequeueChoice, Move,
};
use nzsc::game::{BatchChoiceGame, Config, Phase};
use nzsc::outcomes::{ActionPointsDestroyed, CharacterHeadstart, Outcome};

#[test]
fn batch_choice_game_game_new_works() {
    let _game = BatchChoiceGame::default();
}

#[test]
fn batch_choice_game_initial_players_returns_the_correct_amount_of_players() {
    let config = Config::default();
    assert_eq!(
        config.player_count as usize,
        BatchChoiceGame::initial_players(&config).len()
    );
}

#[test]
fn config_works() {
    let config = Config::default();
    let game = BatchChoiceGame::new(config.clone());
    assert_eq!(config, *game.config());
}

#[test]
fn batch_choice_game_all_players_can_initially_choose_any_character() {
    let game = BatchChoiceGame::default();
    assert_eq!(
        BatchChoices::Characters(vec![Character::all(), Character::all()]),
        game.choices()
    );
}

#[test]
fn batch_choice_game_players_cannot_choose_character_twice() {
    let mut game = BatchChoiceGame::default();
    let ninja_samurai = vec![Character::Ninja, Character::Samurai];

    game.make_choice(BatchChoice::Characters(ninja_samurai.clone()))
        .unwrap();
    assert_eq!(
        Err(()),
        game.make_choice(BatchChoice::Characters(ninja_samurai))
    );
}

#[test]
fn batch_choice_game_players_cannot_choose_character_they_repeated_maximum_times() {
    let mut game = BatchChoiceGame::new(Config {
        player_count: 4,
        ..Config::default()
    });

    let choices = vec![
        BatchChoice::Characters(vec![
            Character::Ninja,
            Character::Ninja,
            Character::Samurai,
            Character::Ninja,
        ]),
        BatchChoice::Characters(vec![
            Character::Ninja,
            Character::Ninja,
            Character::Samurai,
            Character::Zombie,
        ]),
        BatchChoice::Characters(vec![
            Character::Ninja,
            Character::Ninja,
            Character::Samurai,
            Character::Samurai,
        ]),
    ];

    for choice in choices {
        game.make_choice(choice).unwrap();
    }

    let illegal_choice = BatchChoice::Characters(vec![
        Character::Ninja,
        Character::Ninja,
        Character::Samurai,
        Character::Samurai,
    ]);
    assert_eq!(Err(()), game.make_choice(illegal_choice));

    let mut no_ninja = Character::all();
    no_ninja.retain(|c| c != &Character::Ninja);
    let mut no_samurai = Character::all();
    no_samurai.retain(|c| c != &Character::Samurai);
    assert_eq!(
        BatchChoices::Characters(vec![
            no_ninja.clone(),
            no_ninja,
            no_samurai,
            Character::all()
        ]),
        game.choices()
    );
}

#[test]
fn batch_choice_game_all_players_must_rechoose_if_duplicate_characters_chosen() {
    let mut game = BatchChoiceGame::default();
    let ninja_ninja = vec![Character::Ninja, Character::Ninja];
    assert_eq!(
        Ok(Outcome::CharacterPhaseRechoose(ninja_ninja.clone())),
        game.make_choice(BatchChoice::Characters(ninja_ninja))
    );
}

#[test]
fn batch_choice_game_character_phase_ends_if_all_players_choose_legal_characters() {
    let mut game = BatchChoiceGame::default();
    let ninja_samurai = vec![Character::Ninja, Character::Samurai];
    assert_eq!(
        Ok(Outcome::CharacterPhaseDone(
            ninja_samurai
                .iter()
                .zip(vec![1, 0])
                .map(|(character, headstart)| CharacterHeadstart(*character, headstart))
                .collect()
        )),
        game.make_choice(BatchChoice::Characters(ninja_samurai))
    );
}

#[test]
fn batch_choice_game_fails_if_any_booster_is_illegal() {
    let mut game = BatchChoiceGame::default();
    let ninja_samurai = BatchChoice::Characters(vec![Character::Ninja, Character::Samurai]);
    let strong_atlas = BatchChoice::Boosters(vec![Booster::Strong, Booster::Atlas]);

    game.make_choice(ninja_samurai).unwrap();
    assert!(game.make_choice(strong_atlas).is_err());
}

#[test]
fn batch_choice_game_players_cannot_choose_boosters_twice() {
    let mut game = BatchChoiceGame::default();
    let ninja_samurai = BatchChoice::Characters(vec![Character::Ninja, Character::Samurai]);
    let shadow_atlas = BatchChoice::Boosters(vec![Booster::Shadow, Booster::Atlas]);

    game.make_choice(ninja_samurai).unwrap();
    game.make_choice(shadow_atlas.clone()).unwrap();
    assert!(game.make_choice(shadow_atlas).is_err());
}

#[test]
fn batch_choice_game_booster_phase_ends_if_all_boosters_are_legal() {
    let mut game = BatchChoiceGame::default();
    let ninja_samurai = BatchChoice::Characters(vec![Character::Ninja, Character::Samurai]);
    let shadow_atlas = BatchChoice::Boosters(vec![Booster::Shadow, Booster::Atlas]);

    game.make_choice(ninja_samurai).unwrap();
    assert_eq!(
        Ok(Outcome::BoosterPhaseDone(vec![
            Booster::Shadow,
            Booster::Atlas
        ])),
        game.make_choice(shadow_atlas)
    );
}

#[test]
fn batch_choice_game_players_can_initally_drain_mirror() {
    let mut game = BatchChoiceGame::default();
    let ninja_samurai = BatchChoice::Characters(vec![Character::Ninja, Character::Samurai]);
    let shadow_atlas = BatchChoice::Boosters(vec![Booster::Shadow, Booster::Atlas]);
    let mirror_mirror = BatchChoice::DequeueChoices(vec![
        DequeueChoice::DrainAndExit(ArsenalItem::Mirror),
        DequeueChoice::DrainAndExit(ArsenalItem::Mirror),
    ]);

    game.make_choice(ninja_samurai).unwrap();
    game.make_choice(shadow_atlas).unwrap();
    assert_eq!(
        Ok(Outcome::DequeuePhaseDone(vec![
            DequeueChoice::DrainAndExit(ArsenalItem::Mirror),
            DequeueChoice::DrainAndExit(ArsenalItem::Mirror),
        ])),
        game.make_choice(mirror_mirror)
    );
}

#[test]
fn batch_choice_game_shadow_can_initially_choose_shadow_fireball() {
    let mut game = BatchChoiceGame::default();
    let ninja_samurai = BatchChoice::Characters(vec![Character::Ninja, Character::Samurai]);
    let shadow_atlas = BatchChoice::Boosters(vec![Booster::Shadow, Booster::Atlas]);
    let mirror_mirror = BatchChoice::DequeueChoices(vec![
        DequeueChoice::DrainAndExit(ArsenalItem::Mirror),
        DequeueChoice::DrainAndExit(ArsenalItem::Mirror),
    ]);
    let fireball_lightning = BatchChoice::Actions(vec![
        Action::Move(Move::ShadowFireball),
        Action::Move(Move::Lightning),
    ]);

    game.make_choice(ninja_samurai).unwrap();
    game.make_choice(shadow_atlas).unwrap();
    game.make_choice(mirror_mirror).unwrap();
    assert_eq!(
        Ok(Outcome::ActionPhaseDone(vec![
            ActionPointsDestroyed(Action::Move(Move::ShadowFireball), 1, false),
            ActionPointsDestroyed(Action::Move(Move::Lightning), 0, false),
        ])),
        game.make_choice(fireball_lightning)
    );
}

#[test]
fn zap_destroys_shadow_fireball() {
    let mut game = BatchChoiceGame::default();
    let zombie_ninja = BatchChoice::Characters(vec![Character::Zombie, Character::Ninja]);
    let zombie_corps_shadow = BatchChoice::Boosters(vec![Booster::ZombieCorps, Booster::Shadow]);
    let mirror_mirror = BatchChoice::DequeueChoices(vec![
        DequeueChoice::DrainAndExit(ArsenalItem::Mirror),
        DequeueChoice::DrainAndExit(ArsenalItem::Mirror),
    ]);
    let zap_fireball = BatchChoice::Actions(vec![
        Action::Move(Move::Zap),
        Action::Move(Move::ShadowFireball),
    ]);

    game.make_choice(zombie_ninja).unwrap();
    game.make_choice(zombie_corps_shadow).unwrap();
    game.make_choice(mirror_mirror).unwrap();
    assert_eq!(
        Ok(Outcome::ActionPhaseDone(vec![
            ActionPointsDestroyed(Action::Move(Move::Zap), 0, true),
            ActionPointsDestroyed(Action::Move(Move::ShadowFireball), 0, true),
        ])),
        game.make_choice(zap_fireball)
    );
}

#[test]
fn game_ends_if_exactly_one_player_wins() {
    let mut game = BatchChoiceGame::new(Config {
        points_to_win: 1,
        ..Config::default()
    });
    let ninja_zombie = BatchChoice::Characters(vec![Character::Ninja, Character::Zombie]);
    let shadow_regenerative = BatchChoice::Boosters(vec![Booster::Shadow, Booster::Regenerative]);
    let mirror_mirror = BatchChoice::DequeueChoices(vec![
        DequeueChoice::DrainAndExit(ArsenalItem::Mirror),
        DequeueChoice::DrainAndExit(ArsenalItem::Mirror),
    ]);
    let slip_regenerate = BatchChoice::Actions(vec![
        Action::Move(Move::ShadowSlip),
        Action::Move(Move::Regenerate),
    ]);

    game.make_choice(ninja_zombie).unwrap();
    game.make_choice(shadow_regenerative).unwrap();
    game.make_choice(mirror_mirror).unwrap();
    let outcome = game.make_choice(slip_regenerate).unwrap();

    match &outcome {
        Outcome::GameOver(_) => {}
        _ => panic!("Game did not end."),
    }
    match game.phase() {
        Phase::Final(_) => {}
        _ => panic!("Game did not end."),
    }
}

#[test]
fn game_does_not_end_if_zero_players_win() {
    let mut game = BatchChoiceGame::new(Config {
        points_to_win: 2,
        ..Config::default()
    });
    let ninja_zombie = BatchChoice::Characters(vec![Character::Ninja, Character::Zombie]);
    let shadow_regenerative = BatchChoice::Boosters(vec![Booster::Shadow, Booster::Regenerative]);
    let mirror_mirror = BatchChoice::DequeueChoices(vec![
        DequeueChoice::DrainAndExit(ArsenalItem::Mirror),
        DequeueChoice::DrainAndExit(ArsenalItem::Mirror),
    ]);
    let slip_regenerate = BatchChoice::Actions(vec![
        Action::Move(Move::ShadowSlip),
        Action::Move(Move::Regenerate),
    ]);
    let expected_outcome = Outcome::ActionPhaseDone(vec![
        ActionPointsDestroyed(Action::Move(Move::ShadowSlip), 0, false),
        ActionPointsDestroyed(Action::Move(Move::Regenerate), 1, true),
    ]);

    game.make_choice(ninja_zombie).unwrap();
    game.make_choice(shadow_regenerative).unwrap();
    game.make_choice(mirror_mirror).unwrap();
    assert_eq!(Ok(expected_outcome), game.make_choice(slip_regenerate));
}

#[test]
fn game_does_not_end_if_multiple_players_win() {
    let mut game = BatchChoiceGame::new(Config {
        points_to_win: 1,
        ..Config::default()
    });
    let clown_zombie = BatchChoice::Characters(vec![Character::Clown, Character::Zombie]);
    let backwards_regenerative =
        BatchChoice::Boosters(vec![Booster::Backwards, Booster::Regenerative]);
    let mirror_mirror = BatchChoice::DequeueChoices(vec![
        DequeueChoice::DrainAndExit(ArsenalItem::Mirror),
        DequeueChoice::DrainAndExit(ArsenalItem::Mirror),
    ]);
    let backwards_moustachio_regenerate = BatchChoice::Actions(vec![
        Action::Move(Move::BackwardsMoustachio),
        Action::Move(Move::Regenerate),
    ]);
    let expected_outcome = Outcome::ActionPhaseDone(vec![
        ActionPointsDestroyed(Action::Move(Move::BackwardsMoustachio), 0, false),
        ActionPointsDestroyed(Action::Move(Move::Regenerate), 0, true),
    ]);

    game.make_choice(clown_zombie).unwrap();
    game.make_choice(backwards_regenerative).unwrap();
    game.make_choice(mirror_mirror).unwrap();
    assert_eq!(
        Ok(expected_outcome),
        game.make_choice(backwards_moustachio_regenerate)
    );
}

#[test]
fn first_player_loses_points_if_second_and_third_players_have_enough_points_to_win() {
    let mut game = BatchChoiceGame::new(Config {
        points_to_win: 1,
        player_count: 3,
        ..Config::default()
    });
    let samurai_clown_zombie = BatchChoice::Characters(vec![
        Character::Samurai,
        Character::Clown,
        Character::Zombie,
    ]);
    let atlas_backwards_regenerative = BatchChoice::Boosters(vec![
        Booster::Atlas,
        Booster::Backwards,
        Booster::Regenerative,
    ]);
    let mirror_mirror_mirror = BatchChoice::DequeueChoices(vec![
        DequeueChoice::DrainAndExit(ArsenalItem::Mirror),
        DequeueChoice::DrainAndExit(ArsenalItem::Mirror),
        DequeueChoice::DrainAndExit(ArsenalItem::Mirror),
    ]);
    let earthquake_backwards_moustachio_regenerate = BatchChoice::Actions(vec![
        Action::Move(Move::Earthquake),
        Action::Move(Move::BackwardsMoustachio),
        Action::Move(Move::Regenerate),
    ]);
    let expected_outcome = Outcome::ActionPhaseDone(vec![
        ActionPointsDestroyed(Action::Move(Move::Earthquake), -2, false),
        ActionPointsDestroyed(Action::Move(Move::BackwardsMoustachio), 0, false),
        ActionPointsDestroyed(Action::Move(Move::Regenerate), 0, true),
    ]);

    game.make_choice(samurai_clown_zombie).unwrap();
    game.make_choice(atlas_backwards_regenerative).unwrap();
    game.make_choice(mirror_mirror_mirror).unwrap();
    assert_eq!(
        Ok(expected_outcome),
        game.make_choice(earthquake_backwards_moustachio_regenerate)
    );
}

#[test]
fn players_cannot_choose_if_game_ends() {
    let mut game = BatchChoiceGame::new(Config {
        points_to_win: 1,
        ..Config::default()
    });
    let ninja_zombie = BatchChoice::Characters(vec![Character::Ninja, Character::Zombie]);
    let shadow_regenerative = BatchChoice::Boosters(vec![Booster::Shadow, Booster::Regenerative]);
    let mirror_mirror = BatchChoice::DequeueChoices(vec![
        DequeueChoice::DrainAndExit(ArsenalItem::Mirror),
        DequeueChoice::DrainAndExit(ArsenalItem::Mirror),
    ]);
    let slip_regenerate = BatchChoice::Actions(vec![
        Action::Move(Move::ShadowSlip),
        Action::Move(Move::Regenerate),
    ]);

    game.make_choice(ninja_zombie).unwrap();
    game.make_choice(shadow_regenerative).unwrap();
    game.make_choice(mirror_mirror.clone()).unwrap();
    game.make_choice(slip_regenerate).unwrap();

    assert!(game.make_choice(mirror_mirror).is_err());
}

#[test]
fn winner_index_returns_none_if_game_not_over() {
    let game = BatchChoiceGame::default();
    assert_eq!(None, game.winner_index());
}

#[test]
fn winner_index_returns_some_if_game_over() {
    let mut game = BatchChoiceGame::new(Config {
        points_to_win: 1,
        ..Config::default()
    });
    let ninja_zombie = BatchChoice::Characters(vec![Character::Ninja, Character::Zombie]);
    let shadow_regenerative = BatchChoice::Boosters(vec![Booster::Shadow, Booster::Regenerative]);
    let mirror_mirror = BatchChoice::DequeueChoices(vec![
        DequeueChoice::DrainAndExit(ArsenalItem::Mirror),
        DequeueChoice::DrainAndExit(ArsenalItem::Mirror),
    ]);
    let slip_regenerate = BatchChoice::Actions(vec![
        Action::Move(Move::ShadowSlip),
        Action::Move(Move::Regenerate),
    ]);

    game.make_choice(ninja_zombie).unwrap();
    game.make_choice(shadow_regenerative).unwrap();
    game.make_choice(mirror_mirror).unwrap();
    game.make_choice(slip_regenerate).unwrap();
    println!("{:#?}", game);
    assert_eq!(Some(1), game.winner_index());
}
