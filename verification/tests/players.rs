use nzsc::choices::{Action, ArsenalItem, Booster, Character, DequeueChoice, Move};
use nzsc::counters::{CharacterChoices, CharacterStreak, Pool, Queue};
use nzsc::game::Config;
use nzsc::outcomes::{ActionPointsDestroyed, CharacterHeadstart};
use nzsc::players::{
    ActionlessPlayer, BoosterlessPlayer, CharacterlessPlayer, DequeueChoicelessPlayer,
    FinishedPlayer,
};
use nzsc::scoreboard::transparent;

fn ninja() -> BoosterlessPlayer {
    let player = CharacterlessPlayer::from_game_config(Config::default());
    player.into_boosterless(CharacterHeadstart(Character::Ninja, 0))
}

fn samurai() -> BoosterlessPlayer {
    let player = CharacterlessPlayer::from_game_config(Config::default());
    player.into_boosterless(CharacterHeadstart(Character::Samurai, 0))
}

fn draineeless_shadow() -> DequeueChoicelessPlayer {
    let player = CharacterlessPlayer::from_game_config(Config::default());
    player
        .into_boosterless(CharacterHeadstart(Character::Ninja, 0))
        .into_dequeue_choiceless(Booster::Shadow)
}

fn actionless_shadow() -> ActionlessPlayer {
    let shadow = draineeless_shadow();
    shadow.into_actionless(DequeueChoice::DrainAndExit(ArsenalItem::Mirror))
}

fn finished_ninja() -> FinishedPlayer {
    let mut queue = Queue::new();
    queue.enqueue(Some(ArsenalItem::Move(Move::NinjaSword)));
    queue.enqueue(Some(ArsenalItem::Move(Move::Kick)));
    queue.enqueue(Some(ArsenalItem::Move(Move::ShadowSlip)));
    queue
        .dequeue(DequeueChoice::DrainAndExit(ArsenalItem::Mirror))
        .unwrap();

    FinishedPlayer {
        points: 5,
        game_config: Config::default(),
        character: Character::Ninja,
        booster: Booster::Shadow,
        arsenal: vec![
            ArsenalItem::Move(Move::ShadowFireball),
            ArsenalItem::Move(Move::Nunchucks),
        ],
        queue,
    }
}

#[test]
fn characterless_from_game_works() {
    let actual = CharacterlessPlayer::from_game_config(Config::default());
    let expected = CharacterlessPlayer {
        game_config: Config::default(),
        streak: None,
    };
    assert_eq!(expected.game_config, actual.game_config);
    assert_eq!(expected.streak, actual.streak);
}

#[test]
fn add_to_streak_works() {
    let mut player = CharacterlessPlayer::from_game_config(Config::default());
    player.add_to_streak(Character::Ninja);
    let mut expected: Option<CharacterStreak> = None;
    expected
        .make_choice(
            player.game_config.max_character_repetitions,
            Character::Ninja,
        )
        .unwrap();
    assert_eq!(expected, player.streak);
}

#[test]
fn characterless_can_choose_any_initially() {
    let player = CharacterlessPlayer::from_game_config(Config::default());
    assert_eq!(Character::all(), player.choices(),);
}

#[test]
fn characterless_cannot_choose_repeated_character_when_maximum_reached() {
    let mut player = CharacterlessPlayer::from_game_config(Config::default());
    for _ in 0..player.game_config.max_character_repetitions {
        player.add_to_streak(Character::Ninja);
    }

    let mut no_ninja = Character::all();
    no_ninja.retain(|c| c != &Character::Ninja);

    assert_eq!(no_ninja, player.choices());
}

#[test]
fn into_boosterless_works() {
    let player = CharacterlessPlayer::from_game_config(Config::default());
    assert_eq!(
        Character::Ninja,
        player
            .into_boosterless(CharacterHeadstart(Character::Ninja, 0))
            .character
    );
}

#[test]
fn characterless_into_transparent_works() {
    let original = CharacterlessPlayer::from_game_config(Config::default());
    let transparent: transparent::CharacterlessPlayer = original.clone().into();

    assert_eq!(
        original
            .streak
            .map(|streak| Into::<transparent::CharacterStreak>::into(streak)),
        transparent.streak
    );
}

#[test]
fn a_characterless_player_may_choose_what_its_choices_hold() {
    let mut player = CharacterlessPlayer::from_game_config(Config::default());
    assert!(player.can_choose(&Character::Ninja));
    for _ in 0..3 {
        player.add_to_streak(Character::Ninja);
    }
    assert_eq!(
        player.streak,
        Some(CharacterStreak {
            character: Character::Ninja,
            times: 3
        })
    );
    assert!(!player.can_choose(&Character::Ninja));
    assert!(player.can_choose(&Character::Clown));
    let shown = transparent::CharacterlessPlayer::of(&player);
    assert_eq!(
        shown.streak,
        Some(transparent::CharacterStreak {
            character: Character::Ninja,
            times: 3
        })
    );
}

#[test]
fn boosterless_ninja_can_choose_shadow() {
    let player = ninja();
    assert_eq!(Character::Ninja.boosters(), player.choices());
}

#[test]
fn boosterless_ninja_cannot_choose_atlas() {
    let player = ninja();
    assert!(!player.choices().contains(&Booster::Atlas));
}

#[test]
fn boosterless_shadow_initial_arsenal_is_correct() {
    let player = ninja();
    let arsenal = player.initial_arsenal(Booster::Shadow);
    assert_eq!(
        arsenal,
        vec![
            ArsenalItem::Move(Move::Kick),
            ArsenalItem::Move(Move::NinjaSword),
            ArsenalItem::Move(Move::Nunchucks),
            ArsenalItem::Move(Move::ShadowFireball),
            ArsenalItem::Move(Move::ShadowSlip)
        ]
    );
}

#[test]
fn boosterless_atlas_initial_arsenal_is_correct() {
    let player = samurai();
    let arsenal = player.initial_arsenal(Booster::Atlas);
    assert_eq!(
        arsenal,
        vec![
            ArsenalItem::Move(Move::SamuraiSword),
            ArsenalItem::Move(Move::Helmet),
            ArsenalItem::Move(Move::Smash),
            ArsenalItem::Move(Move::Lightning),
            ArsenalItem::Move(Move::Earthquake)
        ]
    );
}

#[test]
fn boosterless_strong_initial_arsenal_is_correct() {
    let player = samurai();
    let arsenal = player.initial_arsenal(Booster::Strong);
    assert_eq!(
        arsenal,
        vec![
            ArsenalItem::Move(Move::SamuraiSword),
            ArsenalItem::Move(Move::Helmet),
            ArsenalItem::Move(Move::Twist),
            ArsenalItem::Move(Move::Bend),
            ArsenalItem::Move(Move::StrongSmash),
        ]
    );
}

#[test]
fn into_draineeless_works() {
    let player = ninja();
    assert_eq!(
        Booster::Shadow,
        player.into_dequeue_choiceless(Booster::Shadow).booster
    );
}

#[test]
fn boosterless_into_transparent_works() {
    let original = ninja();
    let transparent: transparent::BoosterlessPlayer = original.clone().into();

    assert_eq!(original.points, transparent.points);
    assert_eq!(original.character, transparent.character);
}

#[test]
fn a_boosterless_player_may_choose_the_boosters_of_its_character() {
    let player = samurai();
    assert!(player.can_choose(&Booster::Strong));
    assert!(player.can_choose(&Booster::NoBooster));
    assert!(!player.can_choose(&Booster::Shadow));
    let bare = player.into_dequeue_choiceless(Booster::NoBooster);
    assert_eq!(
        bare.arsenal,
        vec![
            ArsenalItem::Move(Move::SamuraiSword),
            ArsenalItem::Move(Move::Helmet),
            ArsenalItem::Move(Move::Smash),
        ]
    );
    assert_eq!(bare.queue, Queue::new());
    assert_eq!(bare.points, 0);
}

#[test]
fn dequeue_choiceless_can_decline_opportunity_to_drain_if_pool_occupied() {
    let shadow = draineeless_shadow();
    assert!(shadow.choices().contains(&DequeueChoice::Decline));
}

#[test]
fn dequeue_choiceless_must_decline_opportunity_to_drain_if_pool_empty() {
    let mut shadow = draineeless_shadow();
    shadow
        .queue
        .dequeue(DequeueChoice::DrainAndExit(ArsenalItem::Mirror))
        .unwrap();
    assert_eq!(0, shadow.queue.pool().len());
    assert_eq!(vec![DequeueChoice::Decline], shadow.choices());
}

#[test]
fn dequeue_choiceless_can_choose_mirror_if_mirror_in_pool() {
    let shadow = draineeless_shadow();
    let drain_mirror = DequeueChoice::DrainAndExit(ArsenalItem::Mirror);
    assert_eq!(
        vec![
            drain_mirror,
            DequeueChoice::JustExit,
            DequeueChoice::Decline
        ],
        shadow.choices()
    );
}

#[test]
fn dequeue_choiceless_must_exit_without_draining_or_decline_if_pool_is_empty() {
    let mut shadow = draineeless_shadow();
    let drain_mirror = DequeueChoice::DrainAndExit(ArsenalItem::Mirror);
    shadow.queue.dequeue(drain_mirror).unwrap();
    shadow.arsenal = vec![];
    assert!(shadow.can_dequeue());
    assert_eq!(
        vec![DequeueChoice::JustExit, DequeueChoice::Decline],
        shadow.choices()
    );
}

#[test]
fn dequeue_choiceless_can_dequeue_if_queue_exit_empty() {
    let shadow = draineeless_shadow();
    assert!(shadow.arsenal.len() >= shadow.game_config.max_arsenal_items as usize);
    assert!(shadow.can_dequeue());
}

#[test]
fn dequeue_choiceless_can_dequeue_if_arsenal_has_extra_capacity() {
    let mut shadow = draineeless_shadow();
    shadow
        .queue
        .dequeue(DequeueChoice::DrainAndExit(ArsenalItem::Mirror))
        .unwrap();
    assert!(!shadow.queue.exit_vacant());
    shadow.arsenal = vec![ArsenalItem::Move(Move::Nunchucks)];
    assert!(shadow.can_dequeue());
}

#[test]
fn dequeue_choiceless_cannot_dequeue_if_queue_exit_occupied_and_arsenal_has_no_capacity() {
    let mut shadow = draineeless_shadow();
    shadow
        .queue
        .dequeue(DequeueChoice::DrainAndExit(ArsenalItem::Mirror))
        .unwrap();
    assert!(!shadow.queue.exit_vacant());
    shadow.arsenal = vec![
        ArsenalItem::Move(Move::Nunchucks),
        ArsenalItem::Move(Move::ShadowFireball),
    ];
    assert!(!shadow.can_dequeue());
}

#[test]
fn what_leaves_the_queue_joins_the_arsenal() {
    let mut shadow = draineeless_shadow();
    shadow.arsenal = vec![ArsenalItem::Move(Move::Kick)];
    shadow.queue = Queue {
        entrance: None,
        pool: Pool {
            items: vec![ArsenalItem::Mirror, ArsenalItem::Move(Move::Nose)],
        },
        exit: Some(ArsenalItem::Move(Move::Zap)),
    };
    assert!(shadow.can_choose(&DequeueChoice::DrainAndExit(ArsenalItem::Move(Move::Nose))));
    assert!(!shadow.can_choose(&DequeueChoice::DrainAndExit(ArsenalItem::Move(Move::Kick))));
    assert!(shadow.can_choose(&DequeueChoice::JustExit));
    let declined = shadow.clone().into_actionless(DequeueChoice::Decline);
    assert_eq!(declined.arsenal, vec![ArsenalItem::Move(Move::Kick)]);
    assert_eq!(declined.queue, shadow.queue);
    let exited = shadow.clone().into_actionless(DequeueChoice::JustExit);
    assert_eq!(
        exited.arsenal,
        vec![ArsenalItem::Move(Move::Kick), ArsenalItem::Move(Move::Zap)]
    );
    assert_eq!(exited.queue.exit, None);
    let drained = shadow.into_actionless(DequeueChoice::DrainAndExit(ArsenalItem::Mirror));
    assert_eq!(
        drained.arsenal,
        vec![ArsenalItem::Move(Move::Kick), ArsenalItem::Move(Move::Zap)]
    );
    assert_eq!(drained.queue.exit, Some(ArsenalItem::Mirror));
    assert_eq!(drained.queue.pool.items, vec![ArsenalItem::Move(Move::Nose)]);
}

#[test]
fn actionless_shadow_initally_has_five_choices() {
    let shadow = actionless_shadow();
    assert_eq!(5, shadow.choices().len());
}

#[test]
fn shadow_has_correct_mirror_choices() {
    let mut actionless_shadow = actionless_shadow();
    let mut draineeless_shadow;
    let choices = vec![
        (Action::Move(Move::Kick), DequeueChoice::Decline),
        (Action::Move(Move::Nunchucks), DequeueChoice::Decline),
        (Action::Move(Move::ShadowFireball), DequeueChoice::Decline),
        (
            Action::Move(Move::ShadowSlip),
            DequeueChoice::DrainAndExit(ArsenalItem::Move(Move::Nunchucks)),
        ),
    ];
    for (action, dequeue_choice) in choices {
        draineeless_shadow =
            actionless_shadow.into_dequeue_choiceless(ActionPointsDestroyed(action, 0, false));
        actionless_shadow = draineeless_shadow.into_actionless(dequeue_choice);
    }

    println!("{:#?}", actionless_shadow);
    assert_eq!(
        vec![
            Action::Move(Move::NinjaSword),
            Action::Mirror(Move::Kick),
            Action::Mirror(Move::ShadowFireball)
        ],
        actionless_shadow.choices()
    );
}

#[test]
fn add_points_adds_points_if_new_points_is_greater_than_zero() {
    let mut shadow = actionless_shadow();
    shadow.points = 0;
    shadow.add_points(3);
    assert_eq!(3, shadow.points);
}

#[test]
fn add_points_adds_points_if_new_points_is_equal_to_zero() {
    let mut shadow = actionless_shadow();
    shadow.points = 3;
    shadow.add_points(-3);
    assert_eq!(0, shadow.points);
}

#[test]
fn add_points_sets_points_to_zero_if_new_points_is_less_than_zero() {
    let mut shadow = actionless_shadow();
    shadow.points = 3;
    shadow.add_points(-4);
    assert_eq!(0, shadow.points);
}

#[test]
fn actionless_add_points_works() {
    let mut shadow = actionless_shadow();
    shadow.add_points(3);
    assert_eq!(shadow.points, 3);
}

#[test]
fn add_points_holds_points_above_the_range_of_the_change() {
    let mut shadow = actionless_shadow();
    shadow.points = 200;
    shadow.add_points(50);
    assert_eq!(250, shadow.points);
    shadow.add_points(-100);
    assert_eq!(150, shadow.points);
    assert_eq!(150, shadow.points());
}

#[test]
fn into_draineeless_works_if_action_destroyed() {
    let shadow = actionless_shadow();

    let expected_queue = shadow.queue.clone();

    assert_eq!(
        expected_queue,
        shadow
            .into_dequeue_choiceless(ActionPointsDestroyed(Action::Move(Move::Kick), 0, true))
            .queue
    );
}

#[test]
fn into_draineeless_works_if_action_not_destroyed() {
    let shadow = actionless_shadow();

    let mut expected_queue = Queue::new();
    expected_queue
        .dequeue(DequeueChoice::DrainAndExit(ArsenalItem::Mirror))
        .unwrap();
    expected_queue.enqueue(Some(ArsenalItem::Move(Move::Kick)));

    assert_eq!(
        expected_queue,
        shadow
            .into_dequeue_choiceless(ActionPointsDestroyed(Action::Move(Move::Kick), 0, false))
            .queue
    );
}

#[test]
fn actionless_into_finished_works() {
    let actionless = actionless_shadow();
    let apd = ActionPointsDestroyed(Action::Move(Move::Kick), 0, false);
    let expected = actionless.clone().into_dequeue_choiceless(apd.clone());
    let finished = actionless.into_finished(apd);

    assert_eq!(expected.game_config, finished.game_config);
    assert_eq!(expected.points, finished.points);
    assert_eq!(expected.character, finished.character);
    assert_eq!(expected.booster, finished.booster);
    assert_eq!(expected.arsenal, finished.arsenal);
    assert_eq!(expected.queue, finished.queue);
}

#[test]
fn actionless_into_transparent_works() {
    let original = actionless_shadow();
    let transparent: transparent::ActionlessPlayer = original.clone().into();

    assert_eq!(original.points, transparent.points);
    assert_eq!(original.character, transparent.character);
    assert_eq!(original.booster, transparent.booster);
    assert_eq!(original.arsenal, transparent.arsenal);
    assert_eq!(
        Into::<transparent::Queue>::into(original.queue),
        transparent.queue
    );
}

#[test]
fn a_player_without_items_can_only_concede() {
    let mut shadow = actionless_shadow();
    shadow.arsenal = vec![];
    assert_eq!(shadow.choices(), vec![Action::Concede]);
    assert!(shadow.can_choose(&Action::Concede));
    assert!(!shadow.can_choose(&Action::Move(Move::Kick)));
    shadow.arsenal = vec![ArsenalItem::Mirror];
    assert_eq!(shadow.choices(), vec![Action::Concede]);
}

#[test]
fn the_mirror_offers_the_moves_of_the_pool() {
    let mut shadow = actionless_shadow();
    shadow.arsenal = vec![
        ArsenalItem::Move(Move::Kick),
        ArsenalItem::Mirror,
        ArsenalItem::Move(Move::Nose),
    ];
    shadow.queue = Queue {
        entrance: Some(ArsenalItem::Move(Move::Zap)),
        pool: Pool {
            items: vec![
                ArsenalItem::Move(Move::Smash),
                ArsenalItem::Mirror,
                ArsenalItem::Move(Move::Twist),
            ],
        },
        exit: Some(ArsenalItem::Move(Move::Bend)),
    };
    assert_eq!(
        shadow.choices(),
        vec![
            Action::Move(Move::Kick),
            Action::Move(Move::Nose),
            Action::Mirror(Move::Smash),
            Action::Mirror(Move::Twist),
        ]
    );
    assert!(shadow.can_choose(&Action::Mirror(Move::Twist)));
    assert!(!shadow.can_choose(&Action::Mirror(Move::Zap)));
    assert!(!shadow.can_choose(&Action::Concede));
}

#[test]
fn using_an_action_spends_every_copy_of_its_item() {
    let mut shadow = actionless_shadow();
    shadow.arsenal = vec![
        ArsenalItem::Move(Move::Kick),
        ArsenalItem::Mirror,
        ArsenalItem::Move(Move::Kick),
        ArsenalItem::Move(Move::Nose),
    ];
    let queue = shadow.queue.clone();
    let mut kicked = shadow.clone();
    kicked.use_action(Action::Move(Move::Kick), false);
    assert_eq!(
        kicked.arsenal,
        vec![ArsenalItem::Mirror, ArsenalItem::Move(Move::Nose)]
    );
    assert_eq!(kicked.queue.entrance, Some(ArsenalItem::Move(Move::Kick)));
    let mut mirrored = shadow.clone();
    mirrored.use_action(Action::Mirror(Move::Smash), true);
    assert_eq!(
        mirrored.arsenal,
        vec![
            ArsenalItem::Move(Move::Kick),
            ArsenalItem::Move(Move::Kick),
            ArsenalItem::Move(Move::Nose)
        ]
    );
    assert_eq!(mirrored.queue, queue);
    let mut conceded = kicked.clone();
    conceded.use_action(Action::Concede, false);
    assert_eq!(conceded.arsenal, kicked.arsenal);
    assert_eq!(conceded.queue.entrance, None);
    assert_eq!(
        conceded.queue.pool.items,
        vec![ArsenalItem::Move(Move::Kick)]
    );
    let mut stuck = kicked.clone();
    stuck.use_action(Action::Concede, true);
    assert_eq!(stuck.queue, kicked.queue);
    assert_eq!(stuck.queue.entrance, Some(ArsenalItem::Move(Move::Kick)));
}

#[test]
fn a_round_changes_points_after_the_item_is_spent() {
    let mut shadow = actionless_shadow();
    shadow.points = 2;
    let next = shadow
        .clone()
        .into_dequeue_choiceless(ActionPointsDestroyed(
            Action::Move(Move::NinjaSword),
            -3,
            false,
        ));
    assert_eq!(next.points, 0);
    assert!(!next.arsenal.contains(&ArsenalItem::Move(Move::NinjaSword)));
    assert_eq!(
        next.queue.entrance,
        Some(ArsenalItem::Move(Move::NinjaSword))
    );
    let done = shadow.into_finished(ActionPointsDestroyed(Action::Move(Move::Kick), 3, true));
    assert_eq!(done.points(), 5);
    assert_eq!(done.queue().entrance, None);
    assert!(!done.arsenal().contains(&ArsenalItem::Move(Move::Kick)));
}

#[test]
fn finished_into_transparent_works() {
    let original = finished_ninja();
    let transparent: transparent::FinishedPlayer = original.clone().into();

    assert_eq!(original.points, transparent.points);
    assert_eq!(original.character, transparent.character);
    assert_eq!(original.booster, transparent.booster);
    assert_eq!(original.arsenal, transparent.arsenal);
    assert_eq!(
        Into::<transparent::Queue>::into(original.queue),
        transparent.queue
    );
}

#[test]
fn a_finished_player_can_be_read() {
    let player = finished_ninja();
    assert_eq!(player.game_config(), &Config::default());
    assert_eq!(player.points(), 5);
    assert_eq!(player.character(), Character::Ninja);
    assert_eq!(player.booster(), Booster::Shadow);
    assert_eq!(
        player.arsenal(),
        &vec![
            ArsenalItem::Move(Move::ShadowFireball),
            ArsenalItem::Move(Move::Nunchucks),
        ]
    );
    assert_eq!(player.queue().exit, Some(ArsenalItem::Mirror));
    assert_eq!(
        player.queue().pool(),
        &vec![
            ArsenalItem::Move(Move::NinjaSword),
            ArsenalItem::Move(Move::Kick)
        ]
    );
    assert_eq!(
        player.queue().entrance,
        Some(ArsenalItem::Move(Move::ShadowSlip))
    );
    let shown = transparent::FinishedPlayer::of(&player);
    assert_eq!(shown.points, 5);
    assert_eq!(shown.arsenal, player.arsenal);
    assert_eq!(shown.queue.pool, player.queue.pool.items);
}
