use nzsc::choices::{Booster, Character, Move};
use nzsc::helpers::{
    is_whitespace, lowercase, lowercase_no_whitespace, HasDuplicates,
};
use std::str::FromStr;

#[test]
fn lowercase_no_whitespace_works() {
    assert_eq!(lowercase_no_whitespace("Hello world"), "helloworld");
}

#[test]
fn fibonacci_sequence_has_duplicates() {
    let fibonacci: Vec<u8> = vec![1, 1, 2, 3, 5];
    assert!(fibonacci.has_duplicates());
}

#[test]
fn abc_does_not_have_duplicates() {
    let abc: Vec<char> = vec!['a', 'b', 'c'];
    assert!(!abc.has_duplicates());
}

#[test]
fn duplicates_are_found_wherever_they_are() {
    assert!(!Vec::<u8>::new().has_duplicates());
    assert!(!vec![7u8].has_duplicates());
    assert!(vec![1u8, 2, 3, 1].has_duplicates());
    assert!(vec![1u8, 2, 3, 3].has_duplicates());
    assert!(!vec![Character::Ninja, Character::Clown].has_duplicates());
    assert!(vec![Character::Ninja, Character::Clown, Character::Ninja].has_duplicates());
}

#[test]
fn bytes_are_told_and_lowered_as_the_characters_of_their_number() {
    for byte in 0..=255u8 {
        let c = byte as char;
        assert_eq!(is_whitespace(byte), c.is_whitespace());
        assert_eq!(
            (lowercase(byte) as char).to_string(),
            c.to_string().to_lowercase()
        );
    }
}

#[test]
fn lowercase_no_whitespace_reads_byte_by_byte() {
    assert_eq!(lowercase_no_whitespace(""), "");
    assert_eq!(lowercase_no_whitespace(" \t\r\n"), "");
    assert_eq!(lowercase_no_whitespace("Zombie Corps"), "zombiecorps");
    assert_eq!(lowercase_no_whitespace("AZ az 09"), "azaz09");
    assert_eq!(lowercase_no_whitespace("\u{c9}"), "\u{e3}\u{89}");
    assert_eq!(lowercase_no_whitespace("a\u{a0}b"), "a\u{e2}b");
}

#[test]
fn moves_to_string_works() {
    assert_eq!(Move::Kick.to_string(), "Kick".to_string());
}

#[test]
fn moves_from_str_works() {
    assert_eq!(Move::from_str("kick"), Ok(Move::Kick));
    assert_eq!(Move::from_str("strongsmash"), Ok(Move::StrongSmash));
}

#[test]
fn boosters_to_string_works() {
    assert_eq!(Booster::Shadow.to_string(), "Shadow".to_string());
}

#[test]
fn boosters_from_str_works() {
    assert_eq!(Booster::from_str("Shadow"), Ok(Booster::Shadow));
}

#[test]
fn characters_to_string_works() {
    assert_eq!(Character::Ninja.to_string(), "Ninja".to_string());
}

#[test]
fn characters_from_str_works() {
    assert_eq!(Character::from_str("Ninja"), Ok(Character::Ninja));
}

#[test]
fn every_name_reads_back() {
    let moves = [
        Move::Kick,
        Move::NinjaSword,
        Move::Nunchucks,
        Move::ShadowFireball,
        Move::ShadowSlip,
        Move::RunInCircles,
        Move::LightningFastKarateChop,
        Move::Rampage,
        Move::Muscle,
        Move::Zap,
        Move::Regenerate,
        Move::Gravedigger,
        Move::ZombieCorps,
        Move::Apocalypse,
        Move::SamuraiSword,
        Move::Helmet,
        Move::Smash,
        Move::StrongSmash,
        Move::Lightning,
        Move::Earthquake,
        Move::Twist,
        Move::Bend,
        Move::JugglingKnives,
        Move::AcidSpray,
        Move::Nose,
        Move::BackwardsMoustachio,
        Move::NoseOfTheTaunted,
        Move::MustacheMash,
        Move::BigHairyDeal,
    ];
    for m in moves {
        assert_eq!(Move::from_name(&m.to_string()), Ok(m));
    }
    let boosters = [
        Booster::Shadow,
        Booster::Speedy,
        Booster::Regenerative,
        Booster::ZombieCorps,
        Booster::Atlas,
        Booster::Strong,
        Booster::Backwards,
        Booster::Moustachio,
        Booster::NoBooster,
    ];
    for b in boosters {
        assert_eq!(Booster::from_name(&b.to_string()), Ok(b));
    }
    for c in Character::all() {
        assert_eq!(Character::from_name(&c.to_string()), Ok(c));
    }
}

#[test]
fn names_are_shown_with_spaces_and_read_without() {
    assert_eq!(Move::LightningFastKarateChop.to_string(), "Lightning Fast Karate Chop");
    assert_eq!(Move::NoseOfTheTaunted.to_string(), "Nose Of The Taunted");
    assert_eq!(Booster::ZombieCorps.to_string(), "Zombie Corps");
    assert_eq!(Booster::NoBooster.to_string(), "No Booster");
    assert_eq!(Move::from_str(" big HAIRY deal "), Ok(Move::BigHairyDeal));
    assert_eq!(Booster::from_str("none"), Ok(Booster::NoBooster));
    assert_eq!(Booster::from_str("No Booster"), Ok(Booster::NoBooster));
    assert_eq!(Booster::from_str("zombie corps"), Ok(Booster::ZombieCorps));
    assert_eq!(Move::from_str("zombie corps"), Ok(Move::ZombieCorps));
    assert_eq!(Character::from_str("CLOWN"), Ok(Character::Clown));
    assert_eq!(Move::from_str("punch"), Err(()));
    assert_eq!(Booster::from_str(""), Err(()));
    assert_eq!(Character::from_str("ninjas"), Err(()));
}
