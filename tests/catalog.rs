use remotro::catalog::{Boss, Deck, PokerHandKind, Seed, Stake, INVALID_DECK, INVALID_STAKE};
use remotro::protocol::{decimal_string, HandInfo, Packet, SavedRun};

#[test]
fn finisher_bosses() {
    assert!(Boss::CeruleanBell.is_finisher());
    assert!(Boss::VerdantLeaf.is_finisher());
    assert!(Boss::VioletVessel.is_finisher());
    assert!(Boss::AmberAcorn.is_finisher());
    assert!(Boss::CrimsonHeart.is_finisher());
    assert!(!Boss::TheHook.is_finisher());
    assert!(!Boss::TheOx { hand: PokerHandKind::Flush }.is_finisher());
    assert!(!Boss::TheWheel { probability: 7 }.is_finisher());
}

#[test]
fn seeds_are_seven_bytes() {
    assert_eq!(Seed::new("ABCDEFG".to_string()).map(|s| s.as_str().to_string()), Some("ABCDEFG".to_string()));
    assert!(Seed::new("ABCDEF".to_string()).is_none());
    assert!(Seed::new("ABCDEFGH".to_string()).is_none());
    assert!(Seed::new(String::new()).is_none());
    // seven characters but more than seven bytes
    assert!(Seed::new("ÄBCDEFG".to_string()).is_none());
}

#[test]
fn stake_numbers() {
    assert_eq!(Stake::White.number(), 1);
    assert_eq!(Stake::Gold.number(), 8);
    assert_eq!(Stake::from_number(3), Some(Stake::Green));
    assert_eq!(Stake::from_number(0), None);
    assert_eq!(Stake::from_number(9), None);
}

#[test]
fn deck_names_parse() {
    assert_eq!(Deck::parse("red"), Ok(Deck::Red));
    assert_eq!(Deck::parse("  Red \n"), Ok(Deck::Red));
    assert_eq!(Deck::parse("CHECKERED"), Ok(Deck::Checkered));
    assert_eq!(Deck::parse("ghost"), Ok(Deck::GhostDeck));
    assert_eq!(Deck::from_lowercase("erratic"), Ok(Deck::Erratic));
    assert_eq!(Deck::from_lowercase("Erratic"), Err(INVALID_DECK.to_string()));
    assert_eq!(Deck::parse("purple"), Err(INVALID_DECK.to_string()));
    assert_eq!(
        INVALID_DECK,
        "Invalid deck. Valid options are: Red, Blue, Yellow, Green, Black, Magic, Nebula, Ghost, Abandoned, Checkered, Zodiac, Painted, Anaglyph, Plasma, Erratic"
    );
}

#[test]
fn stake_names_parse() {
    assert_eq!(Stake::parse(" Purple"), Ok(Stake::Purple));
    assert_eq!(Stake::parse("gold"), Ok(Stake::Gold));
    assert_eq!(Stake::parse("plasma"), Err(INVALID_STAKE.to_string()));
    assert_eq!(INVALID_STAKE, "Invalid stake. Valid options are: White, Red, Green, Black, Blue, Purple, Orange, Gold");
}

#[test]
fn labels() {
    assert_eq!(Deck::Anaglyph.label(), "Anaglyph");
    assert_eq!(Deck::GhostDeck.label(), "Ghost");
    assert_eq!(Stake::Orange.label(), "Orange");
}

#[test]
fn decimal_numbers() {
    assert_eq!(decimal_string(0), "0");
    assert_eq!(decimal_string(7), "7");
    assert_eq!(decimal_string(10), "10");
    assert_eq!(decimal_string(1234567890), "1234567890");
    assert_eq!(decimal_string(u64::MAX), "18446744073709551615");
}

#[test]
fn saved_run_description() {
    let run = SavedRun { deck: Deck::Yellow, stake: Stake::Black, best_hand: 120, round: 5, ante: 2, money: 13 };
    assert_eq!(run.describe(), "Yellow deck, Black stake, ante 2 round 5, $13");
}

#[test]
fn hand_selection_reply_kind() {
    assert_eq!(<HandInfo as Packet>::kind(), "select_hand/info");
    let info = HandInfo { hand: vec![] };
    assert!(info.hand.is_empty());
}
