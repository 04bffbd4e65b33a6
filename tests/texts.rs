use remotro::catalog::{Boss, CardEdition, PokerHandKind, Tag, VoucherKind};
use remotro::translations::{Translatable, Translation, Translations};

const FILE: &str = r##"return {
    descriptions = {
        Tag = {
            tag_handy = { name = "Handy Tag", text = { "Gives {C:money}$#1#{} per played hand", "(Will give $#2#)" } },
            tag_orbital = { name = "Orbital Tag", text = { "Upgrade #1#", "by #2# levels" } },
        },
        Blind = {
            bl_wheel = { name = "The Wheel", text = { " in 7 cards get", "drawn face down" } },
            bl_ox = { name = "The Ox", text = { "Playing a #1#", "sets money to $0" } },
        },
    },
    misc = {
        poker_hands = { ["Full House"] = { "Full House" } },
        poker_hand_descriptions = { ["Full House"] = { "A Three of a Kind and", "a Pair" } },
        v_dictionary = { e_polychrome = { name = "Polychrome", text = { "X#1# Mult" } } },
        Voucher = { v_hone = { name = "Hone", text = { "Foil cards appear", "#1#X more often" } } },
    },
}"##;

#[test]
fn ids_are_wire_identifiers() {
    assert_eq!(Tag::Handy { earnings: 3 }.id(), "tag_handy");
    assert_eq!(Boss::CrimsonHeart.id(), "bl_final_heart");
    assert_eq!(PokerHandKind::ThreeOfAKind.id(), "Three of a Kind");
    assert_eq!(VoucherKind::Overstock.id(), "v_overstock_norm");
}

#[test]
fn tag_with_earnings() {
    let t = Translations::from_string(FILE.to_string());
    assert_eq!(
        Tag::Handy { earnings: 12 }.translate(&t),
        Some(Translation { name: "Handy Tag".to_string(), text: Some("Gives $1 per played hand (Will give $12)".to_string()) })
    );
}

#[test]
fn poker_hand_and_nested_names() {
    let t = Translations::from_string(FILE.to_string());
    assert_eq!(
        PokerHandKind::FullHouse.translate(&t),
        Some(Translation { name: "Full House".to_string(), text: Some("A Three of a Kind and a Pair".to_string()) })
    );
    assert_eq!(
        Tag::Orbital { hand: PokerHandKind::FullHouse }.translate(&t).and_then(|x| x.text),
        Some("Upgrade Full House by 3 levels".to_string())
    );
    assert_eq!(
        Boss::TheOx { hand: PokerHandKind::FullHouse }.translate(&t).and_then(|x| x.text),
        Some("Playing a Full House sets money to $0".to_string())
    );
    assert_eq!(Tag::Orbital { hand: PokerHandKind::Pair }.translate(&t), None);
}

#[test]
fn wheel_odds_and_fixed_numbers() {
    let t = Translations::from_string(FILE.to_string());
    assert_eq!(
        Boss::TheWheel { probability: 1 }.translate(&t).and_then(|x| x.text),
        Some("1 in 7 cards get drawn face down".to_string())
    );
    assert_eq!(CardEdition::Polychrome.translate(&t).and_then(|x| x.text), Some("X1.5 Mult".to_string()));
    assert_eq!(VoucherKind::Hone.translate(&t).and_then(|x| x.text), Some("Foil cards appear 2X more often".to_string()));
    assert_eq!(VoucherKind::Blank.translate(&t), None);
}
