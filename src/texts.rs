//! The identifiers of catalog values in the game's files, and their localized texts.
use vstd::prelude::*;
use crate::catalog::{
    Boss, CardEdition, Enhancement, PlanetKind, PokerHandKind, Rank, Seal, SpectralKind, Suit,
    Tag, TarotKind, VoucherKind,
};
use crate::protocol::decimal_string;
use crate::translations::{Translatable, Translation, Translations};

verus! {

/// The identifier of a Tag value in the game's files.
pub open spec fn tag_id(x: Tag) -> Seq<char> {
    match x {
        Tag::Uncommon => "tag_uncommon"@,
        Tag::Rare => "tag_rare"@,
        Tag::Negative => "tag_negative"@,
        Tag::Foil => "tag_foil"@,
        Tag::Holographic => "tag_holo"@,
        Tag::Polychrome => "tag_polychrome"@,
        Tag::Investment => "tag_investment"@,
        Tag::Voucher => "tag_voucher"@,
        Tag::Boss => "tag_boss"@,
        Tag::Standard => "tag_standard"@,
        Tag::Charm => "tag_charm"@,
        Tag::Meteor => "tag_meteor"@,
        Tag::Buffoon => "tag_buffoon"@,
        Tag::Handy { .. } => "tag_handy"@,
        Tag::Ethereal => "tag_ethereal"@,
        Tag::Coupon => "tag_coupon"@,
        Tag::Double => "tag_double"@,
        Tag::Juggle => "tag_juggle"@,
        Tag::D6 => "tag_d_six"@,
        Tag::TopUp => "tag_top_up"@,
        Tag::Skip { .. } => "tag_skip"@,
        Tag::Orbital { .. } => "tag_orbital"@,
        Tag::Economy => "tag_economy"@,
        Tag::Garbage { .. } => "tag_garbage"@,
    }
}

/// The identifier of a Boss value in the game's files.
pub open spec fn boss_id(x: Boss) -> Seq<char> {
    match x {
        Boss::TheOx { .. } => "bl_ox"@,
        Boss::TheHook => "bl_hook"@,
        Boss::TheMouth => "bl_mouth"@,
        Boss::TheFish => "bl_fish"@,
        Boss::TheClub => "bl_club"@,
        Boss::TheManacle => "bl_manacle"@,
        Boss::TheTooth => "bl_tooth"@,
        Boss::TheWall => "bl_wall"@,
        Boss::TheHouse => "bl_house"@,
        Boss::TheMark => "bl_mark"@,
        Boss::TheWheel { .. } => "bl_wheel"@,
        Boss::TheArm => "bl_arm"@,
        Boss::ThePsychic => "bl_psychic"@,
        Boss::TheGoad => "bl_goad"@,
        Boss::TheWater => "bl_water"@,
        Boss::TheEye => "bl_eye"@,
        Boss::ThePlant => "bl_plant"@,
        Boss::TheNeedle => "bl_needle"@,
        Boss::TheHead => "bl_head"@,
        Boss::TheWindow => "bl_window"@,
        Boss::TheSerpent => "bl_serpent"@,
        Boss::ThePillar => "bl_pillar"@,
        Boss::TheFlint => "bl_flint"@,
        Boss::CeruleanBell => "bl_final_bell"@,
        Boss::VerdantLeaf => "bl_final_leaf"@,
        Boss::VioletVessel => "bl_final_vessel"@,
        Boss::AmberAcorn => "bl_final_acorn"@,
        Boss::CrimsonHeart => "bl_final_heart"@,
    }
}

/// The identifier of a PokerHandKind value in the game's files.
pub open spec fn poker_hand_kind_id(x: PokerHandKind) -> Seq<char> {
    match x {
        PokerHandKind::HighCard => "High Card"@,
        PokerHandKind::Pair => "Pair"@,
        PokerHandKind::TwoPair => "Two Pair"@,
        PokerHandKind::ThreeOfAKind => "Three of a Kind"@,
        PokerHandKind::Straight => "Straight"@,
        PokerHandKind::Flush => "Flush"@,
        PokerHandKind::FullHouse => "Full House"@,
        PokerHandKind::FourOfAKind => "Four of a Kind"@,
        PokerHandKind::StraightFlush => "Straight Flush"@,
        PokerHandKind::FiveOfAKind => "Five of a Kind"@,
        PokerHandKind::FlushHouse => "Flush House"@,
        PokerHandKind::FlushFive => "Flush Five"@,
    }
}

/// The identifier of a Suit value in the game's files.
pub open spec fn suit_id(x: Suit) -> Seq<char> {
    match x {
        Suit::Spades => "Spades"@,
        Suit::Hearts => "Hearts"@,
        Suit::Clubs => "Clubs"@,
        Suit::Diamonds => "Diamonds"@,
    }
}

/// The identifier of a Rank value in the game's files.
pub open spec fn rank_id(x: Rank) -> Seq<char> {
    match x {
        Rank::Ace => "Ace"@,
        Rank::Two => "2"@,
        Rank::Three => "3"@,
        Rank::Four => "4"@,
        Rank::Five => "5"@,
        Rank::Six => "6"@,
        Rank::Seven => "7"@,
        Rank::Eight => "8"@,
        Rank::Nine => "9"@,
        Rank::Ten => "10"@,
        Rank::Jack => "Jack"@,
        Rank::Queen => "Queen"@,
        Rank::King => "King"@,
    }
}

/// The identifier of a Enhancement value in the game's files.
pub open spec fn enhancement_id(x: Enhancement) -> Seq<char> {
    match x {
        Enhancement::Wild => "m_wild"@,
        Enhancement::Glass { .. } => "m_glass"@,
        Enhancement::Bonus => "m_bonus"@,
        Enhancement::Mult => "m_mult"@,
        Enhancement::Lucky { .. } => "m_lucky"@,
        Enhancement::Steel => "m_steel"@,
        Enhancement::Stone => "m_stone"@,
        Enhancement::Gold => "m_gold"@,
    }
}

/// The identifier of a Seal value in the game's files.
pub open spec fn seal_id(x: Seal) -> Seq<char> {
    match x {
        Seal::Blue => "blue_seal"@,
        Seal::Red => "red_seal"@,
        Seal::Purple => "purple_seal"@,
        Seal::Gold => "gold_seal"@,
    }
}

/// The identifier of a CardEdition value in the game's files.
pub open spec fn card_edition_id(x: CardEdition) -> Seq<char> {
    match x {
        CardEdition::Base => "e_base"@,
        CardEdition::Foil => "e_foil"@,
        CardEdition::Holographic => "e_holo"@,
        CardEdition::Polychrome => "e_polychrome"@,
    }
}

/// The identifier of a PlanetKind value in the game's files.
pub open spec fn planet_kind_id(x: PlanetKind) -> Seq<char> {
    match x {
        PlanetKind::Mercury { .. } => "c_mercury"@,
        PlanetKind::Venus { .. } => "c_venus"@,
        PlanetKind::Earth { .. } => "c_earth"@,
        PlanetKind::Mars { .. } => "c_mars"@,
        PlanetKind::Jupiter { .. } => "c_jupiter"@,
        PlanetKind::Saturn { .. } => "c_saturn"@,
        PlanetKind::Uranus { .. } => "c_uranus"@,
        PlanetKind::Neptune { .. } => "c_neptune"@,
        PlanetKind::Pluto { .. } => "c_pluto"@,
        PlanetKind::PlanetX { .. } => "c_planet_x"@,
        PlanetKind::Ceres { .. } => "c_ceres"@,
        PlanetKind::Eris { .. } => "c_eris"@,
    }
}

/// The identifier of a TarotKind value in the game's files.
pub open spec fn tarot_kind_id(x: TarotKind) -> Seq<char> {
    match x {
        TarotKind::Fool => "c_fool"@,
        TarotKind::Magician => "c_magician"@,
        TarotKind::HighPriestess => "c_high_priestess"@,
        TarotKind::Empress => "c_empress"@,
        TarotKind::Emperor => "c_emperor"@,
        TarotKind::Heirophant => "c_heirophant"@,
        TarotKind::Lovers => "c_lovers"@,
        TarotKind::Chariot => "c_chariot"@,
        TarotKind::Justice => "c_justice"@,
        TarotKind::Hermit => "c_hermit"@,
        TarotKind::WheelOfFortune { .. } => "c_wheel_of_fortune"@,
        TarotKind::Strength => "c_strength"@,
        TarotKind::HangedMan => "c_hanged_man"@,
        TarotKind::Death => "c_death"@,
        TarotKind::Temperance { .. } => "c_temperance"@,
        TarotKind::Devil => "c_devil"@,
        TarotKind::Tower => "c_tower"@,
        TarotKind::Star => "c_star"@,
        TarotKind::Moon => "c_moon"@,
        TarotKind::Sun => "c_sun"@,
        TarotKind::Judgement => "c_judgement"@,
        TarotKind::World => "c_world"@,
    }
}

/// The identifier of a SpectralKind value in the game's files.
pub open spec fn spectral_kind_id(x: SpectralKind) -> Seq<char> {
    match x {
        SpectralKind::Familiar => "c_familiar"@,
        SpectralKind::Grim => "c_grim"@,
        SpectralKind::Incantation => "c_incantation"@,
        SpectralKind::Talisman => "c_talisman"@,
        SpectralKind::Aura => "c_aura"@,
        SpectralKind::Wraith => "c_wraith"@,
        SpectralKind::Sigil => "c_sigil"@,
        SpectralKind::Ouija => "c_ouija"@,
        SpectralKind::Ectoplasm { .. } => "c_ectoplasm"@,
        SpectralKind::Immolate => "c_immolate"@,
        SpectralKind::Ankh => "c_ankh"@,
        SpectralKind::DejaVu => "c_deja_vu"@,
        SpectralKind::Hex => "c_hex"@,
        SpectralKind::Trance => "c_trance"@,
        SpectralKind::Medium => "c_medium"@,
        SpectralKind::Cryptid => "c_cryptid"@,
        SpectralKind::TheSoul => "c_soul"@,
        SpectralKind::BlackHole => "c_black_hole"@,
    }
}

/// The identifier of a VoucherKind value in the game's files.
pub open spec fn voucher_kind_id(x: VoucherKind) -> Seq<char> {
    match x {
        VoucherKind::Blank => "v_blank"@,
        VoucherKind::Antimatter => "v_antimatter"@,
        VoucherKind::ClearanceSale => "v_clearance_sale"@,
        VoucherKind::Liquidation => "v_liquidation"@,
        VoucherKind::CrystalBall => "v_crystal_ball"@,
        VoucherKind::OmenGlobe => "v_omen_globe"@,
        VoucherKind::DirectorsCut => "v_directors_cut"@,
        VoucherKind::Retcon => "v_retcon"@,
        VoucherKind::Hone => "v_hone"@,
        VoucherKind::GlowUp => "v_glow_up"@,
        VoucherKind::Grabber => "v_grabber"@,
        VoucherKind::NachoTong => "v_nacho_tong"@,
        VoucherKind::Hieroglyph => "v_hieroglyph"@,
        VoucherKind::Petroglyph => "v_petroglyph"@,
        VoucherKind::MagicTrick => "v_magic_trick"@,
        VoucherKind::Illusion => "v_illusion"@,
        VoucherKind::SeedMoney => "v_seed_money"@,
        VoucherKind::MoneyTree => "v_money_tree"@,
        VoucherKind::Telescope => "v_telescope"@,
        VoucherKind::Observatory => "v_observatory"@,
        VoucherKind::Overstock => "v_overstock_norm"@,
        VoucherKind::OverstockPlus => "v_overstock_plus"@,
        VoucherKind::PaintBrush => "v_paint_brush"@,
        VoucherKind::Palette => "v_palette"@,
        VoucherKind::PlanetMerchant => "v_planet_merchant"@,
        VoucherKind::PlanetTycoon => "v_planet_tycoon"@,
        VoucherKind::Wasteful => "v_wasteful"@,
        VoucherKind::Recyclomancy => "v_recyclomancy"@,
        VoucherKind::RerollSurplus => "v_reroll_surplus"@,
        VoucherKind::RerollGlut => "v_reroll_glut"@,
        VoucherKind::TarotMerchant => "v_tarot_merchant"@,
        VoucherKind::TarotTycoon => "v_tarot_tycoon"@,
    }
}


impl Tag {
    /// The identifier in the game's files.
    pub fn id(&self) -> (r: String)
        ensures
            r@ == tag_id(*self),
    {
        match self {
            Tag::Uncommon => String::from_str("tag_uncommon"),
            Tag::Rare => String::from_str("tag_rare"),
            Tag::Negative => String::from_str("tag_negative"),
            Tag::Foil => String::from_str("tag_foil"),
            Tag::Holographic => String::from_str("tag_holo"),
            Tag::Polychrome => String::from_str("tag_polychrome"),
            Tag::Investment => String::from_str("tag_investment"),
            Tag::Voucher => String::from_str("tag_voucher"),
            Tag::Boss => String::from_str("tag_boss"),
            Tag::Standard => String::from_str("tag_standard"),
            Tag::Charm => String::from_str("tag_charm"),
            Tag::Meteor => String::from_str("tag_meteor"),
            Tag::Buffoon => String::from_str("tag_buffoon"),
            Tag::Handy { .. } => String::from_str("tag_handy"),
            Tag::Ethereal => String::from_str("tag_ethereal"),
            Tag::Coupon => String::from_str("tag_coupon"),
            Tag::Double => String::from_str("tag_double"),
            Tag::Juggle => String::from_str("tag_juggle"),
            Tag::D6 => String::from_str("tag_d_six"),
            Tag::TopUp => String::from_str("tag_top_up"),
            Tag::Skip { .. } => String::from_str("tag_skip"),
            Tag::Orbital { .. } => String::from_str("tag_orbital"),
            Tag::Economy => String::from_str("tag_economy"),
            Tag::Garbage { .. } => String::from_str("tag_garbage"),
        }
    }
}

impl Translatable for Tag {
    fn translate(&self, translations: &Translations) -> Option<Translation> {
        let mut path = String::from_str("descriptions.Tag.");
        path.append(self.id().as_str());
        if let Tag::Orbital { hand } = self {
            let hand_name = match hand.translate(translations) {
                Some(t) => t.name,
                None => return None,
            };
            return translations.render(path, vec![hand_name, String::from_str("3")]);
        }
        let args: Vec<String> = match self {
            Tag::Investment => vec![String::from_str("25")],
            Tag::Handy { earnings } => vec![String::from_str("1"), decimal_string(*earnings)],
            Tag::Juggle => vec![String::from_str("3")],
            Tag::TopUp => vec![String::from_str("2")],
            Tag::Skip { earnings } => vec![String::from_str("5"), decimal_string(*earnings)],
            Tag::Garbage { earnings } => vec![String::from_str("1"), decimal_string(*earnings)],
            _ => vec![],
        };
        translations.render(path, args)
    }
}

impl Boss {
    /// The identifier in the game's files.
    pub fn id(&self) -> (r: String)
        ensures
            r@ == boss_id(*self),
    {
        match self {
            Boss::TheOx { .. } => String::from_str("bl_ox"),
            Boss::TheHook => String::from_str("bl_hook"),
            Boss::TheMouth => String::from_str("bl_mouth"),
            Boss::TheFish => String::from_str("bl_fish"),
            Boss::TheClub => String::from_str("bl_club"),
            Boss::TheManacle => String::from_str("bl_manacle"),
            Boss::TheTooth => String::from_str("bl_tooth"),
            Boss::TheWall => String::from_str("bl_wall"),
            Boss::TheHouse => String::from_str("bl_house"),
            Boss::TheMark => String::from_str("bl_mark"),
            Boss::TheWheel { .. } => String::from_str("bl_wheel"),
            Boss::TheArm => String::from_str("bl_arm"),
            Boss::ThePsychic => String::from_str("bl_psychic"),
            Boss::TheGoad => String::from_str("bl_goad"),
            Boss::TheWater => String::from_str("bl_water"),
            Boss::TheEye => String::from_str("bl_eye"),
            Boss::ThePlant => String::from_str("bl_plant"),
            Boss::TheNeedle => String::from_str("bl_needle"),
            Boss::TheHead => String::from_str("bl_head"),
            Boss::TheWindow => String::from_str("bl_window"),
            Boss::TheSerpent => String::from_str("bl_serpent"),
            Boss::ThePillar => String::from_str("bl_pillar"),
            Boss::TheFlint => String::from_str("bl_flint"),
            Boss::CeruleanBell => String::from_str("bl_final_bell"),
            Boss::VerdantLeaf => String::from_str("bl_final_leaf"),
            Boss::VioletVessel => String::from_str("bl_final_vessel"),
            Boss::AmberAcorn => String::from_str("bl_final_acorn"),
            Boss::CrimsonHeart => String::from_str("bl_final_heart"),
        }
    }
}

impl Translatable for Boss {
    fn translate(&self, translations: &Translations) -> Option<Translation> {
        let mut path = String::from_str("descriptions.Blind.");
        path.append(self.id().as_str());
        match self {
            Boss::TheOx { hand } => {
                let hand_name = match hand.translate(translations) {
                    Some(t) => t.name,
                    None => return None,
                };
                translations.render(path, vec![hand_name])
            },
            Boss::TheWheel { probability } => match translations.render(path, vec![]) {
                Some(t) => match t.text {
                    Some(text) => {
                        let mut odds = decimal_string(*probability);
                        odds.append(text.as_str());
                        Some(Translation { name: t.name, text: Some(odds) })
                    },
                    None => None,
                },
                None => None,
            },
            _ => translations.render(path, vec![]),
        }
    }
}

impl PokerHandKind {
    /// The identifier in the game's files.
    pub fn id(&self) -> (r: String)
        ensures
            r@ == poker_hand_kind_id(*self),
    {
        match self {
            PokerHandKind::HighCard => String::from_str("High Card"),
            PokerHandKind::Pair => String::from_str("Pair"),
            PokerHandKind::TwoPair => String::from_str("Two Pair"),
            PokerHandKind::ThreeOfAKind => String::from_str("Three of a Kind"),
            PokerHandKind::Straight => String::from_str("Straight"),
            PokerHandKind::Flush => String::from_str("Flush"),
            PokerHandKind::FullHouse => String::from_str("Full House"),
            PokerHandKind::FourOfAKind => String::from_str("Four of a Kind"),
            PokerHandKind::StraightFlush => String::from_str("Straight Flush"),
            PokerHandKind::FiveOfAKind => String::from_str("Five of a Kind"),
            PokerHandKind::FlushHouse => String::from_str("Flush House"),
            PokerHandKind::FlushFive => String::from_str("Flush Five"),
        }
    }
}

impl Translatable for PokerHandKind {
    fn translate(&self, translations: &Translations) -> Option<Translation> {
        let id = self.id();
        let mut name_path = String::from_str("misc.poker_hands.");
        name_path.append(id.as_str());
        let mut text_path = String::from_str("misc.poker_hand_descriptions.");
        text_path.append(id.as_str());
        let name = translations.render_single(name_path);
        let text = translations.render_single(text_path);
        match (name, text) {
            (Some(name), Some(text)) => Some(Translation { name, text: Some(text) }),
            _ => None,
        }
    }
}

impl Suit {
    /// The identifier in the game's files.
    pub fn id(&self) -> (r: String)
        ensures
            r@ == suit_id(*self),
    {
        match self {
            Suit::Spades => String::from_str("Spades"),
            Suit::Hearts => String::from_str("Hearts"),
            Suit::Clubs => String::from_str("Clubs"),
            Suit::Diamonds => String::from_str("Diamonds"),
        }
    }
}

impl Translatable for Suit {
    fn translate(&self, translations: &Translations) -> Option<Translation> {
        let mut path = String::from_str("misc.suits_plural.");
        path.append(self.id().as_str());
        translations.render(path, vec![])
    }
}

impl Rank {
    /// The identifier in the game's files.
    pub fn id(&self) -> (r: String)
        ensures
            r@ == rank_id(*self),
    {
        match self {
            Rank::Ace => String::from_str("Ace"),
            Rank::Two => String::from_str("2"),
            Rank::Three => String::from_str("3"),
            Rank::Four => String::from_str("4"),
            Rank::Five => String::from_str("5"),
            Rank::Six => String::from_str("6"),
            Rank::Seven => String::from_str("7"),
            Rank::Eight => String::from_str("8"),
            Rank::Nine => String::from_str("9"),
            Rank::Ten => String::from_str("10"),
            Rank::Jack => String::from_str("Jack"),
            Rank::Queen => String::from_str("Queen"),
            Rank::King => String::from_str("King"),
        }
    }
}

impl Translatable for Rank {
    fn translate(&self, translations: &Translations) -> Option<Translation> {
        let mut path = String::from_str("misc.ranks.");
        path.append(self.id().as_str());
        translations.render(path, vec![])
    }
}

impl Enhancement {
    /// The identifier in the game's files.
    pub fn id(&self) -> (r: String)
        ensures
            r@ == enhancement_id(*self),
    {
        match self {
            Enhancement::Wild => String::from_str("m_wild"),
            Enhancement::Glass { .. } => String::from_str("m_glass"),
            Enhancement::Bonus => String::from_str("m_bonus"),
            Enhancement::Mult => String::from_str("m_mult"),
            Enhancement::Lucky { .. } => String::from_str("m_lucky"),
            Enhancement::Steel => String::from_str("m_steel"),
            Enhancement::Stone => String::from_str("m_stone"),
            Enhancement::Gold => String::from_str("m_gold"),
        }
    }
}

impl Translatable for Enhancement {
    fn translate(&self, translations: &Translations) -> Option<Translation> {
        let mut path = String::from_str("descriptions.Enhanced.");
        path.append(self.id().as_str());
        let args: Vec<String> = match self {
            Enhancement::Glass { probability } => vec![String::from_str("2"), decimal_string(*probability), String::from_str("4")],
            Enhancement::Mult => vec![String::from_str("4")],
            Enhancement::Lucky { probability } => vec![decimal_string(*probability), String::from_str("20"), String::from_str("20"), decimal_string(*probability), String::from_str("20"), String::from_str("20")],
            Enhancement::Steel => vec![String::from_str("1.5")],
            Enhancement::Stone => vec![String::from_str("50")],
            Enhancement::Gold => vec![String::from_str("3")],
            _ => vec![],
        };
        translations.render(path, args)
    }
}

impl Seal {
    /// The identifier in the game's files.
    pub fn id(&self) -> (r: String)
        ensures
            r@ == seal_id(*self),
    {
        match self {
            Seal::Blue => String::from_str("blue_seal"),
            Seal::Red => String::from_str("red_seal"),
            Seal::Purple => String::from_str("purple_seal"),
            Seal::Gold => String::from_str("gold_seal"),
        }
    }
}

impl Translatable for Seal {
    fn translate(&self, translations: &Translations) -> Option<Translation> {
        let mut path = String::from_str("descriptions.Other.");
        path.append(self.id().as_str());
        translations.render(path, vec![])
    }
}

impl CardEdition {
    /// The identifier in the game's files.
    pub fn id(&self) -> (r: String)
        ensures
            r@ == card_edition_id(*self),
    {
        match self {
            CardEdition::Base => String::from_str("e_base"),
            CardEdition::Foil => String::from_str("e_foil"),
            CardEdition::Holographic => String::from_str("e_holo"),
            CardEdition::Polychrome => String::from_str("e_polychrome"),
        }
    }
}

impl Translatable for CardEdition {
    fn translate(&self, translations: &Translations) -> Option<Translation> {
        let mut path = String::from_str("misc.v_dictionary.");
        path.append(self.id().as_str());
        let args: Vec<String> = match self {
            CardEdition::Foil => vec![String::from_str("10")],
            CardEdition::Holographic => vec![String::from_str("10")],
            CardEdition::Polychrome => vec![String::from_str("1.5")],
            _ => vec![],
        };
        translations.render(path, args)
    }
}

impl PlanetKind {
    /// The identifier in the game's files.
    pub fn id(&self) -> (r: String)
        ensures
            r@ == planet_kind_id(*self),
    {
        match self {
            PlanetKind::Mercury { .. } => String::from_str("c_mercury"),
            PlanetKind::Venus { .. } => String::from_str("c_venus"),
            PlanetKind::Earth { .. } => String::from_str("c_earth"),
            PlanetKind::Mars { .. } => String::from_str("c_mars"),
            PlanetKind::Jupiter { .. } => String::from_str("c_jupiter"),
            PlanetKind::Saturn { .. } => String::from_str("c_saturn"),
            PlanetKind::Uranus { .. } => String::from_str("c_uranus"),
            PlanetKind::Neptune { .. } => String::from_str("c_neptune"),
            PlanetKind::Pluto { .. } => String::from_str("c_pluto"),
            PlanetKind::PlanetX { .. } => String::from_str("c_planet_x"),
            PlanetKind::Ceres { .. } => String::from_str("c_ceres"),
            PlanetKind::Eris { .. } => String::from_str("c_eris"),
        }
    }
}

impl Translatable for PlanetKind {
    fn translate(&self, translations: &Translations) -> Option<Translation> {
        let mut path = String::from_str("descriptions.Planet.");
        path.append(self.id().as_str());
        let args: Vec<String> = match self {
            PlanetKind::Mercury { current_level } => vec![decimal_string(*current_level), String::from_str("Pair"), String::from_str("1"), String::from_str("15")],
            PlanetKind::Venus { current_level } => vec![decimal_string(*current_level), String::from_str("Three of a Kind"), String::from_str("2"), String::from_str("20")],
            PlanetKind::Earth { current_level } => vec![decimal_string(*current_level), String::from_str("Full House"), String::from_str("2"), String::from_str("25")],
            PlanetKind::Mars { current_level } => vec![decimal_string(*current_level), String::from_str("Four of a Kind"), String::from_str("3"), String::from_str("30")],
            PlanetKind::Jupiter { current_level } => vec![decimal_string(*current_level), String::from_str("Flush"), String::from_str("2"), String::from_str("15")],
            PlanetKind::Saturn { current_level } => vec![decimal_string(*current_level), String::from_str("Saturn"), String::from_str("3"), String::from_str("30")],
            PlanetKind::Uranus { current_level } => vec![decimal_string(*current_level), String::from_str("Two Pair"), String::from_str("1"), String::from_str("20")],
            PlanetKind::Neptune { current_level } => vec![decimal_string(*current_level), String::from_str("Two Pair"), String::from_str("4"), String::from_str("40")],
            PlanetKind::Pluto { current_level } => vec![decimal_string(*current_level), String::from_str("High Card"), String::from_str("1"), String::from_str("10")],
            PlanetKind::PlanetX { current_level } => vec![decimal_string(*current_level), String::from_str("Five of a Kind"), String::from_str("3"), String::from_str("35")],
            PlanetKind::Ceres { current_level } => vec![decimal_string(*current_level), String::from_str("Flush House"), String::from_str("4"), String::from_str("40")],
            PlanetKind::Eris { current_level } => vec![decimal_string(*current_level), String::from_str("Flush Fives"), String::from_str("3"), String::from_str("50")],
        };
        translations.render(path, args)
    }
}

impl TarotKind {
    /// The identifier in the game's files.
    pub fn id(&self) -> (r: String)
        ensures
            r@ == tarot_kind_id(*self),
    {
        match self {
            TarotKind::Fool => String::from_str("c_fool"),
            TarotKind::Magician => String::from_str("c_magician"),
            TarotKind::HighPriestess => String::from_str("c_high_priestess"),
            TarotKind::Empress => String::from_str("c_empress"),
            TarotKind::Emperor => String::from_str("c_emperor"),
            TarotKind::Heirophant => String::from_str("c_heirophant"),
            TarotKind::Lovers => String::from_str("c_lovers"),
            TarotKind::Chariot => String::from_str("c_chariot"),
            TarotKind::Justice => String::from_str("c_justice"),
            TarotKind::Hermit => String::from_str("c_hermit"),
            TarotKind::WheelOfFortune { .. } => String::from_str("c_wheel_of_fortune"),
            TarotKind::Strength => String::from_str("c_strength"),
            TarotKind::HangedMan => String::from_str("c_hanged_man"),
            TarotKind::Death => String::from_str("c_death"),
            TarotKind::Temperance { .. } => String::from_str("c_temperance"),
            TarotKind::Devil => String::from_str("c_devil"),
            TarotKind::Tower => String::from_str("c_tower"),
            TarotKind::Star => String::from_str("c_star"),
            TarotKind::Moon => String::from_str("c_moon"),
            TarotKind::Sun => String::from_str("c_sun"),
            TarotKind::Judgement => String::from_str("c_judgement"),
            TarotKind::World => String::from_str("c_world"),
        }
    }
}

impl Translatable for TarotKind {
    fn translate(&self, translations: &Translations) -> Option<Translation> {
        let mut path = String::from_str("descriptions.Tarot.");
        path.append(self.id().as_str());
        let args: Vec<String> = match self {
            TarotKind::Magician => vec![String::from_str("2"), String::from_str("Lucky Cards")],
            TarotKind::HighPriestess => vec![String::from_str("2")],
            TarotKind::Empress => vec![String::from_str("2"), String::from_str("Mult Cards")],
            TarotKind::Emperor => vec![String::from_str("2")],
            TarotKind::Heirophant => vec![String::from_str("2"), String::from_str("Bonus Cards")],
            TarotKind::Lovers => vec![String::from_str("1"), String::from_str("Wild Card")],
            TarotKind::Chariot => vec![String::from_str("1"), String::from_str("Steel Cards")],
            TarotKind::Justice => vec![String::from_str("1"), String::from_str("Glass Card")],
            TarotKind::Hermit => vec![String::from_str("20")],
            TarotKind::WheelOfFortune { probability } => vec![decimal_string(*probability)],
            TarotKind::Strength => vec![String::from_str("2")],
            TarotKind::HangedMan => vec![String::from_str("2")],
            TarotKind::Temperance { earnings } => vec![decimal_string(*earnings)],
            TarotKind::Devil => vec![String::from_str("3"), String::from_str("Gold Card")],
            TarotKind::Tower => vec![String::from_str("3"), String::from_str("Stone Card")],
            TarotKind::Star => vec![String::from_str("3"), String::from_str("Diamonds")],
            TarotKind::Moon => vec![String::from_str("3"), String::from_str("Clubs")],
            TarotKind::Sun => vec![String::from_str("3"), String::from_str("Hearts")],
            TarotKind::World => vec![String::from_str("3"), String::from_str("Spades")],
            _ => vec![],
        };
        translations.render(path, args)
    }
}

impl SpectralKind {
    /// The identifier in the game's files.
    pub fn id(&self) -> (r: String)
        ensures
            r@ == spectral_kind_id(*self),
    {
        match self {
            SpectralKind::Familiar => String::from_str("c_familiar"),
            SpectralKind::Grim => String::from_str("c_grim"),
            SpectralKind::Incantation => String::from_str("c_incantation"),
            SpectralKind::Talisman => String::from_str("c_talisman"),
            SpectralKind::Aura => String::from_str("c_aura"),
            SpectralKind::Wraith => String::from_str("c_wraith"),
            SpectralKind::Sigil => String::from_str("c_sigil"),
            SpectralKind::Ouija => String::from_str("c_ouija"),
            SpectralKind::Ectoplasm { .. } => String::from_str("c_ectoplasm"),
            SpectralKind::Immolate => String::from_str("c_immolate"),
            SpectralKind::Ankh => String::from_str("c_ankh"),
            SpectralKind::DejaVu => String::from_str("c_deja_vu"),
            SpectralKind::Hex => String::from_str("c_hex"),
            SpectralKind::Trance => String::from_str("c_trance"),
            SpectralKind::Medium => String::from_str("c_medium"),
            SpectralKind::Cryptid => String::from_str("c_cryptid"),
            SpectralKind::TheSoul => String::from_str("c_soul"),
            SpectralKind::BlackHole => String::from_str("c_black_hole"),
        }
    }
}

impl Translatable for SpectralKind {
    fn translate(&self, translations: &Translations) -> Option<Translation> {
        let mut path = String::from_str("descriptions.Spectral.");
        path.append(self.id().as_str());
        let args: Vec<String> = match self {
            SpectralKind::Familiar => vec![String::from_str("3")],
            SpectralKind::Grim => vec![String::from_str("3")],
            SpectralKind::Incantation => vec![String::from_str("3")],
            SpectralKind::Ectoplasm { hand_size_penalty } => vec![decimal_string(*hand_size_penalty)],
            SpectralKind::Immolate => vec![String::from_str("5")],
            SpectralKind::Cryptid => vec![String::from_str("2")],
            _ => vec![],
        };
        translations.render(path, args)
    }
}

impl VoucherKind {
    /// The identifier in the game's files.
    pub fn id(&self) -> (r: String)
        ensures
            r@ == voucher_kind_id(*self),
    {
        match self {
            VoucherKind::Blank => String::from_str("v_blank"),
            VoucherKind::Antimatter => String::from_str("v_antimatter"),
            VoucherKind::ClearanceSale => String::from_str("v_clearance_sale"),
            VoucherKind::Liquidation => String::from_str("v_liquidation"),
            VoucherKind::CrystalBall => String::from_str("v_crystal_ball"),
            VoucherKind::OmenGlobe => String::from_str("v_omen_globe"),
            VoucherKind::DirectorsCut => String::from_str("v_directors_cut"),
            VoucherKind::Retcon => String::from_str("v_retcon"),
            VoucherKind::Hone => String::from_str("v_hone"),
            VoucherKind::GlowUp => String::from_str("v_glow_up"),
            VoucherKind::Grabber => String::from_str("v_grabber"),
            VoucherKind::NachoTong => String::from_str("v_nacho_tong"),
            VoucherKind::Hieroglyph => String::from_str("v_hieroglyph"),
            VoucherKind::Petroglyph => String::from_str("v_petroglyph"),
            VoucherKind::MagicTrick => String::from_str("v_magic_trick"),
            VoucherKind::Illusion => String::from_str("v_illusion"),
            VoucherKind::SeedMoney => String::from_str("v_seed_money"),
            VoucherKind::MoneyTree => String::from_str("v_money_tree"),
            VoucherKind::Telescope => String::from_str("v_telescope"),
            VoucherKind::Observatory => String::from_str("v_observatory"),
            VoucherKind::Overstock => String::from_str("v_overstock_norm"),
            VoucherKind::OverstockPlus => String::from_str("v_overstock_plus"),
            VoucherKind::PaintBrush => String::from_str("v_paint_brush"),
            VoucherKind::Palette => String::from_str("v_palette"),
            VoucherKind::PlanetMerchant => String::from_str("v_planet_merchant"),
            VoucherKind::PlanetTycoon => String::from_str("v_planet_tycoon"),
            VoucherKind::Wasteful => String::from_str("v_wasteful"),
            VoucherKind::Recyclomancy => String::from_str("v_recyclomancy"),
            VoucherKind::RerollSurplus => String::from_str("v_reroll_surplus"),
            VoucherKind::RerollGlut => String::from_str("v_reroll_glut"),
            VoucherKind::TarotMerchant => String::from_str("v_tarot_merchant"),
            VoucherKind::TarotTycoon => String::from_str("v_tarot_tycoon"),
        }
    }
}

impl Translatable for VoucherKind {
    fn translate(&self, translations: &Translations) -> Option<Translation> {
        let mut path = String::from_str("misc.Voucher.");
        path.append(self.id().as_str());
        let args: Vec<String> = match self {
            VoucherKind::ClearanceSale => vec![String::from_str("25")],
            VoucherKind::Liquidation => vec![String::from_str("50")],
            VoucherKind::DirectorsCut => vec![String::from_str("10")],
            VoucherKind::Retcon => vec![String::from_str("10")],
            VoucherKind::Hone => vec![String::from_str("2")],
            VoucherKind::GlowUp => vec![String::from_str("4")],
            VoucherKind::Grabber => vec![String::from_str("1")],
            VoucherKind::NachoTong => vec![String::from_str("1")],
            VoucherKind::Hieroglyph => vec![String::from_str("1"), String::from_str("1")],
            VoucherKind::Petroglyph => vec![String::from_str("1"), String::from_str("1")],
            VoucherKind::SeedMoney => vec![String::from_str("10")],
            VoucherKind::MoneyTree => vec![String::from_str("20")],
            VoucherKind::Telescope => vec![String::from_str("20")],
            VoucherKind::Observatory => vec![String::from_str("1.5")],
            VoucherKind::PaintBrush => vec![String::from_str("1")],
            VoucherKind::Palette => vec![String::from_str("1")],
            VoucherKind::PlanetMerchant => vec![String::from_str("2")],
            VoucherKind::PlanetTycoon => vec![String::from_str("4")],
            VoucherKind::Wasteful => vec![String::from_str("1")],
            VoucherKind::Recyclomancy => vec![String::from_str("1")],
            VoucherKind::RerollSurplus => vec![String::from_str("2")],
            VoucherKind::RerollGlut => vec![String::from_str("2")],
            VoucherKind::TarotMerchant => vec![String::from_str("2")],
            VoucherKind::TarotTycoon => vec![String::from_str("4")],
            _ => vec![],
        };
        translations.render(path, args)
    }
}
} // verus!
