//! The game's catalog values. The core carries them through without reading them, except
//! where a rule of the session depends on one.
use vstd::prelude::*;
use crate::link::{trim_str, trimmed};

verus! {

/// A starting deck.
#[derive(Clone, Copy, Debug, PartialEq, Eq)]
pub enum Deck {
    Red,
    Blue,
    Yellow,
    Green,
    Black,
    Magic,
    Nebula,
    GhostDeck,
    Abandoned,
    Checkered,
    Zodiac,
    Painted,
    Anaglyph,
    Plasma,
    Erratic,
}

/// A tag, won by skipping a blind.
#[derive(Clone, Copy, Debug, PartialEq, Eq)]
pub enum Tag {
    Uncommon,
    Rare,
    Negative,
    Foil,
    Holographic,
    Polychrome,
    Investment,
    Voucher,
    Boss,
    Standard,
    Charm,
    Meteor,
    Buffoon,
    Handy { earnings: u64 },
    Ethereal,
    Coupon,
    Double,
    Juggle,
    D6,
    TopUp,
    Skip { earnings: u64 },
    Orbital { hand: PokerHandKind },
    Economy,
    Garbage { earnings: u64 },
}

/// A boss blind.
#[derive(Clone, Copy, Debug, PartialEq, Eq)]
pub enum Boss {
    TheOx { hand: PokerHandKind },
    TheHook,
    TheMouth,
    TheFish,
    TheClub,
    TheManacle,
    TheTooth,
    TheWall,
    TheHouse,
    TheMark,
    TheWheel { probability: u64 },
    TheArm,
    ThePsychic,
    TheGoad,
    TheWater,
    TheEye,
    ThePlant,
    TheNeedle,
    TheHead,
    TheWindow,
    TheSerpent,
    ThePillar,
    TheFlint,
    CeruleanBell,
    VerdantLeaf,
    VioletVessel,
    AmberAcorn,
    CrimsonHeart,
}

/// A kind of poker hand.
#[derive(Clone, Copy, Debug, PartialEq, Eq)]
pub enum PokerHandKind {
    HighCard,
    Pair,
    TwoPair,
    ThreeOfAKind,
    Straight,
    Flush,
    FullHouse,
    FourOfAKind,
    StraightFlush,
    FiveOfAKind,
    FlushHouse,
    FlushFive,
}

/// A card suit.
#[derive(Clone, Copy, Debug, PartialEq, Eq)]
pub enum Suit {
    Spades,
    Hearts,
    Clubs,
    Diamonds,
}

/// A card rank.
#[derive(Clone, Copy, Debug, PartialEq, Eq)]
pub enum Rank {
    Ace,
    Two,
    Three,
    Four,
    Five,
    Six,
    Seven,
    Eight,
    Nine,
    Ten,
    Jack,
    Queen,
    King,
}

/// An enhancement of a playing card.
#[derive(Clone, Copy, Debug, PartialEq, Eq)]
pub enum Enhancement {
    Wild,
    Glass { probability: u64 },
    Bonus,
    Mult,
    Lucky { probability: u64 },
    Steel,
    Stone,
    Gold,
}

/// A seal on a playing card.
#[derive(Clone, Copy, Debug, PartialEq, Eq)]
pub enum Seal {
    Blue,
    Red,
    Purple,
    Gold,
}

/// The edition of a card.
#[derive(Clone, Copy, Debug, PartialEq, Eq)]
pub enum CardEdition {
    Base,
    Foil,
    Holographic,
    Polychrome,
}

/// A planet card, with the level of the hand it improves.
#[derive(Clone, Copy, Debug, PartialEq, Eq)]
pub enum PlanetKind {
    Mercury { current_level: u64 },
    Venus { current_level: u64 },
    Earth { current_level: u64 },
    Mars { current_level: u64 },
    Jupiter { current_level: u64 },
    Saturn { current_level: u64 },
    Uranus { current_level: u64 },
    Neptune { current_level: u64 },
    Pluto { current_level: u64 },
    PlanetX { current_level: u64 },
    Ceres { current_level: u64 },
    Eris { current_level: u64 },
}

/// A tarot card.
#[derive(Clone, Copy, Debug, PartialEq, Eq)]
pub enum TarotKind {
    Fool,
    Magician,
    HighPriestess,
    Empress,
    Emperor,
    Heirophant,
    Lovers,
    Chariot,
    Justice,
    Hermit,
    WheelOfFortune { probability: u64 },
    Strength,
    HangedMan,
    Death,
    Temperance { earnings: u64 },
    Devil,
    Tower,
    Star,
    Moon,
    Sun,
    Judgement,
    World,
}

/// A spectral card.
#[derive(Clone, Copy, Debug, PartialEq, Eq)]
pub enum SpectralKind {
    Familiar,
    Grim,
    Incantation,
    Talisman,
    Aura,
    Wraith,
    Sigil,
    Ouija,
    Ectoplasm { hand_size_penalty: u64 },
    Immolate,
    Ankh,
    DejaVu,
    Hex,
    Trance,
    Medium,
    Cryptid,
    TheSoul,
    BlackHole,
}

/// A kind of booster pack: its family and its size.
#[derive(Clone, Copy, Debug, PartialEq, Eq)]
pub enum BoosterPackKind {
    ArcanaNormal,
    ArcanaMega,
    ArcanaJumbo,
    BuffoonNormal,
    BuffoonMega,
    BuffoonJumbo,
    CelestialNormal,
    CelestialMega,
    CelestialJumbo,
    SpectralNormal,
    SpectralMega,
    SpectralJumbo,
    StandardNormal,
    StandardMega,
    StandardJumbo,
}

/// A voucher.
#[derive(Clone, Copy, Debug, PartialEq, Eq)]
pub enum VoucherKind {
    Blank,
    Antimatter,
    ClearanceSale,
    Liquidation,
    CrystalBall,
    OmenGlobe,
    DirectorsCut,
    Retcon,
    Hone,
    GlowUp,
    Grabber,
    NachoTong,
    Hieroglyph,
    Petroglyph,
    MagicTrick,
    Illusion,
    SeedMoney,
    MoneyTree,
    Telescope,
    Observatory,
    Overstock,
    OverstockPlus,
    PaintBrush,
    Palette,
    PlanetMerchant,
    PlanetTycoon,
    Wasteful,
    Recyclomancy,
    RerollSurplus,
    RerollGlut,
    TarotMerchant,
    TarotTycoon,
}
impl Boss {
    /// A final boss, met at the end of an ante's last round.
    pub open spec fn spec_is_finisher(&self) -> bool {
        ||| self is CeruleanBell
        ||| self is VerdantLeaf
        ||| self is VioletVessel
        ||| self is AmberAcorn
        ||| self is CrimsonHeart
    }

    /// Whether this is one of the five final bosses.
    pub fn is_finisher(&self) -> (r: bool)
        ensures
            r == self.spec_is_finisher(),
    {
        match self {
            Boss::CeruleanBell | Boss::VerdantLeaf | Boss::VioletVessel | Boss::AmberAcorn
            | Boss::CrimsonHeart => true,
            _ => false,
        }
    }
}

/// The stake of a run; on the wire its number, from one to eight.
#[derive(Clone, Copy, Debug, PartialEq, Eq)]
pub enum Stake {
    White,
    Red,
    Green,
    Black,
    Blue,
    Purple,
    Orange,
    Gold,
}

impl Stake {
    /// The stake's number, counted from one.
    pub open spec fn spec_number(&self) -> u8 {
        match self {
            Stake::White => 1,
            Stake::Red => 2,
            Stake::Green => 3,
            Stake::Black => 4,
            Stake::Blue => 5,
            Stake::Purple => 6,
            Stake::Orange => 7,
            Stake::Gold => 8,
        }
    }

    /// The stake's number on the wire.
    pub fn number(&self) -> (r: u8)
        ensures
            r == self.spec_number(),
            1 <= r <= 8,
    {
        match self {
            Stake::White => 1,
            Stake::Red => 2,
            Stake::Green => 3,
            Stake::Black => 4,
            Stake::Blue => 5,
            Stake::Purple => 6,
            Stake::Orange => 7,
            Stake::Gold => 8,
        }
    }

    /// The stake with number `n`, if there is one.
    pub fn from_number(n: u8) -> (r: Option<Stake>)
        ensures
            r is Some <==> 1 <= n <= 8,
            r matches Some(s) ==> s.spec_number() == n,
    {
        match n {
            1 => Some(Stake::White),
            2 => Some(Stake::Red),
            3 => Some(Stake::Green),
            4 => Some(Stake::Black),
            5 => Some(Stake::Blue),
            6 => Some(Stake::Purple),
            7 => Some(Stake::Orange),
            8 => Some(Stake::Gold),
            _ => None,
        }
    }
}

/// The seed of a run: seven bytes of text.
#[derive(Clone, Debug, PartialEq, Eq)]
pub struct Seed(String);

impl Seed {
    /// The seed's characters.
    pub closed spec fn view_text(&self) -> Seq<char> {
        self.0@
    }

    /// A seed made of `seed`, where `seed` is seven bytes long (its length as `str::len` gives it).
    pub fn new(seed: String) -> (r: Option<Seed>)
        ensures
            r is Some <==> vstd::utf8::encode_utf8(seed@).len() as usize == 7,
            r matches Some(s) ==> s.view_text() == seed@,
    {
        if seed.as_str().len() == 7 {
            Some(Seed(seed))
        } else {
            None
        }
    }

    /// The seed as the game reports it, whatever its length.
    pub fn from_game(seed: String) -> (r: Seed)
        ensures
            r.view_text() == seed@,
    {
        Seed(seed)
    }

    /// The seed's text.
    pub fn as_str(&self) -> (r: &str)
        ensures
            r@ == self.view_text(),
    {
        self.0.as_str()
    }
}

/// Where a blind stands in the ante.
#[derive(Clone, Copy, Debug, PartialEq, Eq)]
pub enum BlindState {
    Current,
    Select,
    Skipped,
    Upcoming,
    Defeated,
}

/// A real number as the game reports it (a score, a chip target, a multiplier), kept as the
/// bit pattern of its IEEE 754 double: the core passes it on and never computes with it.
#[derive(Clone, Copy, Debug, PartialEq, Eq)]
pub struct Real {
    pub bits: u64,
}

/// A playing card.
#[derive(Clone, Copy, Debug, PartialEq, Eq)]
pub struct PlayingCard {
    pub edition: Option<CardEdition>,
    pub enhancement: Option<Enhancement>,
    pub rank: Rank,
    pub suit: Suit,
    pub seal: Option<Seal>,
    pub extra_chips: u64,
}

/// A planet card, as held or sold.
#[derive(Clone, Copy, Debug, PartialEq, Eq)]
pub struct PlanetCard {
    pub kind: PlanetKind,
    pub price: u64,
    pub negative: bool,
}

/// A tarot card, as held or sold.
#[derive(Clone, Copy, Debug, PartialEq, Eq)]
pub struct TarotCard {
    pub kind: TarotKind,
    pub price: u64,
    pub negative: bool,
}

/// A spectral card, as held or sold.
#[derive(Clone, Copy, Debug, PartialEq, Eq)]
pub struct SpectralCard {
    pub kind: SpectralKind,
    pub price: u64,
    pub negative: bool,
}

/// A card in the consumable slots.
#[derive(Clone, Copy, Debug, PartialEq, Eq)]
pub enum Consumable {
    Planet(PlanetCard),
    Tarot(TarotCard),
    Spectral(SpectralCard),
}

/// What a spectral pack offers.
#[derive(Clone, Copy, Debug, PartialEq, Eq)]
pub enum SpectralOption {
    Spectral(SpectralKind),
    BlackHole,
    Soul,
}

/// What an arcana pack offers.
#[derive(Clone, Copy, Debug, PartialEq, Eq)]
pub enum TarotOption {
    Tarot(TarotKind),
    Spectral(SpectralOption),
    Soul,
}

/// What a celestial pack offers.
#[derive(Clone, Copy, Debug, PartialEq, Eq)]
pub enum PlanetOption {
    Planet(PlanetKind),
    BlackHole,
}

/// A joker, kept as the JSON text the game sent for it.
#[derive(Clone, Debug, PartialEq, Eq)]
pub struct Joker {
    pub json: String,
}

/// The kind of a joker, kept as the JSON text the game sent for it.
#[derive(Clone, Debug, PartialEq, Eq)]
pub struct JokerKind {
    pub json: String,
}

/// The catalog of everything the player can discover, kept as the JSON text the game sent.
#[derive(Clone, Debug, PartialEq, Eq)]
pub struct Collection {
    pub json: String,
}

/// What `str::to_lowercase` returns for `s`.
pub uninterp spec fn lower_of(s: Seq<char>) -> Seq<char>;

/// Relies on `str::to_lowercase`: the lowercase form of each character, in order.
#[verifier::external_body]
fn lowercase(s: &str) -> (r: String)
    ensures
        r@ == lower_of(s@),
{
    s.to_lowercase()
}

/// The name of a deck, as players read it.
pub open spec fn deck_label(x: Deck) -> Seq<char> {
    match x {
        Deck::Red => "Red"@,
        Deck::Blue => "Blue"@,
        Deck::Yellow => "Yellow"@,
        Deck::Green => "Green"@,
        Deck::Black => "Black"@,
        Deck::Magic => "Magic"@,
        Deck::Nebula => "Nebula"@,
        Deck::GhostDeck => "Ghost"@,
        Deck::Abandoned => "Abandoned"@,
        Deck::Checkered => "Checkered"@,
        Deck::Zodiac => "Zodiac"@,
        Deck::Painted => "Painted"@,
        Deck::Anaglyph => "Anaglyph"@,
        Deck::Plasma => "Plasma"@,
        Deck::Erratic => "Erratic"@,
    }
}

/// The deck a lowercase name stands for.
pub open spec fn deck_named(s: Seq<char>) -> Option<Deck> {
    if s == "red"@ {
        Some(Deck::Red)
    } else if s == "blue"@ {
        Some(Deck::Blue)
    } else if s == "yellow"@ {
        Some(Deck::Yellow)
    } else if s == "green"@ {
        Some(Deck::Green)
    } else if s == "black"@ {
        Some(Deck::Black)
    } else if s == "magic"@ {
        Some(Deck::Magic)
    } else if s == "nebula"@ {
        Some(Deck::Nebula)
    } else if s == "ghost"@ {
        Some(Deck::GhostDeck)
    } else if s == "abandoned"@ {
        Some(Deck::Abandoned)
    } else if s == "checkered"@ {
        Some(Deck::Checkered)
    } else if s == "zodiac"@ {
        Some(Deck::Zodiac)
    } else if s == "painted"@ {
        Some(Deck::Painted)
    } else if s == "anaglyph"@ {
        Some(Deck::Anaglyph)
    } else if s == "plasma"@ {
        Some(Deck::Plasma)
    } else if s == "erratic"@ {
        Some(Deck::Erratic)
    } else {
        None
    }
}

/// The message of a deck name that stands for none.
pub const INVALID_DECK: &'static str = "Invalid deck. Valid options are: Red, Blue, Yellow, Green, Black, Magic, Nebula, Ghost, Abandoned, Checkered, Zodiac, Painted, Anaglyph, Plasma, Erratic";

impl Deck {
    /// The deck's name, as players read it.
    pub fn label(&self) -> (r: String)
        ensures
            r@ == deck_label(*self),
    {
        match self {
            Deck::Red => String::from_str("Red"),
            Deck::Blue => String::from_str("Blue"),
            Deck::Yellow => String::from_str("Yellow"),
            Deck::Green => String::from_str("Green"),
            Deck::Black => String::from_str("Black"),
            Deck::Magic => String::from_str("Magic"),
            Deck::Nebula => String::from_str("Nebula"),
            Deck::GhostDeck => String::from_str("Ghost"),
            Deck::Abandoned => String::from_str("Abandoned"),
            Deck::Checkered => String::from_str("Checkered"),
            Deck::Zodiac => String::from_str("Zodiac"),
            Deck::Painted => String::from_str("Painted"),
            Deck::Anaglyph => String::from_str("Anaglyph"),
            Deck::Plasma => String::from_str("Plasma"),
            Deck::Erratic => String::from_str("Erratic"),
        }
    }

    /// The deck a lowercase name stands for; any other name is refused.
    pub fn from_lowercase(name: &str) -> (r: Result<Deck, String>)
        ensures
            match deck_named(name@) {
                Some(x) => r == Ok::<Deck, String>(x),
                None => r matches Err(m) && m@ == INVALID_DECK@,
            },
    {
        let s = String::from_str(name);
        if s == String::from_str("red") {
            Ok(Deck::Red)
        } else if s == String::from_str("blue") {
            Ok(Deck::Blue)
        } else if s == String::from_str("yellow") {
            Ok(Deck::Yellow)
        } else if s == String::from_str("green") {
            Ok(Deck::Green)
        } else if s == String::from_str("black") {
            Ok(Deck::Black)
        } else if s == String::from_str("magic") {
            Ok(Deck::Magic)
        } else if s == String::from_str("nebula") {
            Ok(Deck::Nebula)
        } else if s == String::from_str("ghost") {
            Ok(Deck::GhostDeck)
        } else if s == String::from_str("abandoned") {
            Ok(Deck::Abandoned)
        } else if s == String::from_str("checkered") {
            Ok(Deck::Checkered)
        } else if s == String::from_str("zodiac") {
            Ok(Deck::Zodiac)
        } else if s == String::from_str("painted") {
            Ok(Deck::Painted)
        } else if s == String::from_str("anaglyph") {
            Ok(Deck::Anaglyph)
        } else if s == String::from_str("plasma") {
            Ok(Deck::Plasma)
        } else if s == String::from_str("erratic") {
            Ok(Deck::Erratic)
        } else {
            Err(String::from_str(INVALID_DECK))
        }
    }

    /// The deck that `text` names, in any case and with surrounding whitespace.
    pub fn parse(text: &str) -> (r: Result<Deck, String>)
        ensures
            match deck_named(lower_of(trimmed(text@))) {
                Some(x) => r == Ok::<Deck, String>(x),
                None => r matches Err(m) && m@ == INVALID_DECK@,
            },
    {
        let lowered = lowercase(trim_str(text));
        Deck::from_lowercase(lowered.as_str())
    }
}

/// The name of a stake, as players read it.
pub open spec fn stake_label(x: Stake) -> Seq<char> {
    match x {
        Stake::White => "White"@,
        Stake::Red => "Red"@,
        Stake::Green => "Green"@,
        Stake::Black => "Black"@,
        Stake::Blue => "Blue"@,
        Stake::Purple => "Purple"@,
        Stake::Orange => "Orange"@,
        Stake::Gold => "Gold"@,
    }
}

/// The stake a lowercase name stands for.
pub open spec fn stake_named(s: Seq<char>) -> Option<Stake> {
    if s == "white"@ {
        Some(Stake::White)
    } else if s == "red"@ {
        Some(Stake::Red)
    } else if s == "green"@ {
        Some(Stake::Green)
    } else if s == "black"@ {
        Some(Stake::Black)
    } else if s == "blue"@ {
        Some(Stake::Blue)
    } else if s == "purple"@ {
        Some(Stake::Purple)
    } else if s == "orange"@ {
        Some(Stake::Orange)
    } else if s == "gold"@ {
        Some(Stake::Gold)
    } else {
        None
    }
}

/// The message of a stake name that stands for none.
pub const INVALID_STAKE: &'static str = "Invalid stake. Valid options are: White, Red, Green, Black, Blue, Purple, Orange, Gold";

impl Stake {
    /// The stake's name, as players read it.
    pub fn label(&self) -> (r: String)
        ensures
            r@ == stake_label(*self),
    {
        match self {
            Stake::White => String::from_str("White"),
            Stake::Red => String::from_str("Red"),
            Stake::Green => String::from_str("Green"),
            Stake::Black => String::from_str("Black"),
            Stake::Blue => String::from_str("Blue"),
            Stake::Purple => String::from_str("Purple"),
            Stake::Orange => String::from_str("Orange"),
            Stake::Gold => String::from_str("Gold"),
        }
    }

    /// The stake a lowercase name stands for; any other name is refused.
    pub fn from_lowercase(name: &str) -> (r: Result<Stake, String>)
        ensures
            match stake_named(name@) {
                Some(x) => r == Ok::<Stake, String>(x),
                None => r matches Err(m) && m@ == INVALID_STAKE@,
            },
    {
        let s = String::from_str(name);
        if s == String::from_str("white") {
            Ok(Stake::White)
        } else if s == String::from_str("red") {
            Ok(Stake::Red)
        } else if s == String::from_str("green") {
            Ok(Stake::Green)
        } else if s == String::from_str("black") {
            Ok(Stake::Black)
        } else if s == String::from_str("blue") {
            Ok(Stake::Blue)
        } else if s == String::from_str("purple") {
            Ok(Stake::Purple)
        } else if s == String::from_str("orange") {
            Ok(Stake::Orange)
        } else if s == String::from_str("gold") {
            Ok(Stake::Gold)
        } else {
            Err(String::from_str(INVALID_STAKE))
        }
    }

    /// The stake that `text` names, in any case and with surrounding whitespace.
    pub fn parse(text: &str) -> (r: Result<Stake, String>)
        ensures
            match stake_named(lower_of(trimmed(text@))) {
                Some(x) => r == Ok::<Stake, String>(x),
                None => r matches Err(m) && m@ == INVALID_STAKE@,
            },
    {
        let lowered = lowercase(trim_str(text));
        Stake::from_lowercase(lowered.as_str())
    }
}

} // verus!
