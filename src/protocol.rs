//! What travels in frames: the kind tag of each request and reply, the requests, and the
//! snapshots and results the game sends back.
use vstd::prelude::*;
use crate::catalog::{
    Boss, BlindState, BoosterPackKind, Collection, Consumable, Deck, Joker, JokerKind,
    PlanetCard, PlayingCard, PokerHandKind, Real, Seed, SpectralCard, Stake, Tag, TarotCard,
    VoucherKind,
};

verus! {

/// A value that travels in a frame under a fixed kind tag.
pub trait Packet {
    /// The kind tag.
    spec fn spec_kind() -> Seq<char>;

    /// The kind tag.
    fn kind() -> (r: String)
        ensures
            r@ == Self::spec_kind(),
    ;
}

/// A reply of the game.
pub trait Response: Packet {

}

/// A request to the game; its reply has the type `Expect`, wrapped in the game's own verdict
/// (`Ok` with the reply, or `Err` with the game's reason for refusing).
pub trait Request: Packet {
    type Expect: Response;
}

/// A hand of the current round, slot by slot.
#[derive(Clone, Copy, Debug, PartialEq, Eq)]
pub struct HandCard {
    pub card: Option<PlayingCard>,
    pub selected: bool,
}

/// A poker hand with its level and its base score.
#[derive(Clone, Copy, Debug, PartialEq, Eq)]
pub struct PokerHand {
    pub kind: PokerHandKind,
    pub level: u64,
    pub chips: u64,
    pub mult: u64,
}

/// A poker hand of the run, and how often it was played.
#[derive(Clone, Copy, Debug, PartialEq, Eq)]
pub struct CurrentPokerHand {
    pub hand: PokerHand,
    pub played: u64,
}

/// Every poker hand of the run; the last three only once discovered.
#[derive(Clone, Copy, Debug, PartialEq, Eq)]
pub struct CurrentPokerHands {
    pub high_card: CurrentPokerHand,
    pub pair: CurrentPokerHand,
    pub two_pair: CurrentPokerHand,
    pub three_of_a_kind: CurrentPokerHand,
    pub straight: CurrentPokerHand,
    pub flush: CurrentPokerHand,
    pub full_house: CurrentPokerHand,
    pub four_of_a_kind: CurrentPokerHand,
    pub straight_flush: CurrentPokerHand,
    pub five_of_a_kind: Option<CurrentPokerHand>,
    pub flush_house: Option<CurrentPokerHand>,
    pub flush_fives: Option<CurrentPokerHand>,
}

/// The blind being played.
#[derive(Clone, Copy, Debug, PartialEq, Eq)]
pub enum CurrentBlind {
    Small { chips: u32 },
    Big { chips: u32 },
    Boss { kind: Boss, chips: u32 },
}

/// The small blind of the ante.
#[derive(Clone, Copy, Debug, PartialEq, Eq)]
pub struct SmallBlindChoice {
    pub state: BlindState,
    pub chips: Real,
    pub tag: Tag,
}

/// The big blind of the ante.
#[derive(Clone, Copy, Debug, PartialEq, Eq)]
pub struct BigBlindChoice {
    pub state: BlindState,
    pub chips: Real,
    pub tag: Tag,
}

/// The boss blind of the ante.
#[derive(Clone, Copy, Debug, PartialEq, Eq)]
pub struct BossBlindChoice {
    pub kind: Boss,
    pub state: BlindState,
    pub chips: Real,
}

/// The three blinds of the ante.
#[derive(Clone, Copy, Debug, PartialEq, Eq)]
pub struct BlindChoices {
    pub small: SmallBlindChoice,
    pub big: BigBlindChoice,
    pub boss: BossBlindChoice,
}

/// Figures of the whole run.
#[derive(Clone, Debug, PartialEq, Eq)]
pub struct RunInfo {
    pub poker_hands: CurrentPokerHands,
    pub blinds: BlindChoices,
    pub vouchers_redeemed: Vec<VoucherKind>,
    pub stake: Stake,
}

/// The state shared by every screen of a run.
#[derive(Clone, Debug, PartialEq, Eq)]
pub struct HudInfo {
    pub hands: u32,
    pub discards: u32,
    pub round: u32,
    pub ante: u32,
    pub money: u32,
    pub jokers: Vec<Joker>,
    pub tags: Vec<Tag>,
    pub consumables: Vec<Consumable>,
    pub run_info: RunInfo,
}

impl HudInfo {
    /// Hands left in the round.
    pub fn hands(&self) -> (r: u32)
        ensures
            r == self.hands,
    {
        self.hands
    }

    /// Discards left in the round.
    pub fn discards(&self) -> (r: u32)
        ensures
            r == self.discards,
    {
        self.discards
    }

    /// The round number.
    pub fn round(&self) -> (r: u32)
        ensures
            r == self.round,
    {
        self.round
    }

    /// The ante number.
    pub fn ante(&self) -> (r: u32)
        ensures
            r == self.ante,
    {
        self.ante
    }

    /// The money held.
    pub fn money(&self) -> (r: u32)
        ensures
            r == self.money,
    {
        self.money
    }

    /// The jokers held, slot by slot.
    pub fn jokers(&self) -> (r: &[Joker])
        ensures
            r@ == self.jokers@,
    {
        self.jokers.as_slice()
    }

    /// The tags held.
    pub fn tags(&self) -> (r: &[Tag])
        ensures
            r@ == self.tags@,
    {
        self.tags.as_slice()
    }

    /// The consumables held, slot by slot.
    pub fn consumables(&self) -> (r: &[Consumable])
        ensures
            r@ == self.consumables@,
    {
        self.consumables.as_slice()
    }

    /// Figures of the whole run.
    pub fn run_info(&self) -> (r: &RunInfo)
        ensures
            *r == self.run_info,
    {
        &self.run_info
    }
}

/// A run saved on the main menu.
#[derive(Clone, Debug, PartialEq, Eq)]
pub struct SavedRun {
    pub deck: Deck,
    pub stake: Stake,
    pub best_hand: u64,
    pub round: u64,
    pub ante: u64,
    pub money: u64,
}

/// The main menu.
#[derive(Clone, Debug, PartialEq, Eq)]
pub struct MenuInfo {
    pub saved_run: Option<SavedRun>,
}

/// The blind selection screen.
#[derive(Clone, Debug, PartialEq, Eq)]
pub struct BlindInfo {
    pub hud: HudInfo,
    pub blinds: BlindChoices,
}

/// The score of the last hand played.
#[derive(Clone, Copy, Debug, PartialEq, Eq)]
pub struct LastScore {
    pub chips: u64,
    pub mult: Real,
}

/// The playing screen.
#[derive(Clone, Debug, PartialEq, Eq)]
pub struct PlayInfo {
    pub current_blind: CurrentBlind,
    pub hand: Vec<HandCard>,
    pub score: Real,
    pub hud: HudInfo,
    pub poker_hand: Option<PokerHand>,
    pub last_score: Option<LastScore>,
}

/// Where a sum of the round's earnings came from, as the game sends it.
#[derive(Clone, Debug, PartialEq, Eq)]
pub enum EarningKind {
    Joker(JokerKind),
    Tag(Tag),
    Blind(Vec<()>),
    Interest(Vec<()>),
    Hands(u64),
    Discards(u64),
}

/// A sum earned in the round, as the game sends it.
#[derive(Clone, Debug, PartialEq, Eq)]
pub struct Earning {
    pub kind: EarningKind,
    pub value: u64,
}

/// The summary at the end of a round.
#[derive(Clone, Debug, PartialEq, Eq)]
pub struct RoundOverviewInfo {
    pub hud: HudInfo,
    pub earnings: Vec<Earning>,
    pub total_earned: u64,
}

/// How a run ended.
#[derive(Clone, Copy, Debug, PartialEq, Eq)]
pub enum Outcome {
    Win,
    Loss { defeated_by: CurrentBlind, round: u64, ante: u64 },
}

/// The poker hand played most often in a run.
#[derive(Clone, Copy, Debug, PartialEq, Eq)]
pub struct MostPlayedHand {
    pub kind: PokerHandKind,
    pub times_played: u64,
}

/// The summary at the end of a run.
#[derive(Clone, Debug, PartialEq, Eq)]
pub struct GameOverviewInfo {
    pub outcome: Outcome,
    pub best_hand: Option<u64>,
    pub most_played_hand: MostPlayedHand,
    pub cards_played: u64,
    pub cards_discarded: u64,
    pub cards_purchased: u64,
    pub times_rerolled: u64,
    pub new_discoveries: u64,
    pub seed: Seed,
}

/// A card of the shop's main row.
#[derive(Clone, Debug, PartialEq, Eq)]
pub enum MainCard {
    Joker(Joker),
    Planet(PlanetCard),
    Tarot(TarotCard),
    Spectral(SpectralCard),
    Playing(PlayingCard),
}

/// A booster pack for sale.
#[derive(Clone, Copy, Debug, PartialEq, Eq)]
pub struct BoosterPack {
    pub kind: BoosterPackKind,
    pub price: u8,
}

/// A voucher for sale.
#[derive(Clone, Copy, Debug, PartialEq, Eq)]
pub struct Voucher {
    pub kind: VoucherKind,
    pub price: u8,
}

/// The shop.
#[derive(Clone, Debug, PartialEq, Eq)]
pub struct ShopInfo {
    pub hud: HudInfo,
    pub main: Vec<MainCard>,
    pub vouchers: Vec<Voucher>,
    pub boosters: Vec<BoosterPack>,
}

/// How many more picks an open booster pack allows.
#[derive(Clone, Copy, Debug, PartialEq, Eq)]
pub enum SelectionsLeft {
    One,
    Two,
}

/// A card of the hand shown while a pack is open, and whether it is a target of the next pick.
#[derive(Clone, Copy, Debug, PartialEq, Eq)]
pub struct BoosterCard {
    pub card: PlayingCard,
    pub selected: bool,
}

/// An open booster pack whose options have the type `O`. Packs that act on cards of the hand
/// show that hand; the others show none.
#[derive(Clone, Debug, PartialEq, Eq)]
pub struct OpenInfo<O> {
    pub hud: HudInfo,
    pub booster: BoosterPackKind,
    pub options: Vec<O>,
    pub selections_left: SelectionsLeft,
    pub hand: Vec<BoosterCard>,
}

/// The reply to a pick in an open pack: the pack again, the screen it returns to, or the end of
/// the run.
pub enum SelectResult<O, R> {
    Again(OpenInfo<O>),
    Done(R),
    GameOver(GameOverviewInfo),
}

/// The reply to using a consumable: the same screen, or the end of the run.
pub enum UseResult<I> {
    Again(I),
    GameOver(GameOverviewInfo),
}

/// A booster pack that was opened, by family.
#[derive(Clone, Debug, PartialEq, Eq)]
pub enum OpenedPack {
    Arcana(OpenInfo<crate::catalog::TarotOption>),
    Buffoon(OpenInfo<Joker>),
    Celestial(OpenInfo<crate::catalog::PlanetOption>),
    Spectral(OpenInfo<crate::catalog::SpectralOption>),
    Standard(OpenInfo<PlayingCard>),
}

/// The reply to buying a booster pack: the pack, opened.
#[derive(Clone, Debug, PartialEq, Eq)]
pub struct BoughtBooster {
    pub pack: OpenedPack,
}

/// The reply to skipping a blind: the blinds again, or a pack that the tag opened.
#[derive(Clone, Debug, PartialEq, Eq)]
pub enum SkipBlindResult {
    Select(BlindInfo),
    Booster(OpenedPack),
}

/// The reply to playing a hand.
#[derive(Clone, Debug, PartialEq, Eq)]
pub enum PlayResult {
    Again(PlayInfo),
    RoundOver(RoundOverviewInfo),
    GameOver(GameOverviewInfo),
}

/// The reply to a discard.
#[derive(Clone, Debug, PartialEq, Eq)]
pub enum DiscardResult {
    Again(PlayInfo),
    GameOver(GameOverviewInfo),
}

/// The screen the game shows.
#[derive(Clone, Debug, PartialEq, Eq)]
pub enum ScreenInfo {
    Menu(MenuInfo),
    SelectBlind(BlindInfo),
    Play(PlayInfo),
    RoundOverview(RoundOverviewInfo),
    Shop(ShopInfo),
    ShopOpen(OpenedPack),
    SkipOpen(OpenedPack),
    GameOver(GameOverviewInfo),
}

/// The reply to a request for the collection.
#[derive(Clone, Debug, PartialEq, Eq)]
pub struct CollectionInfo {
    pub collection: Collection,
}

/// The hand shown by a screen on which cards of the hand are picked.
#[derive(Clone, Debug, PartialEq, Eq)]
pub struct HandInfo {
    pub hand: Vec<PlayingCard>,
}

/// Moves a joker from one slot to another.
#[derive(Clone, Copy, Debug, PartialEq, Eq)]
pub struct MoveJoker {
    pub from: u32,
    pub to: u32,
}

/// Sells the joker in a slot.
#[derive(Clone, Copy, Debug, PartialEq, Eq)]
pub struct SellJoker {
    pub index: u32,
}

/// Moves a consumable from one slot to another.
#[derive(Clone, Copy, Debug, PartialEq, Eq)]
pub struct MoveConsumable {
    pub from: u32,
    pub to: u32,
}

/// Uses the consumable in a slot.
#[derive(Clone, Copy, Debug, PartialEq, Eq)]
pub struct UseConsumable {
    pub index: u32,
}

/// Sells the consumable in a slot.
#[derive(Clone, Copy, Debug, PartialEq, Eq)]
pub struct SellConsumable {
    pub index: u32,
}

/// Picks an option of an open pack.
#[derive(Clone, Copy, Debug, PartialEq, Eq)]
pub struct OpenSelect {
    pub index: u32,
}

/// Leaves an open pack without picking further.
#[derive(Clone, Copy, Debug, PartialEq, Eq)]
pub struct BoosterPackSkip;

/// Toggles which cards of the hand shown by an open pack are the targets of the next pick.
#[derive(Clone, Debug, PartialEq, Eq)]
pub struct CardBoosterPackClick {
    pub indices: Vec<u32>,
}

/// Asks which screen the game shows.
#[derive(Clone, Debug, PartialEq, Eq)]
pub struct GetScreen;

/// Starts a new run.
#[derive(Clone, Debug, PartialEq, Eq)]
pub struct StartRun {
    pub deck: Deck,
    pub stake: Stake,
    pub seed: Option<Seed>,
}

/// Continues the saved run.
#[derive(Clone, Debug, PartialEq, Eq)]
pub struct ContinueRun;

/// Plays the blind on offer.
#[derive(Clone, Debug, PartialEq, Eq)]
pub struct SelectBlind;

/// Skips the blind on offer, for its tag.
#[derive(Clone, Debug, PartialEq, Eq)]
pub struct SkipBlind;

/// Toggles the selection of the hand cards at the given slots.
#[derive(Clone, Debug, PartialEq, Eq)]
pub struct PlayClick {
    pub indices: Vec<u32>,
}

/// Plays the selected cards.
#[derive(Clone, Debug, PartialEq, Eq)]
pub struct PlayPlay;

/// Discards the selected cards.
#[derive(Clone, Debug, PartialEq, Eq)]
pub struct PlayDiscard;

/// Collects the round's earnings and goes to the shop.
#[derive(Clone, Debug, PartialEq, Eq)]
pub struct CashOut;

/// Buys a card from the shop's main row.
#[derive(Clone, Debug, PartialEq, Eq)]
pub struct ShopBuyMain {
    pub index: u8,
}

/// Buys a card from the shop's main row and uses it at once.
#[derive(Clone, Debug, PartialEq, Eq)]
pub struct ShopBuyUse {
    pub index: u8,
}

/// Buys a voucher.
#[derive(Clone, Debug, PartialEq, Eq)]
pub struct ShopBuyVoucher {
    pub index: u8,
}

/// Buys a booster pack and opens it.
#[derive(Clone, Debug, PartialEq, Eq)]
pub struct ShopBuyBooster {
    pub index: u8,
}

/// Rerolls the shop's main row.
#[derive(Clone, Debug, PartialEq, Eq)]
pub struct ShopReroll;

/// Leaves the shop for the next blind.
#[derive(Clone, Debug, PartialEq, Eq)]
pub struct ShopContinue;

/// Asks for the collection.
#[derive(Clone, Debug, PartialEq, Eq)]
pub struct GetCollection;

impl Packet for GetScreen {
    open spec fn spec_kind() -> Seq<char> {
        "screen/get"@
    }

    fn kind() -> (r: String) {
        String::from_str("screen/get")
    }
}

impl Request for GetScreen {
    type Expect = ScreenInfo;
}

impl Packet for StartRun {
    open spec fn spec_kind() -> Seq<char> {
        "main_menu/start_run"@
    }

    fn kind() -> (r: String) {
        String::from_str("main_menu/start_run")
    }
}

impl Request for StartRun {
    type Expect = BlindInfo;
}

impl Packet for ContinueRun {
    open spec fn spec_kind() -> Seq<char> {
        "main_menu/continue_run"@
    }

    fn kind() -> (r: String) {
        String::from_str("main_menu/continue_run")
    }
}

impl Request for ContinueRun {
    type Expect = ScreenInfo;
}

impl Packet for SelectBlind {
    open spec fn spec_kind() -> Seq<char> {
        "blind_select/select"@
    }

    fn kind() -> (r: String) {
        String::from_str("blind_select/select")
    }
}

impl Request for SelectBlind {
    type Expect = PlayInfo;
}

impl Packet for SkipBlind {
    open spec fn spec_kind() -> Seq<char> {
        "blind_select/skip"@
    }

    fn kind() -> (r: String) {
        String::from_str("blind_select/skip")
    }
}

impl Request for SkipBlind {
    type Expect = SkipBlindResult;
}

impl Packet for PlayClick {
    open spec fn spec_kind() -> Seq<char> {
        "play/click"@
    }

    fn kind() -> (r: String) {
        String::from_str("play/click")
    }
}

impl Request for PlayClick {
    type Expect = PlayInfo;
}

impl Packet for PlayPlay {
    open spec fn spec_kind() -> Seq<char> {
        "play/play"@
    }

    fn kind() -> (r: String) {
        String::from_str("play/play")
    }
}

impl Request for PlayPlay {
    type Expect = PlayResult;
}

impl Packet for PlayDiscard {
    open spec fn spec_kind() -> Seq<char> {
        "play/discard"@
    }

    fn kind() -> (r: String) {
        String::from_str("play/discard")
    }
}

impl Request for PlayDiscard {
    type Expect = DiscardResult;
}

impl Packet for CashOut {
    open spec fn spec_kind() -> Seq<char> {
        "overview/cash_out"@
    }

    fn kind() -> (r: String) {
        String::from_str("overview/cash_out")
    }
}

impl Request for CashOut {
    type Expect = ShopInfo;
}

impl Packet for ShopBuyMain {
    open spec fn spec_kind() -> Seq<char> {
        "shop/buymain"@
    }

    fn kind() -> (r: String) {
        String::from_str("shop/buymain")
    }
}

impl Request for ShopBuyMain {
    type Expect = ShopInfo;
}

impl Packet for ShopBuyUse {
    open spec fn spec_kind() -> Seq<char> {
        "shop/buyuse"@
    }

    fn kind() -> (r: String) {
        String::from_str("shop/buyuse")
    }
}

impl Request for ShopBuyUse {
    type Expect = ShopInfo;
}

impl Packet for ShopBuyVoucher {
    open spec fn spec_kind() -> Seq<char> {
        "shop/buyvoucher"@
    }

    fn kind() -> (r: String) {
        String::from_str("shop/buyvoucher")
    }
}

impl Request for ShopBuyVoucher {
    type Expect = ShopInfo;
}

impl Packet for ShopBuyBooster {
    open spec fn spec_kind() -> Seq<char> {
        "shop/buybooster"@
    }

    fn kind() -> (r: String) {
        String::from_str("shop/buybooster")
    }
}

impl Request for ShopBuyBooster {
    type Expect = BoughtBooster;
}

impl Packet for ShopReroll {
    open spec fn spec_kind() -> Seq<char> {
        "shop/reroll"@
    }

    fn kind() -> (r: String) {
        String::from_str("shop/reroll")
    }
}

impl Request for ShopReroll {
    type Expect = ShopInfo;
}

impl Packet for ShopContinue {
    open spec fn spec_kind() -> Seq<char> {
        "shop/continue"@
    }

    fn kind() -> (r: String) {
        String::from_str("shop/continue")
    }
}

impl Request for ShopContinue {
    type Expect = BlindInfo;
}

impl Packet for GetCollection {
    open spec fn spec_kind() -> Seq<char> {
        "collection/get"@
    }

    fn kind() -> (r: String) {
        String::from_str("collection/get")
    }
}

impl Request for GetCollection {
    type Expect = CollectionInfo;
}

impl Packet for HandInfo {
    open spec fn spec_kind() -> Seq<char> {
        "select_hand/info"@
    }

    fn kind() -> (r: String) {
        String::from_str("select_hand/info")
    }
}

impl Response for HandInfo {}

impl Packet for ScreenInfo {
    open spec fn spec_kind() -> Seq<char> {
        "screen/current"@
    }

    fn kind() -> (r: String) {
        String::from_str("screen/current")
    }
}

impl Response for ScreenInfo {}

impl Packet for BlindInfo {
    open spec fn spec_kind() -> Seq<char> {
        "blind_select/info"@
    }

    fn kind() -> (r: String) {
        String::from_str("blind_select/info")
    }
}

impl Response for BlindInfo {}

impl Packet for SkipBlindResult {
    open spec fn spec_kind() -> Seq<char> {
        "blind_select/skip_result"@
    }

    fn kind() -> (r: String) {
        String::from_str("blind_select/skip_result")
    }
}

impl Response for SkipBlindResult {}

impl Packet for PlayInfo {
    open spec fn spec_kind() -> Seq<char> {
        "play/hand"@
    }

    fn kind() -> (r: String) {
        String::from_str("play/hand")
    }
}

impl Response for PlayInfo {}

impl Packet for PlayResult {
    open spec fn spec_kind() -> Seq<char> {
        "play/play/result"@
    }

    fn kind() -> (r: String) {
        String::from_str("play/play/result")
    }
}

impl Response for PlayResult {}

impl Packet for DiscardResult {
    open spec fn spec_kind() -> Seq<char> {
        "play/discard/result"@
    }

    fn kind() -> (r: String) {
        String::from_str("play/discard/result")
    }
}

impl Response for DiscardResult {}

impl Packet for RoundOverviewInfo {
    open spec fn spec_kind() -> Seq<char> {
        "overview/round"@
    }

    fn kind() -> (r: String) {
        String::from_str("overview/round")
    }
}

impl Response for RoundOverviewInfo {}

impl Packet for GameOverviewInfo {
    open spec fn spec_kind() -> Seq<char> {
        "overview/game"@
    }

    fn kind() -> (r: String) {
        String::from_str("overview/game")
    }
}

impl Response for GameOverviewInfo {}

impl Packet for ShopInfo {
    open spec fn spec_kind() -> Seq<char> {
        "shop/info"@
    }

    fn kind() -> (r: String) {
        String::from_str("shop/info")
    }
}

impl Response for ShopInfo {}

impl Packet for BoughtBooster {
    open spec fn spec_kind() -> Seq<char> {
        "shop/bought_booster"@
    }

    fn kind() -> (r: String) {
        String::from_str("shop/bought_booster")
    }
}

impl Response for BoughtBooster {}

impl Packet for CollectionInfo {
    open spec fn spec_kind() -> Seq<char> {
        "collection/info"@
    }

    fn kind() -> (r: String) {
        String::from_str("collection/info")
    }
}

impl Response for CollectionInfo {}

impl Packet for HudInfo {
    open spec fn spec_kind() -> Seq<char> {
        "hud/info"@
    }

    fn kind() -> (r: String) {
        String::from_str("hud/info")
    }
}

impl Response for HudInfo {}
/// The decimal digit for `d`, below ten.
pub open spec fn digit_of(d: nat) -> char {
    if d == 0 {
        '0'
    } else if d == 1 {
        '1'
    } else if d == 2 {
        '2'
    } else if d == 3 {
        '3'
    } else if d == 4 {
        '4'
    } else if d == 5 {
        '5'
    } else if d == 6 {
        '6'
    } else if d == 7 {
        '7'
    } else if d == 8 {
        '8'
    } else {
        '9'
    }
}

/// `n` written in decimal, without leading zeros.
pub open spec fn decimal(n: nat) -> Seq<char>
    decreases n,
{
    if n < 10 {
        seq![digit_of(n)]
    } else {
        decimal(n / 10).push(digit_of(n % 10))
    }
}

/// The decimal digit for `d`.
fn digit_char(d: u64) -> (r: char)
    requires
        d < 10,
    ensures
        r == digit_of(d as nat),
{
    match d {
        0 => '0',
        1 => '1',
        2 => '2',
        3 => '3',
        4 => '4',
        5 => '5',
        6 => '6',
        7 => '7',
        8 => '8',
        _ => '9',
    }
}

/// `n` written in decimal.
pub fn decimal_string(n: u64) -> (r: String)
    ensures
        r@ == decimal(n as nat),
    decreases n,
{
    if n < 10 {
        let mut s = String::new();
        crate::link::push_char(&mut s, digit_char(n));
        s
    } else {
        let mut s = decimal_string(n / 10);
        crate::link::push_char(&mut s, digit_char(n % 10));
        s
    }
}

impl SavedRun {
    /// One line about the run: deck, stake, ante, round and money.
    pub fn describe(&self) -> (r: String)
        ensures
            r@ == crate::catalog::deck_label(self.deck) + " deck, "@ + crate::catalog::stake_label(
                self.stake,
            ) + " stake, ante "@ + decimal(self.ante as nat) + " round "@ + decimal(
                self.round as nat,
            ) + ", $"@ + decimal(self.money as nat),
    {
        let mut s = self.deck.label();
        s.append(" deck, ");
        s.append(self.stake.label().as_str());
        s.append(" stake, ante ");
        s.append(decimal_string(self.ante).as_str());
        s.append(" round ");
        s.append(decimal_string(self.round).as_str());
        s.append(", $");
        s.append(decimal_string(self.money).as_str());
        s
    }
}

} // verus!
