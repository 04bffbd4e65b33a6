//! The screen graph. Each screen is a type of its own that offers only the actions legal on
//! it. An action consumes the screen and gives a `Pending` value: the request to send, its kind
//! tag, the kind tag the reply must carry, and the screen it was asked of. Resolving a pending
//! value with the game's reply consumes it in turn and gives the screen, or screens, the action
//! leads to. When the game refuses the action, the screen it was asked of comes back unchanged,
//! so the session can go on from there.
use vstd::prelude::*;
use crate::catalog::{
    Collection, Deck, Joker, JokerKind, PlanetOption, PlayingCard, Seed, SpectralOption, Stake,
    Tag, TarotOption,
};
use crate::frame::ProtocolError;
use crate::protocol;
use crate::protocol::{
    BigBlindChoice, BlindInfo, BoosterCard, BoosterPack, BoosterPackSkip, CardBoosterPackClick,
    CashOut, CollectionInfo, ContinueRun, CurrentBlind, DiscardResult as DiscardReply,
    GameOverviewInfo, GetCollection, GetScreen, HandCard, HudInfo, LastScore, MainCard,
    MenuInfo, MostPlayedHand, MoveConsumable, MoveJoker, OpenInfo, OpenSelect, OpenedPack,
    Outcome, Packet, PlayClick, PlayDiscard, PlayInfo, PlayPlay, PlayResult as PlayReply,
    PokerHand, RoundOverviewInfo, SavedRun, ScreenInfo, SelectResult as SelectReply,
    SelectionsLeft, SellConsumable, SellJoker, ShopBuyBooster, ShopBuyMain, ShopBuyUse,
    ShopBuyVoucher, ShopContinue, ShopInfo, ShopReroll, SkipBlind, SkipBlindResult,
    SmallBlindChoice, BossBlindChoice, StartRun, UseConsumable, UseResult as UseReply, Voucher,
};

verus! {

/// Why a step did not lead on.
pub enum StepError<S> {
    /// The game refused the action, for `reason`; `screen` is the screen it was asked of,
    /// unchanged.
    Refused { screen: S, reason: String },
    /// The reply does not fit the request.
    Protocol(ProtocolError),
}

/// `r` is the refusal of the action asked of `screen`, for `reason`.
pub open spec fn refused<S, T>(r: Result<T, StepError<S>>, screen: S, reason: String) -> bool {
    r matches Err(StepError::Refused { screen: s, reason: why }) && s == screen && why == reason
}

/// An action on its way: the request, its kind tag, the kind tag its reply must carry, and the
/// screen it was asked of.
pub struct Pending<S, Q> {
    from: S,
    request: Q,
    kind: String,
    expect: String,
}

impl<S, Q> Pending<S, Q> {
    /// The screen the action was asked of.
    pub closed spec fn spec_from(&self) -> S {
        self.from
    }

    /// The request.
    pub closed spec fn spec_request(&self) -> Q {
        self.request
    }

    /// The request's kind tag.
    pub closed spec fn spec_kind(&self) -> Seq<char> {
        self.kind@
    }

    /// The kind tag the reply must carry.
    pub closed spec fn spec_expect(&self) -> Seq<char> {
        self.expect@
    }

    /// The request.
    pub fn request(&self) -> (r: &Q)
        ensures
            *r == self.spec_request(),
    {
        &self.request
    }

    /// The request's kind tag.
    pub fn kind(&self) -> (r: &str)
        ensures
            r@ == self.spec_kind(),
    {
        self.kind.as_str()
    }

    /// The kind tag the reply must carry.
    pub fn expect(&self) -> (r: &str)
        ensures
            r@ == self.spec_expect(),
    {
        self.expect.as_str()
    }
}

/// The pending action that sends `request`, a request with a fixed kind tag, from `from`.
fn pending<S, Q: protocol::Request>(from: S, request: Q) -> (r: Pending<S, Q>)
    ensures
        r.spec_from() == from,
        r.spec_request() == request,
        r.spec_kind() == Q::spec_kind(),
        r.spec_expect() == <Q::Expect as Packet>::spec_kind(),
{
    Pending { from, request, kind: Q::kind(), expect: <Q::Expect as Packet>::kind() }
}

/// A screen of a run whose snapshot has the type `Info`.
pub trait Screen: Sized {
    type Info;

    /// The name that prefixes the kind tags of the screen's own requests.
    spec fn spec_name() -> Seq<char>;

    /// The kind tag of a reply that carries the screen's snapshot.
    spec fn spec_info_kind() -> Seq<char>;

    /// The snapshot the screen shows.
    spec fn info(&self) -> Self::Info;

    /// The name that prefixes the kind tags of the screen's own requests.
    fn name() -> (r: String)
        ensures
            r@ == Self::spec_name(),
    ;

    /// The kind tag of a reply that carries the screen's snapshot.
    fn info_kind() -> (r: String)
        ensures
            r@ == Self::spec_info_kind(),
    ;

    /// The screen showing `info`.
    fn new(info: Self::Info) -> (r: Self)
        ensures
            r.info() == info,
    ;
}

/// A screen of a run that shows the shared state of the run.
pub trait Hud: Screen {
    /// The shared state of the run.
    spec fn spec_hud(&self) -> HudInfo;

    /// The shared state of the run, read from the snapshot: no request is made.
    fn hud(&self) -> (r: &HudInfo)
        ensures
            *r == self.spec_hud(),
    ;
}

/// A screen that an open booster pack goes back to, once done. The game's reply that ends such
/// a pack carries the kind tag `spec_prefix`, which also prefixes the names of the packs opened
/// from the screen.
pub trait ReturnTo: Screen {
    /// What the game sends when a pack opened from this screen is done.
    type Reply;

    /// Where that reply leads.
    type Back;

    /// The kind tag of the reply that ends a pack opened from this screen.
    spec fn spec_prefix() -> Seq<char>;

    /// `back` is where `reply` leads.
    spec fn leads_back(reply: Self::Reply, back: Self::Back) -> bool;

    /// The kind tag of the reply that ends a pack opened from this screen.
    fn prefix() -> (r: String)
        ensures
            r@ == Self::spec_prefix(),
    ;

    /// Where `reply` leads.
    fn back(reply: Self::Reply) -> (r: Self::Back)
        ensures
            Self::leads_back(reply, r),
    ;
}

/// The options of a family of booster packs.
pub trait PackOption: Sized {
    /// The family's name, as kind tags spell it.
    spec fn spec_family() -> Seq<char>;

    /// The family's packs act on cards of the hand.
    spec fn spec_with_hand() -> bool;

    /// Whether the family's packs act on cards of the hand.
    fn with_hand() -> (r: bool)
        ensures
            r == Self::spec_with_hand(),
    ;

    /// The family's name, as kind tags spell it.
    fn family() -> (r: String)
        ensures
            r@ == Self::spec_family(),
    ;
}

/// The options of the families of packs that act on cards of the hand.
pub trait HandOption: PackOption {

}

impl PackOption for TarotOption {
    open spec fn spec_family() -> Seq<char> {
        "arcana"@
    }

    open spec fn spec_with_hand() -> bool {
        true
    }

    fn with_hand() -> (r: bool) {
        true
    }

    fn family() -> (r: String) {
        String::from_str("arcana")
    }
}

impl HandOption for TarotOption {

}

impl PackOption for Joker {
    open spec fn spec_family() -> Seq<char> {
        "buffoon"@
    }

    open spec fn spec_with_hand() -> bool {
        false
    }

    fn with_hand() -> (r: bool) {
        false
    }

    fn family() -> (r: String) {
        String::from_str("buffoon")
    }
}

impl PackOption for PlanetOption {
    open spec fn spec_family() -> Seq<char> {
        "celestial"@
    }

    open spec fn spec_with_hand() -> bool {
        false
    }

    fn with_hand() -> (r: bool) {
        false
    }

    fn family() -> (r: String) {
        String::from_str("celestial")
    }
}

impl PackOption for SpectralOption {
    open spec fn spec_family() -> Seq<char> {
        "spectral"@
    }

    open spec fn spec_with_hand() -> bool {
        true
    }

    fn with_hand() -> (r: bool) {
        true
    }

    fn family() -> (r: String) {
        String::from_str("spectral")
    }
}

impl HandOption for SpectralOption {

}

impl PackOption for PlayingCard {
    open spec fn spec_family() -> Seq<char> {
        "standard"@
    }

    open spec fn spec_with_hand() -> bool {
        false
    }

    fn with_hand() -> (r: bool) {
        false
    }

    fn family() -> (r: String) {
        String::from_str("standard")
    }
}

/// `name` followed by `suffix`.
fn suffixed(name: String, suffix: &str) -> (r: String)
    ensures
        r@ == name@ + suffix@,
{
    let mut s = name;
    s.append(suffix);
    s
}

// ------------------------------------------------------------------------------------------
// Start of a session
// ------------------------------------------------------------------------------------------

/// A session with the game, before its screen is known.
pub struct Balatro;

impl Balatro {
    /// Asks the game which screen it shows.
    pub fn screen(self) -> (r: Pending<Balatro, GetScreen>)
        ensures
            r.spec_kind() == "screen/get"@,
            r.spec_expect() == "screen/current"@,
    {
        pending(self, GetScreen)
    }
}

impl Pending<Balatro, GetScreen> {
    /// The screen the game shows.
    pub fn resolve(self, reply: Result<ScreenInfo, String>) -> (r: Result<
        CurrentScreen,
        StepError<Balatro>,
    >)
        ensures
            match reply {
                Ok(info) => r matches Ok(s) && screen_shows(s, info),
                Err(reason) => refused(r, self.spec_from(), reason),
            },
    {
        match reply {
            Ok(info) => Ok(screen_of(info)),
            Err(reason) => Err(StepError::Refused { screen: self.from, reason }),
        }
    }
}

/// The screen the game shows, typed.
pub enum CurrentScreen {
    /// The main menu, where a run starts or a saved run goes on.
    Menu(Menu),
    /// The choice among the ante's blinds.
    SelectBlind(SelectBlind),
    /// A round against a blind.
    Play(Play),
    /// The earnings at the end of a round.
    RoundOverview(RoundOverview),
    /// The shop between rounds.
    Shop(Shop),
    /// A booster pack opened in the shop.
    ShopOpen(OpenBoosterPack<Shop>),
    /// A booster pack opened by a tag won by skipping a blind.
    SkipOpen(OpenBoosterPack<SelectBlind>),
    /// The end of a run.
    GameOver(GameOverview),
}

/// `s` is the screen that `info` describes.
pub open spec fn screen_shows(s: CurrentScreen, info: ScreenInfo) -> bool {
    match info {
        ScreenInfo::Menu(i) => s matches CurrentScreen::Menu(m) && m.info() == i,
        ScreenInfo::SelectBlind(i) => s matches CurrentScreen::SelectBlind(b) && b.info() == i,
        ScreenInfo::Play(i) => s matches CurrentScreen::Play(p) && p.info() == i,
        ScreenInfo::RoundOverview(i) => s matches CurrentScreen::RoundOverview(o) && o.info()
            == i,
        ScreenInfo::Shop(i) => s matches CurrentScreen::Shop(x) && x.info() == i,
        ScreenInfo::ShopOpen(p) => s matches CurrentScreen::ShopOpen(o) && pack_opens(o, p),
        ScreenInfo::SkipOpen(p) => s matches CurrentScreen::SkipOpen(o) && pack_opens(o, p),
        ScreenInfo::GameOver(i) => s matches CurrentScreen::GameOver(g) && g.info() == i,
    }
}

/// The screen that `info` describes.
pub fn screen_of(info: ScreenInfo) -> (r: CurrentScreen)
    ensures
        screen_shows(r, info),
{
    match info {
        ScreenInfo::Menu(i) => CurrentScreen::Menu(Menu { info: i }),
        ScreenInfo::SelectBlind(i) => CurrentScreen::SelectBlind(SelectBlind::new(i)),
        ScreenInfo::Play(i) => CurrentScreen::Play(Play::new(i)),
        ScreenInfo::RoundOverview(i) => CurrentScreen::RoundOverview(RoundOverview::new(i)),
        ScreenInfo::Shop(i) => CurrentScreen::Shop(Shop::new(i)),
        ScreenInfo::ShopOpen(p) => CurrentScreen::ShopOpen(open_pack(p)),
        ScreenInfo::SkipOpen(p) => CurrentScreen::SkipOpen(open_pack(p)),
        ScreenInfo::GameOver(i) => CurrentScreen::GameOver(GameOverview { info: i }),
    }
}

// ------------------------------------------------------------------------------------------
// Main menu
// ------------------------------------------------------------------------------------------

/// The main menu.
pub struct Menu {
    info: MenuInfo,
}

impl Menu {
    /// The snapshot the menu shows.
    pub closed spec fn info(&self) -> MenuInfo {
        self.info
    }

    /// The saved run, if there is one.
    pub fn saved_run(&self) -> (r: Option<&SavedRun>)
        ensures
            r == match self.info().saved_run {
                Some(s) => Some(&s),
                None => None::<&SavedRun>,
            },
    {
        match &self.info.saved_run {
            Some(s) => Some(s),
            None => None,
        }
    }

    /// Starts a new run with the given deck, stake and seed.
    pub fn new_run(self, deck: Deck, stake: Stake, seed: Option<Seed>) -> (r: Pending<
        Menu,
        StartRun,
    >)
        ensures
            r.spec_from() == self,
            r.spec_request() == (StartRun { deck, stake, seed }),
            r.spec_kind() == "main_menu/start_run"@,
            r.spec_expect() == "blind_select/info"@,
    {
        pending(self, StartRun { deck, stake, seed })
    }

    /// Goes on with the saved run.
    pub fn continue_run(self) -> (r: Pending<Menu, ContinueRun>)
        ensures
            r.spec_from() == self,
            r.spec_kind() == "main_menu/continue_run"@,
            r.spec_expect() == "screen/current"@,
    {
        pending(self, ContinueRun)
    }
}

impl Pending<Menu, StartRun> {
    /// The blind selection of the new run.
    pub fn resolve(self, reply: Result<BlindInfo, String>) -> (r: Result<
        SelectBlind,
        StepError<Menu>,
    >)
        ensures
            match reply {
                Ok(info) => r matches Ok(s) && s.info() == info,
                Err(reason) => refused(r, self.spec_from(), reason),
            },
    {
        match reply {
            Ok(info) => Ok(SelectBlind::new(info)),
            Err(reason) => Err(StepError::Refused { screen: self.from, reason }),
        }
    }
}

impl Pending<Menu, ContinueRun> {
    /// The screen the saved run stood on.
    pub fn resolve(self, reply: Result<ScreenInfo, String>) -> (r: Result<
        CurrentScreen,
        StepError<Menu>,
    >)
        ensures
            match reply {
                Ok(info) => r matches Ok(s) && screen_shows(s, info),
                Err(reason) => refused(r, self.spec_from(), reason),
            },
    {
        match reply {
            Ok(info) => Ok(screen_of(info)),
            Err(reason) => Err(StepError::Refused { screen: self.from, reason }),
        }
    }
}

// ------------------------------------------------------------------------------------------
// Blind selection
// ------------------------------------------------------------------------------------------

/// The choice among the ante's blinds.
pub struct SelectBlind {
    info: BlindInfo,
}

impl Screen for SelectBlind {
    type Info = BlindInfo;

    open spec fn spec_name() -> Seq<char> {
        "blind_select"@
    }

    open spec fn spec_info_kind() -> Seq<char> {
        "blind_select/info"@
    }

    closed spec fn info(&self) -> BlindInfo {
        self.info
    }

    fn name() -> (r: String) {
        String::from_str("blind_select")
    }

    fn info_kind() -> (r: String) {
        String::from_str("blind_select/info")
    }

    fn new(info: BlindInfo) -> (r: SelectBlind) {
        SelectBlind { info }
    }
}

impl Hud for SelectBlind {
    open spec fn spec_hud(&self) -> HudInfo {
        self.info().hud
    }

    fn hud(&self) -> (r: &HudInfo) {
        &self.info.hud
    }
}

impl ReturnTo for SelectBlind {
    type Reply = SkipBlindResult;

    type Back = SkipResult;

    open spec fn spec_prefix() -> Seq<char> {
        "blind_select/skip_result"@
    }

    open spec fn leads_back(reply: SkipBlindResult, back: SkipResult) -> bool {
        skip_leads(reply, back)
    }

    fn prefix() -> (r: String) {
        String::from_str("blind_select/skip_result")
    }

    fn back(reply: SkipBlindResult) -> (r: SkipResult) {
        after_skip(reply)
    }
}

/// `back` is where the skip reply `reply` leads: the blinds again, or the pack the tag opened.
pub open spec fn skip_leads(reply: SkipBlindResult, back: SkipResult) -> bool {
    match reply {
        SkipBlindResult::Select(info) => back matches SkipResult::Select(s) && s.info() == info,
        SkipBlindResult::Booster(p) => back matches SkipResult::Booster(o) && pack_opens(o, p),
    }
}

/// Where the skip reply `reply` leads.
fn after_skip(reply: SkipBlindResult) -> (r: SkipResult)
    ensures
        skip_leads(reply, r),
{
    match reply {
        SkipBlindResult::Select(info) => SkipResult::Select(SelectBlind::new(info)),
        SkipBlindResult::Booster(p) => SkipResult::Booster(open_pack(p)),
    }
}

impl SelectBlind {
    /// The small blind.
    pub fn small(&self) -> (r: &SmallBlindChoice)
        ensures
            *r == self.info().blinds.small,
    {
        &self.info.blinds.small
    }

    /// The big blind.
    pub fn big(&self) -> (r: &BigBlindChoice)
        ensures
            *r == self.info().blinds.big,
    {
        &self.info.blinds.big
    }

    /// The boss blind.
    pub fn boss(&self) -> (r: &BossBlindChoice)
        ensures
            *r == self.info().blinds.boss,
    {
        &self.info.blinds.boss
    }

    /// Plays the blind on offer.
    pub fn select(self) -> (r: Pending<SelectBlind, protocol::SelectBlind>)
        ensures
            r.spec_from() == self,
            r.spec_kind() == "blind_select/select"@,
            r.spec_expect() == "play/hand"@,
    {
        pending(self, protocol::SelectBlind)
    }

    /// Skips the blind on offer, for its tag.
    pub fn skip(self) -> (r: Pending<SelectBlind, SkipBlind>)
        ensures
            r.spec_from() == self,
            r.spec_kind() == "blind_select/skip"@,
            r.spec_expect() == "blind_select/skip_result"@,
    {
        pending(self, SkipBlind)
    }
}

impl Pending<SelectBlind, protocol::SelectBlind> {
    /// The round against the blind.
    pub fn resolve(self, reply: Result<PlayInfo, String>) -> (r: Result<
        Play,
        StepError<SelectBlind>,
    >)
        ensures
            match reply {
                Ok(info) => r matches Ok(p) && p.info() == info,
                Err(reason) => refused(r, self.spec_from(), reason),
            },
    {
        match reply {
            Ok(info) => Ok(Play::new(info)),
            Err(reason) => Err(StepError::Refused { screen: self.from, reason }),
        }
    }
}

/// Where skipping a blind leads.
pub enum SkipResult {
    /// To the next blind.
    Select(SelectBlind),
    /// To a booster pack that the blind's tag opened; done, it goes back to blind selection.
    Booster(OpenBoosterPack<SelectBlind>),
}

impl Pending<SelectBlind, SkipBlind> {
    /// The next blind, or the pack the tag opened.
    pub fn resolve(self, reply: Result<SkipBlindResult, String>) -> (r: Result<
        SkipResult,
        StepError<SelectBlind>,
    >)
        ensures
            match reply {
                Ok(SkipBlindResult::Select(info)) => r matches Ok(SkipResult::Select(s))
                    && s.info() == info,
                Ok(SkipBlindResult::Booster(p)) => r matches Ok(SkipResult::Booster(o))
                    && pack_opens(o, p),
                Err(reason) => refused(r, self.spec_from(), reason),
            },
    {
        match reply {
            Ok(SkipBlindResult::Select(info)) => Ok(SkipResult::Select(SelectBlind::new(info))),
            Ok(SkipBlindResult::Booster(p)) => Ok(SkipResult::Booster(open_pack(p))),
            Err(reason) => Err(StepError::Refused { screen: self.from, reason }),
        }
    }
}

// ------------------------------------------------------------------------------------------
// Playing a round
// ------------------------------------------------------------------------------------------

/// A round against a blind.
pub struct Play {
    info: PlayInfo,
}

impl Screen for Play {
    type Info = PlayInfo;

    open spec fn spec_name() -> Seq<char> {
        "play"@
    }

    open spec fn spec_info_kind() -> Seq<char> {
        "play/hand"@
    }

    closed spec fn info(&self) -> PlayInfo {
        self.info
    }

    fn name() -> (r: String) {
        String::from_str("play")
    }

    fn info_kind() -> (r: String) {
        String::from_str("play/hand")
    }

    fn new(info: PlayInfo) -> (r: Play) {
        Play { info }
    }
}

impl Hud for Play {
    open spec fn spec_hud(&self) -> HudInfo {
        self.info().hud
    }

    fn hud(&self) -> (r: &HudInfo) {
        &self.info.hud
    }
}

impl Play {
    /// The blind being played.
    pub fn blind(&self) -> (r: &CurrentBlind)
        ensures
            *r == self.info().current_blind,
    {
        &self.info.current_blind
    }

    /// The hand, slot by slot.
    pub fn hand(&self) -> (r: &[HandCard])
        ensures
            r@ == self.info().hand@,
    {
        self.info.hand.as_slice()
    }

    /// The score reached against the blind so far.
    pub fn score(&self) -> (r: crate::catalog::Real)
        ensures
            r == self.info().score,
    {
        self.info.score
    }

    /// The poker hand the selected cards make, if any.
    pub fn poker_hand(&self) -> (r: Option<PokerHand>)
        ensures
            r == self.info().poker_hand,
    {
        self.info.poker_hand
    }

    /// The score of the last hand played, if any.
    pub fn last_score(&self) -> (r: Option<LastScore>)
        ensures
            r == self.info().last_score,
    {
        self.info.last_score
    }

    /// Toggles the selection of the cards at the given slots.
    pub fn click(self, indices: &[u32]) -> (r: Pending<Play, PlayClick>)
        ensures
            r.spec_from() == self,
            r.spec_request().indices@ == indices@,
            r.spec_kind() == "play/click"@,
            r.spec_expect() == "play/hand"@,
    {
        pending(self, PlayClick { indices: vstd::slice::slice_to_vec(indices) })
    }

    /// Plays the selected cards.
    pub fn play(self) -> (r: Pending<Play, PlayPlay>)
        ensures
            r.spec_from() == self,
            r.spec_kind() == "play/play"@,
            r.spec_expect() == "play/play/result"@,
    {
        pending(self, PlayPlay)
    }

    /// Discards the selected cards.
    pub fn discard(self) -> (r: Pending<Play, PlayDiscard>)
        ensures
            r.spec_from() == self,
            r.spec_kind() == "play/discard"@,
            r.spec_expect() == "play/discard/result"@,
    {
        pending(self, PlayDiscard)
    }
}

impl Pending<Play, PlayClick> {
    /// The round, with the selection toggled.
    pub fn resolve(self, reply: Result<PlayInfo, String>) -> (r: Result<Play, StepError<Play>>)
        ensures
            match reply {
                Ok(info) => r matches Ok(p) && p.info() == info,
                Err(reason) => refused(r, self.spec_from(), reason),
            },
    {
        match reply {
            Ok(info) => Ok(Play::new(info)),
            Err(reason) => Err(StepError::Refused { screen: self.from, reason }),
        }
    }
}

/// Where playing a hand leads.
pub enum PlayResult {
    /// The round goes on.
    Again(Play),
    /// The blind is beaten.
    RoundOver(RoundOverview),
    /// The run is lost.
    GameOver(GameOverview),
}

impl PlayResult {
    /// The round, where it goes on.
    pub fn again(self) -> (r: Play)
        requires
            self is Again,
        ensures
            self matches PlayResult::Again(p) && r == p,
    {
        match self {
            PlayResult::Again(play) => play,
            PlayResult::RoundOver(_) => {
                proof {
                    assert(false);
                }
                vstd::pervasive::unreached()
            },
            PlayResult::GameOver(_) => {
                proof {
                    assert(false);
                }
                vstd::pervasive::unreached()
            },
        }
    }
}

impl Pending<Play, PlayPlay> {
    /// The round again, the round's summary, or the end of the run.
    pub fn resolve(self, reply: Result<PlayReply, String>) -> (r: Result<
        PlayResult,
        StepError<Play>,
    >)
        ensures
            match reply {
                Ok(PlayReply::Again(i)) => r matches Ok(PlayResult::Again(p)) && p.info() == i,
                Ok(PlayReply::RoundOver(i)) => r matches Ok(PlayResult::RoundOver(o)) && o.info()
                    == i,
                Ok(PlayReply::GameOver(i)) => r matches Ok(PlayResult::GameOver(g)) && g.info()
                    == i,
                Err(reason) => refused(r, self.spec_from(), reason),
            },
    {
        match reply {
            Ok(PlayReply::Again(i)) => Ok(PlayResult::Again(Play::new(i))),
            Ok(PlayReply::RoundOver(i)) => Ok(PlayResult::RoundOver(RoundOverview::new(i))),
            Ok(PlayReply::GameOver(i)) => Ok(PlayResult::GameOver(GameOverview { info: i })),
            Err(reason) => Err(StepError::Refused { screen: self.from, reason }),
        }
    }
}

/// Where a discard leads.
pub enum DiscardResult {
    /// The round goes on.
    Again(Play),
    /// The run is lost.
    GameOver(GameOverview),
}

impl DiscardResult {
    /// The round, where it goes on.
    pub fn again(self) -> (r: Play)
        requires
            self is Again,
        ensures
            self matches DiscardResult::Again(p) && r == p,
    {
        match self {
            DiscardResult::Again(play) => play,
            DiscardResult::GameOver(_) => {
                proof {
                    assert(false);
                }
                vstd::pervasive::unreached()
            },
        }
    }
}

impl Pending<Play, PlayDiscard> {
    /// The round again, or the end of the run.
    pub fn resolve(self, reply: Result<DiscardReply, String>) -> (r: Result<
        DiscardResult,
        StepError<Play>,
    >)
        ensures
            match reply {
                Ok(DiscardReply::Again(i)) => r matches Ok(DiscardResult::Again(p)) && p.info()
                    == i,
                Ok(DiscardReply::GameOver(i)) => r matches Ok(DiscardResult::GameOver(g))
                    && g.info() == i,
                Err(reason) => refused(r, self.spec_from(), reason),
            },
    {
        match reply {
            Ok(DiscardReply::Again(i)) => Ok(DiscardResult::Again(Play::new(i))),
            Ok(DiscardReply::GameOver(i)) => Ok(DiscardResult::GameOver(GameOverview { info: i })),
            Err(reason) => Err(StepError::Refused { screen: self.from, reason }),
        }
    }
}

// ------------------------------------------------------------------------------------------
// End of a round
// ------------------------------------------------------------------------------------------

/// The earnings at the end of a round.
pub struct RoundOverview {
    info: RoundOverviewInfo,
}

impl Screen for RoundOverview {
    type Info = RoundOverviewInfo;

    open spec fn spec_name() -> Seq<char> {
        "overview"@
    }

    open spec fn spec_info_kind() -> Seq<char> {
        "overview/round"@
    }

    closed spec fn info(&self) -> RoundOverviewInfo {
        self.info
    }

    fn name() -> (r: String) {
        String::from_str("overview")
    }

    fn info_kind() -> (r: String) {
        String::from_str("overview/round")
    }

    fn new(info: RoundOverviewInfo) -> (r: RoundOverview) {
        RoundOverview { info }
    }
}

impl Hud for RoundOverview {
    open spec fn spec_hud(&self) -> HudInfo {
        self.info().hud
    }

    fn hud(&self) -> (r: &HudInfo) {
        &self.info.hud
    }
}

/// Where a sum of the round's earnings came from.
#[derive(Clone, Debug, PartialEq, Eq)]
pub enum EarningKind {
    Joker(JokerKind),
    Tag(Tag),
    Blind,
    Interest,
    Hands(u64),
    Discards(u64),
}

/// A sum earned in the round.
#[derive(Clone, Debug, PartialEq, Eq)]
pub struct Earning {
    pub kind: EarningKind,
    pub value: u64,
}

/// The earning that `e`, as the game sends it, stands for.
pub open spec fn earning_of(e: protocol::Earning) -> Earning {
    Earning {
        kind: match e.kind {
            protocol::EarningKind::Joker(k) => EarningKind::Joker(k),
            protocol::EarningKind::Tag(t) => EarningKind::Tag(t),
            protocol::EarningKind::Blind(_) => EarningKind::Blind,
            protocol::EarningKind::Interest(_) => EarningKind::Interest,
            protocol::EarningKind::Hands(h) => EarningKind::Hands(h),
            protocol::EarningKind::Discards(d) => EarningKind::Discards(d),
        },
        value: e.value,
    }
}

/// A copy of `k`.
fn copy_joker_kind(k: &JokerKind) -> (r: JokerKind)
    ensures
        r == *k,
{
    JokerKind { json: k.json.clone() }
}

impl RoundOverview {
    /// The round's earnings, one by one, in the order the game lists them.
    pub fn earnings(&self) -> (r: Vec<Earning>)
        ensures
            r@.len() == self.info().earnings@.len(),
            forall|i: int| 0 <= i < r@.len() ==> #[trigger] r@[i] == earning_of(
                self.info().earnings@[i],
            ),
    {
        let list = &self.info.earnings;
        let mut out: Vec<Earning> = Vec::new();
        let mut i: usize = 0;
        while i < list.len()
            invariant
                list@ == self.info().earnings@,
                0 <= i <= list@.len(),
                out@.len() == i,
                forall|j: int| 0 <= j < i ==> #[trigger] out@[j] == earning_of(list@[j]),
            decreases list@.len() - i,
        {
            let e = &list[i];
            let kind = match &e.kind {
                protocol::EarningKind::Joker(k) => EarningKind::Joker(copy_joker_kind(k)),
                protocol::EarningKind::Tag(t) => EarningKind::Tag(*t),
                protocol::EarningKind::Blind(_) => EarningKind::Blind,
                protocol::EarningKind::Interest(_) => EarningKind::Interest,
                protocol::EarningKind::Hands(h) => EarningKind::Hands(*h),
                protocol::EarningKind::Discards(d) => EarningKind::Discards(*d),
            };
            out.push(Earning { kind, value: e.value });
            i = i + 1;
        }
        out
    }

    /// The sum of the round's earnings, as the game reports it.
    pub fn total_earned(&self) -> (r: u64)
        ensures
            r == self.info().total_earned,
    {
        self.info.total_earned
    }

    /// Collects the earnings and goes to the shop.
    pub fn cash_out(self) -> (r: Pending<RoundOverview, CashOut>)
        ensures
            r.spec_from() == self,
            r.spec_kind() == "overview/cash_out"@,
            r.spec_expect() == "shop/info"@,
    {
        pending(self, CashOut)
    }
}

impl Pending<RoundOverview, CashOut> {
    /// The shop.
    pub fn resolve(self, reply: Result<ShopInfo, String>) -> (r: Result<
        Shop,
        StepError<RoundOverview>,
    >)
        ensures
            match reply {
                Ok(info) => r matches Ok(s) && s.info() == info,
                Err(reason) => refused(r, self.spec_from(), reason),
            },
    {
        match reply {
            Ok(info) => Ok(Shop::new(info)),
            Err(reason) => Err(StepError::Refused { screen: self.from, reason }),
        }
    }
}

// ------------------------------------------------------------------------------------------
// Shop
// ------------------------------------------------------------------------------------------

/// The shop between rounds.
pub struct Shop {
    info: ShopInfo,
}

impl Screen for Shop {
    type Info = ShopInfo;

    open spec fn spec_name() -> Seq<char> {
        "shop"@
    }

    open spec fn spec_info_kind() -> Seq<char> {
        "shop/info"@
    }

    closed spec fn info(&self) -> ShopInfo {
        self.info
    }

    fn name() -> (r: String) {
        String::from_str("shop")
    }

    fn info_kind() -> (r: String) {
        String::from_str("shop/info")
    }

    fn new(info: ShopInfo) -> (r: Shop) {
        Shop { info }
    }
}

impl Hud for Shop {
    open spec fn spec_hud(&self) -> HudInfo {
        self.info().hud
    }

    fn hud(&self) -> (r: &HudInfo) {
        &self.info.hud
    }
}

impl ReturnTo for Shop {
    type Reply = ShopInfo;

    type Back = Shop;

    open spec fn spec_prefix() -> Seq<char> {
        "shop/info"@
    }

    open spec fn leads_back(reply: ShopInfo, back: Shop) -> bool {
        back.info() == reply
    }

    fn prefix() -> (r: String) {
        String::from_str("shop/info")
    }

    fn back(reply: ShopInfo) -> (r: Shop) {
        Shop::new(reply)
    }
}

/// A pack bought in the shop, opened; done, it goes back to the shop.
pub type BoughtBooster = OpenBoosterPack<Shop>;

impl Shop {
    /// The cards of the main row.
    pub fn main_cards(&self) -> (r: &[MainCard])
        ensures
            r@ == self.info().main@,
    {
        self.info.main.as_slice()
    }

    /// The vouchers for sale.
    pub fn vouchers(&self) -> (r: &[Voucher])
        ensures
            r@ == self.info().vouchers@,
    {
        self.info.vouchers.as_slice()
    }

    /// The booster packs for sale.
    pub fn boosters(&self) -> (r: &[BoosterPack])
        ensures
            r@ == self.info().boosters@,
    {
        self.info.boosters.as_slice()
    }

    /// Buys the card at `index` of the main row.
    pub fn buy_main(self, index: u8) -> (r: Pending<Shop, ShopBuyMain>)
        ensures
            r.spec_from() == self,
            r.spec_request() == (ShopBuyMain { index }),
            r.spec_kind() == "shop/buymain"@,
            r.spec_expect() == "shop/info"@,
    {
        pending(self, ShopBuyMain { index })
    }

    /// Buys the card at `index` of the main row and uses it at once.
    pub fn buy_and_use(self, index: u8) -> (r: Pending<Shop, ShopBuyUse>)
        ensures
            r.spec_from() == self,
            r.spec_request() == (ShopBuyUse { index }),
            r.spec_kind() == "shop/buyuse"@,
            r.spec_expect() == "shop/info"@,
    {
        pending(self, ShopBuyUse { index })
    }

    /// Buys the voucher at `index`.
    pub fn buy_voucher(self, index: u8) -> (r: Pending<Shop, ShopBuyVoucher>)
        ensures
            r.spec_from() == self,
            r.spec_request() == (ShopBuyVoucher { index }),
            r.spec_kind() == "shop/buyvoucher"@,
            r.spec_expect() == "shop/info"@,
    {
        pending(self, ShopBuyVoucher { index })
    }

    /// Buys the booster pack at `index` and opens it.
    pub fn buy_booster(self, index: u8) -> (r: Pending<Shop, ShopBuyBooster>)
        ensures
            r.spec_from() == self,
            r.spec_request() == (ShopBuyBooster { index }),
            r.spec_kind() == "shop/buybooster"@,
            r.spec_expect() == "shop/bought_booster"@,
    {
        pending(self, ShopBuyBooster { index })
    }

    /// Rerolls the main row.
    pub fn reroll(self) -> (r: Pending<Shop, ShopReroll>)
        ensures
            r.spec_from() == self,
            r.spec_kind() == "shop/reroll"@,
            r.spec_expect() == "shop/info"@,
    {
        pending(self, ShopReroll)
    }

    /// Leaves the shop for the next blind.
    pub fn leave(self) -> (r: Pending<Shop, ShopContinue>)
        ensures
            r.spec_from() == self,
            r.spec_kind() == "shop/continue"@,
            r.spec_expect() == "blind_select/info"@,
    {
        pending(self, ShopContinue)
    }
}

/// The shop after a purchase or a reroll.
fn shop_after<Q>(p: Pending<Shop, Q>, reply: Result<ShopInfo, String>) -> (r: Result<
    Shop,
    StepError<Shop>,
>)
    ensures
        match reply {
            Ok(info) => r matches Ok(s) && s.info() == info,
            Err(reason) => refused(r, p.spec_from(), reason),
        },
{
    match reply {
        Ok(info) => Ok(Shop::new(info)),
        Err(reason) => Err(StepError::Refused { screen: p.from, reason }),
    }
}

impl Pending<Shop, ShopBuyMain> {
    /// The shop after the purchase.
    pub fn resolve(self, reply: Result<ShopInfo, String>) -> (r: Result<Shop, StepError<Shop>>)
        ensures
            match reply {
                Ok(info) => r matches Ok(s) && s.info() == info,
                Err(reason) => refused(r, self.spec_from(), reason),
            },
    {
        shop_after(self, reply)
    }
}

impl Pending<Shop, ShopBuyUse> {
    /// The shop after the purchase.
    pub fn resolve(self, reply: Result<ShopInfo, String>) -> (r: Result<Shop, StepError<Shop>>)
        ensures
            match reply {
                Ok(info) => r matches Ok(s) && s.info() == info,
                Err(reason) => refused(r, self.spec_from(), reason),
            },
    {
        shop_after(self, reply)
    }
}

impl Pending<Shop, ShopBuyVoucher> {
    /// The shop after the purchase.
    pub fn resolve(self, reply: Result<ShopInfo, String>) -> (r: Result<Shop, StepError<Shop>>)
        ensures
            match reply {
                Ok(info) => r matches Ok(s) && s.info() == info,
                Err(reason) => refused(r, self.spec_from(), reason),
            },
    {
        shop_after(self, reply)
    }
}

impl Pending<Shop, ShopReroll> {
    /// The shop after the reroll.
    pub fn resolve(self, reply: Result<ShopInfo, String>) -> (r: Result<Shop, StepError<Shop>>)
        ensures
            match reply {
                Ok(info) => r matches Ok(s) && s.info() == info,
                Err(reason) => refused(r, self.spec_from(), reason),
            },
    {
        shop_after(self, reply)
    }
}

impl Pending<Shop, ShopBuyBooster> {
    /// The pack, opened.
    pub fn resolve(self, reply: Result<protocol::BoughtBooster, String>) -> (r: Result<
        BoughtBooster,
        StepError<Shop>,
    >)
        ensures
            match reply {
                Ok(b) => r matches Ok(o) && pack_opens(o, b.pack),
                Err(reason) => refused(r, self.spec_from(), reason),
            },
    {
        match reply {
            Ok(b) => Ok(open_pack(b.pack)),
            Err(reason) => Err(StepError::Refused { screen: self.from, reason }),
        }
    }
}

impl Pending<Shop, ShopContinue> {
    /// The blind selection of the next round.
    pub fn resolve(self, reply: Result<BlindInfo, String>) -> (r: Result<
        SelectBlind,
        StepError<Shop>,
    >)
        ensures
            match reply {
                Ok(info) => r matches Ok(s) && s.info() == info,
                Err(reason) => refused(r, self.spec_from(), reason),
            },
    {
        match reply {
            Ok(info) => Ok(SelectBlind::new(info)),
            Err(reason) => Err(StepError::Refused { screen: self.from, reason }),
        }
    }
}

// ------------------------------------------------------------------------------------------
// End of a run
// ------------------------------------------------------------------------------------------

/// The end of a run.
pub struct GameOverview {
    info: GameOverviewInfo,
}

impl GameOverview {
    /// The snapshot the screen shows.
    pub closed spec fn info(&self) -> GameOverviewInfo {
        self.info
    }

    /// Whether the run was won, and else what beat it.
    pub fn outcome(&self) -> (r: &Outcome)
        ensures
            *r == self.info().outcome,
    {
        &self.info.outcome
    }

    /// The best hand's score, if any hand was played.
    pub fn best_hand(&self) -> (r: Option<u64>)
        ensures
            r == self.info().best_hand,
    {
        self.info.best_hand
    }

    /// The poker hand played most often.
    pub fn most_played_hand(&self) -> (r: MostPlayedHand)
        ensures
            r == self.info().most_played_hand,
    {
        self.info.most_played_hand
    }

    /// Cards played in the run.
    pub fn cards_played(&self) -> (r: u64)
        ensures
            r == self.info().cards_played,
    {
        self.info.cards_played
    }

    /// Cards discarded in the run.
    pub fn cards_discarded(&self) -> (r: u64)
        ensures
            r == self.info().cards_discarded,
    {
        self.info.cards_discarded
    }

    /// Cards bought in the run.
    pub fn cards_purchased(&self) -> (r: u64)
        ensures
            r == self.info().cards_purchased,
    {
        self.info.cards_purchased
    }

    /// Rerolls in the run.
    pub fn times_rerolled(&self) -> (r: u64)
        ensures
            r == self.info().times_rerolled,
    {
        self.info.times_rerolled
    }

    /// Items discovered in the run.
    pub fn new_discoveries(&self) -> (r: u64)
        ensures
            r == self.info().new_discoveries,
    {
        self.info.new_discoveries
    }

    /// The run's seed.
    pub fn seed(&self) -> (r: &Seed)
        ensures
            *r == self.info().seed,
    {
        &self.info.seed
    }

    /// Back to the main menu, which then holds no saved run.
    pub fn menu(self) -> (r: Menu)
        ensures
            r.info() == (MenuInfo { saved_run: None }),
    {
        Menu { info: MenuInfo { saved_run: None } }
    }
}

// ------------------------------------------------------------------------------------------
// Open booster packs
// ------------------------------------------------------------------------------------------

/// An open booster pack whose options have the type `O`, opened from the screen `R` and going
/// back to it once done.
pub struct OpenPack<O, R> {
    info: OpenInfo<O>,
    back: core::marker::PhantomData<R>,
}

impl<O, R> OpenPack<O, R> {
    /// The snapshot the pack shows.
    pub closed spec fn pack_info(&self) -> OpenInfo<O> {
        self.info
    }

    /// The pack showing `info`.
    fn showing(info: OpenInfo<O>) -> (r: OpenPack<O, R>)
        ensures
            r.pack_info() == info,
    {
        OpenPack { info, back: core::marker::PhantomData }
    }
}

/// An open arcana pack.
pub type OpenArcanaPack<R> = OpenPack<TarotOption, R>;

/// An open buffoon pack.
pub type OpenBuffoonPack<R> = OpenPack<Joker, R>;

/// An open celestial pack.
pub type OpenCelestialPack<R> = OpenPack<PlanetOption, R>;

/// An open spectral pack.
pub type OpenSpectralPack<R> = OpenPack<SpectralOption, R>;

/// An open standard pack.
pub type OpenStandardPack<R> = OpenPack<PlayingCard, R>;

/// The name of a pack of the family `family` opened from a screen with the prefix `prefix`.
pub open spec fn pack_name(prefix: Seq<char>, family: Seq<char>) -> Seq<char> {
    prefix + "/open/"@ + family
}

impl<O: PackOption, R: ReturnTo> Screen for OpenPack<O, R> {
    type Info = OpenInfo<O>;

    open spec fn spec_name() -> Seq<char> {
        pack_name(R::spec_prefix(), O::spec_family())
    }

    open spec fn spec_info_kind() -> Seq<char> {
        Self::spec_name() + "/info"@
    }

    open spec fn info(&self) -> OpenInfo<O> {
        self.pack_info()
    }

    fn name() -> (r: String) {
        let s = suffixed(R::prefix(), "/open/");
        let f = O::family();
        suffixed(s, f.as_str())
    }

    fn info_kind() -> (r: String) {
        suffixed(Self::name(), "/info")
    }

    fn new(info: OpenInfo<O>) -> (r: OpenPack<O, R>) {
        OpenPack::showing(info)
    }
}

impl<O: PackOption, R: ReturnTo> Hud for OpenPack<O, R> {
    open spec fn spec_hud(&self) -> HudInfo {
        self.info().hud
    }

    fn hud(&self) -> (r: &HudInfo) {
        &self.info.hud
    }
}

/// Picks a pack allows, by count.
pub open spec fn picks(left: SelectionsLeft) -> nat {
    match left {
        SelectionsLeft::One => 1,
        SelectionsLeft::Two => 2,
    }
}

/// A pick in a pack with `left` picks may bring `reply`: the pack again, one pick fewer, while a
/// pick is left after this one; the screen the pack goes back to, once none is; or the end of
/// the run, at any pick of a pack that acts on cards of the hand.
pub open spec fn select_accepts<O: PackOption, I>(
    left: SelectionsLeft,
    reply: SelectReply<O, I>,
) -> bool {
    match reply {
        SelectReply::Again(info) => picks(left) == 2 && picks(info.selections_left) == 1,
        SelectReply::Done(_) => picks(left) == 1,
        SelectReply::GameOver(_) => O::spec_with_hand(),
    }
}

/// Where a pick leads.
pub enum SelectResult<O, R: ReturnTo> {
    /// The pack again, with fewer picks left.
    Again(OpenPack<O, R>),
    /// Where the reply that ends the pack leads.
    Done(R::Back),
    /// The run is lost.
    GameOver(GameOverview),
}

impl<O: PackOption, R: ReturnTo> OpenPack<O, R> {
    /// The kind of pack.
    pub fn booster(&self) -> (r: crate::catalog::BoosterPackKind)
        ensures
            r == self.info().booster,
    {
        self.info.booster
    }

    /// How many more picks the pack allows.
    pub fn selections_left(&self) -> (r: SelectionsLeft)
        ensures
            r == self.info().selections_left,
    {
        self.info.selections_left
    }

    /// What the pack offers.
    pub fn options(&self) -> (r: &[O])
        ensures
            r@ == self.info().options@,
    {
        self.info.options.as_slice()
    }

    /// Picks the option at `index`.
    pub fn select(self, index: u32) -> (r: Pending<OpenPack<O, R>, OpenSelect>)
        ensures
            r.spec_from() == self,
            r.spec_request() == (OpenSelect { index }),
            r.spec_kind() == Self::spec_name() + "/select"@,
            r.spec_expect() == Self::spec_name() + "/select"@,
    {
        let kind = suffixed(Self::name(), "/select");
        let expect = suffixed(Self::name(), "/select");
        Pending { from: self, request: OpenSelect { index }, kind, expect }
    }

    /// Leaves the pack without picking further.
    pub fn skip(self) -> (r: Pending<OpenPack<O, R>, BoosterPackSkip>)
        ensures
            r.spec_from() == self,
            r.spec_kind() == Self::spec_name() + "/skip"@,
            r.spec_expect() == R::spec_prefix(),
    {
        let kind = suffixed(Self::name(), "/skip");
        Pending { from: self, request: BoosterPackSkip, kind, expect: R::prefix() }
    }
}

impl<O: HandOption, R: ReturnTo> OpenPack<O, R> {
    /// The hand the pack acts on, and which of its cards are the targets of the next pick.
    pub fn hand(&self) -> (r: &[BoosterCard])
        ensures
            r@ == self.info().hand@,
    {
        self.info.hand.as_slice()
    }

    /// Toggles which cards of the hand are the targets of the next pick.
    pub fn click(self, indices: &[u32]) -> (r: Pending<OpenPack<O, R>, CardBoosterPackClick>)
        ensures
            r.spec_from() == self,
            r.spec_request().indices@ == indices@,
            r.spec_kind() == Self::spec_name() + "/click"@,
            r.spec_expect() == Self::spec_info_kind(),
    {
        let kind = suffixed(Self::name(), "/click");
        Pending {
            from: self,
            request: CardBoosterPackClick { indices: vstd::slice::slice_to_vec(indices) },
            kind,
            expect: Self::info_kind(),
        }
    }
}

impl<O: PackOption, R: ReturnTo> Pending<OpenPack<O, R>, OpenSelect> {
    /// The pack again, the screen it goes back to, or the end of the run. A reply that does not
    /// follow the count of picks left is a protocol error.
    pub fn resolve(self, reply: Result<SelectReply<O, R::Reply>, String>) -> (r: Result<
        SelectResult<O, R>,
        StepError<OpenPack<O, R>>,
    >)
        ensures
            match reply {
                Ok(rep) => if select_accepts(self.spec_from().info().selections_left, rep) {
                    match rep {
                        SelectReply::Again(i) => r matches Ok(SelectResult::Again(p))
                            && p.info() == i,
                        SelectReply::Done(i) => r matches Ok(SelectResult::Done(b))
                            && R::leads_back(i, b),
                        SelectReply::GameOver(i) => r matches Ok(SelectResult::GameOver(g))
                            && g.info() == i,
                    }
                } else {
                    r matches Err(StepError::Protocol(ProtocolError::UnexpectedReply))
                },
                Err(reason) => refused(r, self.spec_from(), reason),
            },
    {
        match reply {
            Ok(SelectReply::Again(i)) => {
                let more = match self.from.info.selections_left {
                    SelectionsLeft::Two => match i.selections_left {
                        SelectionsLeft::One => true,
                        SelectionsLeft::Two => false,
                    },
                    SelectionsLeft::One => false,
                };
                if more {
                    Ok(SelectResult::Again(OpenPack::new(i)))
                } else {
                    Err(StepError::Protocol(ProtocolError::UnexpectedReply))
                }
            },
            Ok(SelectReply::Done(i)) => match self.from.info.selections_left {
                SelectionsLeft::One => Ok(SelectResult::Done(R::back(i))),
                SelectionsLeft::Two => Err(StepError::Protocol(ProtocolError::UnexpectedReply)),
            },
            Ok(SelectReply::GameOver(i)) => if O::with_hand() {
                Ok(SelectResult::GameOver(GameOverview { info: i }))
            } else {
                Err(StepError::Protocol(ProtocolError::UnexpectedReply))
            },
            Err(reason) => Err(StepError::Refused { screen: self.from, reason }),
        }
    }
}

impl<O: PackOption, R: ReturnTo> Pending<OpenPack<O, R>, BoosterPackSkip> {
    /// Where the reply that ends the pack leads.
    pub fn resolve(self, reply: Result<R::Reply, String>) -> (r: Result<
        R::Back,
        StepError<OpenPack<O, R>>,
    >)
        ensures
            match reply {
                Ok(rep) => r matches Ok(b) && R::leads_back(rep, b),
                Err(reason) => refused(r, self.spec_from(), reason),
            },
    {
        match reply {
            Ok(rep) => Ok(R::back(rep)),
            Err(reason) => Err(StepError::Refused { screen: self.from, reason }),
        }
    }
}

impl<O: HandOption, R: ReturnTo> Pending<OpenPack<O, R>, CardBoosterPackClick> {
    /// The pack, with the targets toggled.
    pub fn resolve(self, reply: Result<OpenInfo<O>, String>) -> (r: Result<
        OpenPack<O, R>,
        StepError<OpenPack<O, R>>,
    >)
        ensures
            match reply {
                Ok(info) => r matches Ok(p) && p.info() == info,
                Err(reason) => refused(r, self.spec_from(), reason),
            },
    {
        match reply {
            Ok(info) => Ok(OpenPack::new(info)),
            Err(reason) => Err(StepError::Refused { screen: self.from, reason }),
        }
    }
}

/// An open booster pack, by family, going back to `R` once done.
pub enum OpenBoosterPack<R> {
    Arcana(OpenPack<TarotOption, R>),
    Buffoon(OpenPack<Joker, R>),
    Celestial(OpenPack<PlanetOption, R>),
    Spectral(OpenPack<SpectralOption, R>),
    Standard(OpenPack<PlayingCard, R>),
}

/// `o` is the pack that `p` describes.
pub open spec fn pack_opens<R>(o: OpenBoosterPack<R>, p: OpenedPack) -> bool {
    match p {
        OpenedPack::Arcana(i) => o matches OpenBoosterPack::Arcana(x) && x.pack_info() == i,
        OpenedPack::Buffoon(i) => o matches OpenBoosterPack::Buffoon(x) && x.pack_info() == i,
        OpenedPack::Celestial(i) => o matches OpenBoosterPack::Celestial(x) && x.pack_info() == i,
        OpenedPack::Spectral(i) => o matches OpenBoosterPack::Spectral(x) && x.pack_info() == i,
        OpenedPack::Standard(i) => o matches OpenBoosterPack::Standard(x) && x.pack_info() == i,
    }
}

/// The pack that `p` describes.
pub fn open_pack<R>(p: OpenedPack) -> (r: OpenBoosterPack<R>)
    ensures
        pack_opens(r, p),
{
    match p {
        OpenedPack::Arcana(i) => OpenBoosterPack::Arcana(OpenPack::showing(i)),
        OpenedPack::Buffoon(i) => OpenBoosterPack::Buffoon(OpenPack::showing(i)),
        OpenedPack::Celestial(i) => OpenBoosterPack::Celestial(OpenPack::showing(i)),
        OpenedPack::Spectral(i) => OpenBoosterPack::Spectral(OpenPack::showing(i)),
        OpenedPack::Standard(i) => OpenBoosterPack::Standard(OpenPack::showing(i)),
    }
}

/// Booster selection exhaustion: a pack with `left` picks accepts the pack again only while a
/// pick is left after the current one, with exactly one pick fewer; so from N picks, the N-th
/// accepted pick leaves the pack, for the screen it goes back to or for the end of the run; the
/// run ends during a pick only in a pack that acts on cards of the hand.
pub proof fn lemma_selection_exhaustion<O: PackOption, I>(left: SelectionsLeft, reply: SelectReply<O, I>)
    requires
        select_accepts(left, reply),
    ensures
        reply matches SelectReply::Again(info) ==> picks(info.selections_left) + 1 == picks(
            left,
        ) && picks(info.selections_left) >= 1,
        picks(left) == 1 ==> !(reply is Again),
        reply is GameOver ==> O::spec_with_hand(),
        picks(left) >= 1,
{
}

// ------------------------------------------------------------------------------------------
// Actions shared by every screen of a run
// ------------------------------------------------------------------------------------------

/// The pending action that sends `request` from `screen`, under the screen's name followed by
/// `suffix`, and waits for the screen's snapshot.
fn hud_pending<S: Hud, Q>(screen: S, request: Q, suffix: &str) -> (r: Pending<S, Q>)
    ensures
        r.spec_from() == screen,
        r.spec_request() == request,
        r.spec_kind() == S::spec_name() + suffix@,
        r.spec_expect() == S::spec_info_kind(),
{
    Pending { from: screen, request, kind: suffixed(S::name(), suffix), expect: S::info_kind() }
}

/// Moves the joker in slot `from` to slot `to`.
pub fn move_joker<S: Hud>(screen: S, from: u32, to: u32) -> (r: Pending<S, MoveJoker>)
    ensures
        r.spec_from() == screen,
        r.spec_request() == (MoveJoker { from, to }),
        r.spec_kind() == S::spec_name() + "/hud/jokers/move"@,
        r.spec_expect() == S::spec_info_kind(),
{
    hud_pending(screen, MoveJoker { from, to }, "/hud/jokers/move")
}

/// Sells the joker in slot `index`.
pub fn sell_joker<S: Hud>(screen: S, index: u32) -> (r: Pending<S, SellJoker>)
    ensures
        r.spec_from() == screen,
        r.spec_request() == (SellJoker { index }),
        r.spec_kind() == S::spec_name() + "/hud/jokers/sell"@,
        r.spec_expect() == S::spec_info_kind(),
{
    hud_pending(screen, SellJoker { index }, "/hud/jokers/sell")
}

/// Moves the consumable in slot `from` to slot `to`.
pub fn move_consumable<S: Hud>(screen: S, from: u32, to: u32) -> (r: Pending<S, MoveConsumable>)
    ensures
        r.spec_from() == screen,
        r.spec_request() == (MoveConsumable { from, to }),
        r.spec_kind() == S::spec_name() + "/hud/consumables/move"@,
        r.spec_expect() == S::spec_info_kind(),
{
    hud_pending(screen, MoveConsumable { from, to }, "/hud/consumables/move")
}

/// Sells the consumable in slot `index`.
pub fn sell_consumable<S: Hud>(screen: S, index: u32) -> (r: Pending<S, SellConsumable>)
    ensures
        r.spec_from() == screen,
        r.spec_request() == (SellConsumable { index }),
        r.spec_kind() == S::spec_name() + "/hud/consumables/sell"@,
        r.spec_expect() == S::spec_info_kind(),
{
    hud_pending(screen, SellConsumable { index }, "/hud/consumables/sell")
}

/// Uses the consumable in slot `index`. Its reply comes under the screen's own info kind and
/// carries the same screen or the end of the run.
pub fn use_consumable<S: Hud>(screen: S, index: u32) -> (r: Pending<S, UseConsumable>)
    ensures
        r.spec_from() == screen,
        r.spec_request() == (UseConsumable { index }),
        r.spec_kind() == S::spec_name() + "/hud/consumables/use"@,
        r.spec_expect() == S::spec_info_kind(),
{
    hud_pending(screen, UseConsumable { index }, "/hud/consumables/use")
}

/// Asks for the collection, from any screen of a run.
pub fn collection<S: Hud>(screen: S) -> (r: Pending<S, GetCollection>)
    ensures
        r.spec_from() == screen,
        r.spec_kind() == "collection/get"@,
        r.spec_expect() == "collection/info"@,
{
    pending(screen, GetCollection)
}

/// The same screen, showing `reply`'s snapshot, or the screen handed back with the game's reason.
fn same_screen<S: Hud, Q>(p: Pending<S, Q>, reply: Result<S::Info, String>) -> (r: Result<
    S,
    StepError<S>,
>)
    ensures
        match reply {
            Ok(info) => r matches Ok(s) && s.info() == info,
            Err(reason) => refused(r, p.spec_from(), reason),
        },
{
    match reply {
        Ok(info) => Ok(S::new(info)),
        Err(reason) => Err(StepError::Refused { screen: p.from, reason }),
    }
}

impl<S: Hud> Pending<S, MoveJoker> {
    /// The same screen, with the jokers reordered.
    pub fn resolve(self, reply: Result<S::Info, String>) -> (r: Result<S, StepError<S>>)
        ensures
            match reply {
                Ok(info) => r matches Ok(s) && s.info() == info,
                Err(reason) => refused(r, self.spec_from(), reason),
            },
    {
        same_screen(self, reply)
    }
}

impl<S: Hud> Pending<S, SellJoker> {
    /// The same screen, with the joker sold.
    pub fn resolve(self, reply: Result<S::Info, String>) -> (r: Result<S, StepError<S>>)
        ensures
            match reply {
                Ok(info) => r matches Ok(s) && s.info() == info,
                Err(reason) => refused(r, self.spec_from(), reason),
            },
    {
        same_screen(self, reply)
    }
}

impl<S: Hud> Pending<S, MoveConsumable> {
    /// The same screen, with the consumables reordered.
    pub fn resolve(self, reply: Result<S::Info, String>) -> (r: Result<S, StepError<S>>)
        ensures
            match reply {
                Ok(info) => r matches Ok(s) && s.info() == info,
                Err(reason) => refused(r, self.spec_from(), reason),
            },
    {
        same_screen(self, reply)
    }
}

impl<S: Hud> Pending<S, SellConsumable> {
    /// The same screen, with the consumable sold.
    pub fn resolve(self, reply: Result<S::Info, String>) -> (r: Result<S, StepError<S>>)
        ensures
            match reply {
                Ok(info) => r matches Ok(s) && s.info() == info,
                Err(reason) => refused(r, self.spec_from(), reason),
            },
    {
        same_screen(self, reply)
    }
}

/// Where using a consumable leads.
pub enum UseResult<S> {
    /// The same screen.
    Again(S),
    /// The run is lost.
    GameOver(GameOverview),
}

impl<S: Hud> Pending<S, UseConsumable> {
    /// The same screen, or the end of the run.
    pub fn resolve(self, reply: Result<UseReply<S::Info>, String>) -> (r: Result<
        UseResult<S>,
        StepError<S>,
    >)
        ensures
            match reply {
                Ok(UseReply::Again(i)) => r matches Ok(UseResult::Again(s)) && s.info() == i,
                Ok(UseReply::GameOver(i)) => r matches Ok(UseResult::GameOver(g)) && g.info()
                    == i,
                Err(reason) => refused(r, self.spec_from(), reason),
            },
    {
        match reply {
            Ok(UseReply::Again(i)) => Ok(UseResult::Again(S::new(i))),
            Ok(UseReply::GameOver(i)) => Ok(UseResult::GameOver(GameOverview { info: i })),
            Err(reason) => Err(StepError::Refused { screen: self.from, reason }),
        }
    }
}

impl<S: Hud> Pending<S, GetCollection> {
    /// The collection, and the screen it was asked from, unchanged.
    pub fn resolve(self, reply: Result<CollectionInfo, String>) -> (r: Result<
        (S, Collection),
        StepError<S>,
    >)
        ensures
            match reply {
                Ok(info) => r matches Ok((s, c)) && s == self.spec_from() && c == info.collection,
                Err(reason) => refused(r, self.spec_from(), reason),
            },
    {
        match reply {
            Ok(info) => Ok((self.from, info.collection)),
            Err(reason) => Err(StepError::Refused { screen: self.from, reason }),
        }
    }
}

} // verus!
