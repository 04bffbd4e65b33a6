use remotro::catalog::{
    BlindState, Boss, BoosterPackKind, Collection, Deck, Joker, PlanetCard, PlanetKind,
    PlayingCard, PokerHandKind, Rank, Real, Seed, Stake, Suit, Tag, TarotOption,
};
use remotro::frame::ProtocolError;
use remotro::protocol::{
    BigBlindChoice, BlindChoices, BlindInfo, BossBlindChoice, BoosterPack, BoughtBooster,
    CollectionInfo, CurrentBlind, CurrentPokerHand, CurrentPokerHands, DiscardResult, Earning,
    EarningKind, GameOverviewInfo, HandCard, HudInfo, MainCard, MenuInfo, MostPlayedHand,
    OpenInfo, OpenedPack, Outcome, PlayInfo, PlayResult, PokerHand, RoundOverviewInfo, RunInfo,
    SavedRun, ScreenInfo, SelectResult, SelectionsLeft, ShopInfo, SkipBlindResult,
    SmallBlindChoice, StartRun, UseResult,
};
use remotro::screens;
use remotro::screens::{
    collection, move_joker, sell_consumable, sell_joker, use_consumable, Balatro, CurrentScreen,
    Hud, Menu, OpenBoosterPack, Play, Screen, SelectBlind, Shop, StepError,
};

fn poker(kind: PokerHandKind) -> CurrentPokerHand {
    CurrentPokerHand { hand: PokerHand { kind, level: 1, chips: 5, mult: 1 }, played: 0 }
}

fn blinds() -> BlindChoices {
    BlindChoices {
        small: SmallBlindChoice { state: BlindState::Select, chips: Real { bits: 300f64.to_bits() }, tag: Tag::Charm },
        big: BigBlindChoice { state: BlindState::Upcoming, chips: Real { bits: 450f64.to_bits() }, tag: Tag::Handy { earnings: 3 } },
        boss: BossBlindChoice { kind: Boss::TheOx { hand: PokerHandKind::Pair }, state: BlindState::Upcoming, chips: Real { bits: 600f64.to_bits() } },
    }
}

fn hud(money: u32) -> HudInfo {
    HudInfo {
        hands: 4,
        discards: 3,
        round: 1,
        ante: 1,
        money,
        jokers: vec![Joker { json: "{\"kind\":\"j_joker\"}".to_string() }],
        tags: vec![Tag::Charm],
        consumables: vec![],
        run_info: RunInfo {
            poker_hands: CurrentPokerHands {
                high_card: poker(PokerHandKind::HighCard),
                pair: poker(PokerHandKind::Pair),
                two_pair: poker(PokerHandKind::TwoPair),
                three_of_a_kind: poker(PokerHandKind::ThreeOfAKind),
                straight: poker(PokerHandKind::Straight),
                flush: poker(PokerHandKind::Flush),
                full_house: poker(PokerHandKind::FullHouse),
                four_of_a_kind: poker(PokerHandKind::FourOfAKind),
                straight_flush: poker(PokerHandKind::StraightFlush),
                five_of_a_kind: None,
                flush_house: None,
                flush_fives: None,
            },
            blinds: blinds(),
            vouchers_redeemed: vec![],
            stake: Stake::White,
        },
    }
}

fn card(rank: Rank) -> PlayingCard {
    PlayingCard { edition: None, enhancement: None, rank, suit: Suit::Hearts, seal: None, extra_chips: 0 }
}

fn play_info(selected: &[usize]) -> PlayInfo {
    let hand = (0..8)
        .map(|i| HandCard { card: Some(card(Rank::Two)), selected: selected.contains(&i) })
        .collect();
    PlayInfo {
        current_blind: CurrentBlind::Small { chips: 300 },
        hand,
        score: Real { bits: 0f64.to_bits() },
        hud: hud(4),
        poker_hand: None,
        last_score: None,
    }
}

fn shop_info(money: u32, main: Vec<MainCard>) -> ShopInfo {
    ShopInfo {
        hud: hud(money),
        main,
        vouchers: vec![],
        boosters: vec![BoosterPack { kind: BoosterPackKind::BuffoonNormal, price: 4 }],
    }
}

fn game_over() -> GameOverviewInfo {
    GameOverviewInfo {
        outcome: Outcome::Loss { defeated_by: CurrentBlind::Small { chips: 300 }, round: 1, ante: 1 },
        best_hand: Some(40),
        most_played_hand: MostPlayedHand { kind: PokerHandKind::Pair, times_played: 2 },
        cards_played: 10,
        cards_discarded: 4,
        cards_purchased: 0,
        times_rerolled: 0,
        new_discoveries: 1,
        seed: Seed::new("ABCDEFG".to_string()).unwrap(),
    }
}

fn start_menu() -> Menu {
    let p = Balatro.screen();
    assert_eq!(p.kind(), "screen/get");
    assert_eq!(p.expect(), "screen/current");
    match p.resolve(Ok(ScreenInfo::Menu(MenuInfo { saved_run: None }))) {
        Ok(CurrentScreen::Menu(m)) => m,
        _ => panic!("menu expected"),
    }
}

fn start_shop(main: Vec<MainCard>) -> Shop {
    match Balatro.screen().resolve(Ok(ScreenInfo::Shop(shop_info(10, main)))) {
        Ok(CurrentScreen::Shop(s)) => s,
        _ => panic!("shop expected"),
    }
}

#[test]
fn end_to_end_round() {
    let menu = start_menu();
    assert!(menu.saved_run().is_none());
    let p = menu.new_run(Deck::Red, Stake::White, None);
    assert_eq!(p.kind(), "main_menu/start_run");
    assert_eq!(p.expect(), "blind_select/info");
    assert_eq!(p.request(), &StartRun { deck: Deck::Red, stake: Stake::White, seed: None });
    let blind: SelectBlind = p.resolve(Ok(BlindInfo { hud: hud(4), blinds: blinds() })).ok().unwrap();
    assert_eq!(blind.small().tag, Tag::Charm);
    assert_eq!(blind.big().state, BlindState::Upcoming);
    assert_eq!(blind.boss().kind, Boss::TheOx { hand: PokerHandKind::Pair });
    let p = blind.select();
    assert_eq!(p.kind(), "blind_select/select");
    assert_eq!(p.expect(), "play/hand");
    let play: Play = p.resolve(Ok(play_info(&[]))).ok().unwrap();
    assert_eq!(play.hand().len(), 8);
    let p = play.click(&[0, 1, 2]);
    assert_eq!(p.kind(), "play/click");
    assert_eq!(p.request().indices, vec![0, 1, 2]);
    let play = p.resolve(Ok(play_info(&[0, 1, 2]))).ok().unwrap();
    let selected: Vec<usize> = play.hand().iter().enumerate().filter(|(_, c)| c.selected).map(|(i, _)| i).collect();
    assert_eq!(selected, vec![0, 1, 2]);
    let p = play.play();
    assert_eq!(p.kind(), "play/play");
    assert_eq!(p.expect(), "play/play/result");
    let over = RoundOverviewInfo { hud: hud(9), earnings: vec![], total_earned: 5 };
    match p.resolve(Ok(PlayResult::RoundOver(over))) {
        Ok(screens::PlayResult::RoundOver(o)) => {
            assert_eq!(o.total_earned(), 5);
            let p = o.cash_out();
            assert_eq!(p.kind(), "overview/cash_out");
            assert_eq!(p.expect(), "shop/info");
            let shop = p.resolve(Ok(shop_info(14, vec![]))).ok().unwrap();
            assert_eq!(shop.hud().money, 14);
        }
        _ => panic!("round over expected"),
    }
}

#[test]
fn play_again_and_game_over() {
    let play = Play::new(play_info(&[]));
    match play.play().resolve(Ok(PlayResult::Again(play_info(&[])))) {
        Ok(r) => {
            let play = r.again();
            match play.discard().resolve(Ok(DiscardResult::GameOver(game_over()))) {
                Ok(screens::DiscardResult::GameOver(g)) => {
                    assert_eq!(g.cards_played(), 10);
                    assert_eq!(g.best_hand(), Some(40));
                    assert_eq!(g.seed().as_str(), "ABCDEFG");
                    let menu = g.menu();
                    assert!(menu.saved_run().is_none());
                }
                _ => panic!("game over expected"),
            }
        }
        Err(_) => panic!("play refused"),
    }
}

#[test]
fn refused_action_hands_screen_back() {
    let shop = start_shop(vec![]);
    let p = shop.buy_main(7);
    assert_eq!(p.kind(), "shop/buymain");
    match p.resolve(Err("invalid index".to_string())) {
        Err(StepError::Refused { screen, reason }) => {
            assert_eq!(reason, "invalid index");
            assert_eq!(screen.hud().money, 10);
            let p = screen.reroll();
            assert_eq!(p.kind(), "shop/reroll");
            assert!(p.resolve(Ok(shop_info(5, vec![]))).is_ok());
        }
        _ => panic!("refusal expected"),
    }
}

#[test]
fn shop_booster_round_trip() {
    let planet = MainCard::Planet(PlanetCard { kind: PlanetKind::Mars { current_level: 1 }, price: 3, negative: false });
    let shop = start_shop(vec![planet.clone()]);
    assert_eq!(shop.boosters()[0].kind, BoosterPackKind::BuffoonNormal);
    let p = shop.buy_booster(0);
    assert_eq!(p.kind(), "shop/buybooster");
    assert_eq!(p.expect(), "shop/bought_booster");
    let opened = OpenInfo {
        hud: hud(6),
        booster: BoosterPackKind::BuffoonNormal,
        options: vec![Joker { json: "{\"kind\":\"j_greedy_joker\"}".to_string() }],
        selections_left: SelectionsLeft::One,
        hand: vec![],
    };
    let pack = match p.resolve(Ok(BoughtBooster { pack: OpenedPack::Buffoon(opened) })) {
        Ok(OpenBoosterPack::Buffoon(pack)) => pack,
        _ => panic!("buffoon pack expected"),
    };
    assert_eq!(pack.options().len(), 1);
    assert_eq!(pack.selections_left(), SelectionsLeft::One);
    let p = pack.select(0);
    assert_eq!(p.kind(), "shop/info/open/buffoon/select");
    assert_eq!(p.expect(), "shop/info/open/buffoon/select");
    match p.resolve(Ok(SelectResult::Done(shop_info(6, vec![])))) {
        Ok(screens::SelectResult::Done(shop)) => assert_eq!(shop.main_cards().len(), 0),
        _ => panic!("back to the shop expected"),
    }
}

fn arcana(left: SelectionsLeft) -> OpenInfo<TarotOption> {
    OpenInfo {
        hud: hud(3),
        booster: BoosterPackKind::ArcanaJumbo,
        options: vec![TarotOption::Soul, TarotOption::Soul],
        selections_left: left,
        hand: vec![],
    }
}

#[test]
fn pack_selections_are_exhausted() {
    let pack: screens::OpenArcanaPack<SelectBlind> = screens::OpenPack::new(arcana(SelectionsLeft::Two));
    assert_eq!(<screens::OpenArcanaPack<SelectBlind> as Screen>::name(), "blind_select/skip_result/open/arcana");
    let p = pack.select(1);
    let pack = match p.resolve(Ok(SelectResult::Again(arcana(SelectionsLeft::One)))) {
        Ok(screens::SelectResult::Again(pack)) => pack,
        _ => panic!("pack again expected"),
    };
    assert_eq!(pack.selections_left(), SelectionsLeft::One);
    // with one pick left the pack cannot come back
    match pack.select(0).resolve(Ok(SelectResult::Again(arcana(SelectionsLeft::One)))) {
        Err(StepError::Protocol(ProtocolError::UnexpectedReply)) => {}
        _ => panic!("protocol error expected"),
    }
    let pack: screens::OpenArcanaPack<SelectBlind> = screens::OpenPack::new(arcana(SelectionsLeft::One));
    let p = pack.select(0);
    assert_eq!(p.expect(), "blind_select/skip_result/open/arcana/select");
    match p.resolve(Ok(SelectResult::Done(SkipBlindResult::Select(BlindInfo { hud: hud(3), blinds: blinds() })))) {
        Ok(screens::SelectResult::Done(screens::SkipResult::Select(b))) => assert_eq!(b.hud().money, 3),
        _ => panic!("blind selection expected"),
    }
}

#[test]
fn pack_done_too_early_is_a_protocol_error() {
    let pack: screens::OpenArcanaPack<Shop> = screens::OpenPack::new(arcana(SelectionsLeft::Two));
    match pack.select(0).resolve(Ok(SelectResult::Done(shop_info(1, vec![])))) {
        Err(StepError::Protocol(ProtocolError::UnexpectedReply)) => {}
        _ => panic!("protocol error expected"),
    }
}

#[test]
fn pack_skip_click_and_loss() {
    let pack: screens::OpenArcanaPack<Shop> = screens::OpenPack::new(arcana(SelectionsLeft::Two));
    let p = pack.click(&[2, 3]);
    assert_eq!(p.kind(), "shop/info/open/arcana/click");
    assert_eq!(p.expect(), "shop/info/open/arcana/info");
    let pack = p.resolve(Ok(arcana(SelectionsLeft::Two))).ok().unwrap();
    assert_eq!(pack.hand().len(), 0);
    let p = pack.skip();
    assert_eq!(p.kind(), "shop/info/open/arcana/skip");
    assert_eq!(p.expect(), "shop/info");
    assert!(p.resolve(Ok(shop_info(2, vec![]))).is_ok());
    let pack: screens::OpenArcanaPack<Shop> = screens::OpenPack::new(arcana(SelectionsLeft::Two));
    assert!(matches!(
        pack.select(0).resolve(Ok(SelectResult::GameOver(game_over()))),
        Ok(screens::SelectResult::GameOver(_))
    ));
}

#[test]
fn skip_pack_returns_to_blind_selection() {
    let pack: screens::OpenArcanaPack<SelectBlind> = screens::OpenPack::new(arcana(SelectionsLeft::Two));
    let p = pack.skip();
    assert_eq!(p.kind(), "blind_select/skip_result/open/arcana/skip");
    assert_eq!(p.expect(), "blind_select/skip_result");
    match p.resolve(Ok(SkipBlindResult::Select(BlindInfo { hud: hud(8), blinds: blinds() }))) {
        Ok(screens::SkipResult::Select(b)) => assert_eq!(b.hud().money, 8),
        _ => panic!("blind selection expected"),
    }
    let pack: screens::OpenArcanaPack<SelectBlind> = screens::OpenPack::new(arcana(SelectionsLeft::One));
    assert!(matches!(
        pack.skip().resolve(Ok(SkipBlindResult::Booster(OpenedPack::Arcana(arcana(SelectionsLeft::Two))))),
        Ok(screens::SkipResult::Booster(OpenBoosterPack::Arcana(_)))
    ));
}

#[test]
fn game_over_only_from_hand_packs() {
    let opened = OpenInfo {
        hud: hud(6),
        booster: BoosterPackKind::BuffoonNormal,
        options: vec![Joker { json: "{}".to_string() }],
        selections_left: SelectionsLeft::One,
        hand: vec![],
    };
    let pack: screens::OpenBuffoonPack<Shop> = screens::OpenPack::new(opened);
    match pack.select(0).resolve(Ok(SelectResult::GameOver(game_over()))) {
        Err(StepError::Protocol(ProtocolError::UnexpectedReply)) => {}
        _ => panic!("protocol error expected"),
    }
}

#[test]
fn hud_reads_are_stable() {
    let shop = start_shop(vec![]);
    let first = shop.hud().clone();
    let second = shop.hud().clone();
    assert_eq!(first, second);
    assert_eq!(shop.hud().money(), 10);
    assert_eq!(shop.hud().money(), shop.hud().money());
    assert_eq!(shop.hud().hands(), 4);
    assert_eq!(shop.hud().discards(), 3);
    assert_eq!(shop.hud().round(), 1);
    assert_eq!(shop.hud().ante(), 1);
    assert_eq!(shop.hud().jokers(), shop.hud().jokers());
    assert_eq!(shop.hud().jokers().len(), 1);
    assert_eq!(shop.hud().tags(), &[Tag::Charm]);
    assert!(shop.hud().consumables().is_empty());
    assert_eq!(shop.hud().run_info().stake, Stake::White);
}

#[test]
fn hud_actions_keep_the_screen_type() {
    let shop = start_shop(vec![]);
    let p = move_joker(shop, 0, 1);
    assert_eq!(p.kind(), "shop/hud/jokers/move");
    assert_eq!(p.expect(), "shop/info");
    let shop: Shop = p.resolve(Ok(shop_info(3, vec![]))).ok().unwrap();
    let p = sell_joker(shop, 0);
    assert_eq!(p.kind(), "shop/hud/jokers/sell");
    let shop = p.resolve(Ok(shop_info(5, vec![]))).ok().unwrap();
    let p = sell_consumable(shop, 0);
    assert_eq!(p.kind(), "shop/hud/consumables/sell");
    let shop = p.resolve(Ok(shop_info(6, vec![]))).ok().unwrap();
    let play = Play::new(play_info(&[]));
    let p = use_consumable(play, 0);
    assert_eq!(p.kind(), "play/hud/consumables/use");
    assert_eq!(p.expect(), "play/hand");
    assert!(matches!(p.resolve(Ok(UseResult::GameOver(game_over()))), Ok(screens::UseResult::GameOver(_))));
    let p = collection(shop);
    assert_eq!(p.kind(), "collection/get");
    let (shop, c) = p.resolve(Ok(CollectionInfo { collection: Collection { json: "{}".to_string() } })).ok().unwrap();
    assert_eq!(c.json, "{}");
    assert_eq!(shop.hud().money, 6);
}

#[test]
fn skip_opens_pack_or_next_blind() {
    let blind = SelectBlind::new(BlindInfo { hud: hud(4), blinds: blinds() });
    let p = blind.skip();
    assert_eq!(p.kind(), "blind_select/skip");
    assert_eq!(p.expect(), "blind_select/skip_result");
    match p.resolve(Ok(SkipBlindResult::Booster(OpenedPack::Arcana(arcana(SelectionsLeft::One))))) {
        Ok(screens::SkipResult::Booster(OpenBoosterPack::Arcana(pack))) => {
            assert_eq!(pack.booster(), BoosterPackKind::ArcanaJumbo);
        }
        _ => panic!("arcana pack expected"),
    }
    let blind = SelectBlind::new(BlindInfo { hud: hud(4), blinds: blinds() });
    assert!(matches!(
        blind.skip().resolve(Ok(SkipBlindResult::Select(BlindInfo { hud: hud(4), blinds: blinds() }))),
        Ok(screens::SkipResult::Select(_))
    ));
}

#[test]
fn continue_run_dispatches_on_screen() {
    let saved = SavedRun { deck: Deck::Blue, stake: Stake::Red, best_hand: 0, round: 2, ante: 1, money: 7 };
    let menu = match Balatro.screen().resolve(Ok(ScreenInfo::Menu(MenuInfo { saved_run: Some(saved.clone()) }))) {
        Ok(CurrentScreen::Menu(m)) => m,
        _ => panic!("menu expected"),
    };
    assert_eq!(menu.saved_run(), Some(&saved));
    let p = menu.continue_run();
    assert_eq!(p.kind(), "main_menu/continue_run");
    assert_eq!(p.expect(), "screen/current");
    assert!(matches!(
        p.resolve(Ok(ScreenInfo::SkipOpen(OpenedPack::Arcana(arcana(SelectionsLeft::One))))),
        Ok(CurrentScreen::SkipOpen(OpenBoosterPack::Arcana(_)))
    ));
    assert!(matches!(
        screens::screen_of(ScreenInfo::GameOver(game_over())),
        CurrentScreen::GameOver(_)
    ));
}

#[test]
fn round_earnings_are_mapped_in_order() {
    let info = RoundOverviewInfo {
        hud: hud(4),
        earnings: vec![
            Earning { kind: EarningKind::Blind(vec![]), value: 3 },
            Earning { kind: EarningKind::Hands(2), value: 2 },
            Earning { kind: EarningKind::Interest(vec![]), value: 1 },
            Earning { kind: EarningKind::Tag(Tag::Investment), value: 25 },
        ],
        total_earned: 31,
    };
    let o = screens::RoundOverview::new(info);
    let e = o.earnings();
    assert_eq!(e.len(), 4);
    assert_eq!(e[0], screens::Earning { kind: screens::EarningKind::Blind, value: 3 });
    assert_eq!(e[1], screens::Earning { kind: screens::EarningKind::Hands(2), value: 2 });
    assert_eq!(e[2], screens::Earning { kind: screens::EarningKind::Interest, value: 1 });
    assert_eq!(e[3], screens::Earning { kind: screens::EarningKind::Tag(Tag::Investment), value: 25 });
}

#[test]
fn leave_shop_for_next_blind() {
    let shop = start_shop(vec![]);
    let p = shop.leave();
    assert_eq!(p.kind(), "shop/continue");
    assert_eq!(p.expect(), "blind_select/info");
    assert!(p.resolve(Ok(BlindInfo { hud: hud(4), blinds: blinds() })).is_ok());
    let shop = start_shop(vec![]);
    assert_eq!(shop.buy_voucher(0).kind(), "shop/buyvoucher");
    let shop = start_shop(vec![]);
    assert_eq!(shop.buy_and_use(0).kind(), "shop/buyuse");
    let shop = start_shop(vec![]);
    let p = screens::move_consumable(shop, 1, 0);
    assert_eq!(p.kind(), "shop/hud/consumables/move");
}
