use remotro::link::{
    classify_line, greeting_line, outbound_line, reader_step, route_line, Inbound, KeepAlive,
    KeepAliveAction, KeepAliveConfig, ReadOutcome, ReaderAction, CONNECTED, KEEP_ALIVE,
    KEEP_ALIVE_ACK,
};

#[test]
fn classify_control_lines() {
    assert!(matches!(classify_line("action:keepAlive"), Inbound::KeepAlive));
    assert!(matches!(classify_line("action:keepAliveAck"), Inbound::KeepAliveAck));
    assert!(matches!(classify_line(""), Inbound::Blank));
    match classify_line("shop/info!{}") {
        Inbound::Message(m) => assert_eq!(m, "shop/info!{}"),
        _ => panic!("application line not delivered"),
    }
}

#[test]
fn route_trims_the_raw_line() {
    assert!(matches!(route_line("  action:keepAlive\r\n"), Inbound::KeepAlive));
    assert!(matches!(route_line("\taction:keepAliveAck\n"), Inbound::KeepAliveAck));
    assert!(matches!(route_line(" \n"), Inbound::Blank));
    match route_line("  play/hand!{}  \n") {
        Inbound::Message(m) => assert_eq!(m, "play/hand!{}"),
        _ => panic!("application line not delivered"),
    }
}

#[test]
fn reader_decisions() {
    assert!(matches!(reader_step(ReadOutcome::Eof), ReaderAction::Stop));
    assert!(matches!(reader_step(ReadOutcome::Failed), ReaderAction::Stop));
    assert!(matches!(reader_step(ReadOutcome::Line("action:keepAlive\n".to_string())), ReaderAction::SendAck));
    assert!(matches!(reader_step(ReadOutcome::Line("action:keepAliveAck\n".to_string())), ReaderAction::SignalAck));
    assert!(matches!(reader_step(ReadOutcome::Line("\n".to_string())), ReaderAction::Skip));
    match reader_step(ReadOutcome::Line("shop/info!{}\n".to_string())) {
        ReaderAction::Deliver(m) => assert_eq!(m, "shop/info!{}"),
        _ => panic!("application line not delivered"),
    }
}

#[test]
fn outbound_lines_end_once() {
    assert_eq!(outbound_line("screen/get!null".to_string()), "screen/get!null\n");
    assert_eq!(outbound_line("screen/get!null\n".to_string()), "screen/get!null\n");
    assert_eq!(outbound_line(String::new()), "\n");
    assert_eq!(greeting_line(), "Connected\n");
    assert_eq!(CONNECTED, "Connected");
    assert_eq!(KEEP_ALIVE, "action:keepAlive");
    assert_eq!(KEEP_ALIVE_ACK, "action:keepAliveAck");
}

#[test]
fn silent_peer_is_torn_down_after_max_retries() {
    let config = KeepAliveConfig::standard();
    assert_eq!(config.period_secs, 15);
    assert_eq!(config.max_retries, 5);
    let mut k = KeepAlive::new(config);
    // the first look finds the acknowledgement the monitor starts with
    assert_eq!(k.on_tick(), KeepAliveAction::Ping);
    for look in 1..5 {
        assert_eq!(k.on_tick(), KeepAliveAction::Ping, "look {look}");
        assert_eq!(k.missed, look);
        assert!(k.alive);
    }
    assert_eq!(k.on_tick(), KeepAliveAction::TearDown);
    assert!(!k.alive);
    assert_eq!(k.on_tick(), KeepAliveAction::TearDown);
}

#[test]
fn acknowledgement_resets_the_count() {
    let mut k = KeepAlive::new(KeepAliveConfig { period_secs: 5, max_retries: 3 });
    assert_eq!(k.on_tick(), KeepAliveAction::Ping);
    assert_eq!(k.on_tick(), KeepAliveAction::Ping);
    assert_eq!(k.missed, 1);
    k.on_ack();
    assert_eq!(k.on_tick(), KeepAliveAction::Ping);
    assert_eq!(k.missed, 0);
    assert_eq!(k.on_tick(), KeepAliveAction::Ping);
    assert_eq!(k.on_tick(), KeepAliveAction::Ping);
    assert_eq!(k.on_tick(), KeepAliveAction::TearDown);
}

#[test]
fn single_retry_tears_down_on_first_silence() {
    let mut k = KeepAlive::new(KeepAliveConfig { period_secs: 1, max_retries: 1 });
    assert_eq!(k.on_tick(), KeepAliveAction::Ping);
    assert_eq!(k.on_tick(), KeepAliveAction::TearDown);
}

#[test]
fn closed_writer_tears_down() {
    let mut k = KeepAlive::new(KeepAliveConfig::standard());
    assert_eq!(k.on_writer_closed(), KeepAliveAction::TearDown);
    assert!(!k.alive);
    assert_eq!(k.on_tick(), KeepAliveAction::TearDown);
}

#[test]
fn unicode_whitespace_trims_as_std_does() {
    let raw = "\u{a0}\u{3000} play/hand!{} \u{2003}\u{85}\n";
    match route_line(raw) {
        Inbound::Message(m) => assert_eq!(m, raw.trim()),
        _ => panic!("application line not delivered"),
    }
    assert!(matches!(route_line("\u{2028}\u{2029}\u{202f}\u{205f}\u{1680}"), Inbound::Blank));
    match route_line("\u{200b}x") {
        Inbound::Message(m) => assert_eq!(m, "\u{200b}x"),
        _ => panic!("zero-width space is no whitespace"),
    }
}
