use bingo_gateway::address::WalletAddress;
use bingo_gateway::config::{parse_chain_configs, split_commas, ChainConfig};
use bingo_gateway::game::{format_game_status_message, GameState, RawGameState};
use bingo_gateway::handler::{
    begin, Action, Endpoint, Event, HandlerRun, HttpError, Payload, Phase, RemoteCall, Reply, Request,
};
use bingo_gateway::receipt::{extract_card_numbers_from_receipt, LogRecord};
use bingo_gateway::registry::{Registry, Session};
use bingo_gateway::submitter::{
    draw_number, BackgroundSubmitter, CycleAction, CycleEvent, CyclePhase, SubmitterTask,
};

const WALLET: &str = "0x00112233445566778899aabbccddeeff0a1b2c3d";

fn config(name: &str, endpoint: &str) -> ChainConfig {
    ChainConfig {
        name: name.to_string(),
        endpoint: endpoint.to_string(),
        contract_address: "0xcontract".to_string(),
        credential: "SECRET-REDACTED".to_string(),
    }
}

fn registry() -> Registry<u32> {
    Registry::new(vec![
        Session { config: config("testnet", "http://a"), client: 1 },
        Session { config: config("mainnet", "http://b"), client: 2 },
    ])
}

fn raw(is_started: bool, is_ended: bool, players: u32, count: u32) -> RawGameState {
    RawGameState {
        start_time: 100,
        last_draw_time: 200,
        number_count: count,
        drawn_numbers: vec![5, 17, 300],
        is_ended,
        player_count: players,
        is_started,
    }
}

fn state(is_started: bool, is_ended: bool, players: i32, count: i8) -> GameState {
    GameState {
        start_time: 0,
        last_draw_time: 0,
        drawn_numbers_count: count,
        drawn_numbers: vec![],
        is_ended,
        player_count: players,
        is_started,
    }
}

fn body(a: &Action) -> (bool, String) {
    match a {
        Action::Respond(Reply::Body(b)) => (b.success, b.message.clone()),
        _ => panic!("expected an envelope"),
    }
}

fn is_status(a: &Action, e: HttpError) -> bool {
    match (a, e) {
        (Action::Respond(Reply::Status(HttpError::NotFound)), HttpError::NotFound) => true,
        (Action::Respond(Reply::Status(HttpError::BadRequest)), HttpError::BadRequest) => true,
        (Action::Respond(Reply::Status(HttpError::InternalError)), HttpError::InternalError) => true,
        _ => false,
    }
}

fn purchase_run() -> HandlerRun {
    let reg = registry();
    let (_, run, action) = begin(&reg, "testnet", Request::PurchaseCard(WALLET.to_string()));
    assert!(matches!(action, Action::Call(RemoteCall::ReadGameState)));
    run
}

#[test]
fn status_message_not_started_wins() {
    assert_eq!(format_game_status_message(&state(false, true, 3, 4)), "Game has not started yet");
}

#[test]
fn status_message_ended() {
    assert_eq!(format_game_status_message(&state(true, true, 3, 4)), "Game has ended");
}

#[test]
fn status_message_active() {
    assert_eq!(
        format_game_status_message(&state(true, false, 12, 7)),
        "Game is active with 12 players. 7 numbers drawn so far"
    );
    assert_eq!(
        format_game_status_message(&state(true, false, -1, -56)),
        "Game is active with -1 players. -56 numbers drawn so far"
    );
    assert_eq!(
        format_game_status_message(&state(true, false, 0, 0)),
        "Game is active with 0 players. 0 numbers drawn so far"
    );
}

#[test]
fn game_state_narrows_like_a_cast() {
    let g = GameState::from_raw(&raw(true, false, 0xFFFF_FFFF, 200));
    assert_eq!(g.drawn_numbers_count, -56);
    assert_eq!(g.player_count, -1);
    assert_eq!(g.drawn_numbers, vec![5i8, 17, 44]);
    assert_eq!(g.start_time, 100);
    assert_eq!(g.last_draw_time, 200);
}

#[test]
fn split_on_commas() {
    assert_eq!(split_commas("a,b,,c"), vec!["a", "b", "", "c"]);
    assert_eq!(split_commas(""), vec![""]);
    assert_eq!(split_commas("x,"), vec!["x", ""]);
}

#[test]
fn configs_pair_up_by_position() {
    let c = parse_chain_configs("http://a,http://b", "0x1,0x2", "k1,k2", "testnet,mainnet").ok().unwrap();
    assert_eq!(c.len(), 2);
    assert_eq!(c[1].name, "mainnet");
    assert_eq!(c[1].endpoint, "http://b");
    assert_eq!(c[1].contract_address, "0x2");
    assert_eq!(c[1].credential, "k2");
    assert_eq!(c[0].name, "testnet");
}

#[test]
fn mismatched_configuration_is_refused() {
    let e = parse_chain_configs("http://a,http://b", "0x1", "k1,k2", "testnet,mainnet").err().unwrap();
    assert_eq!(
        (e.endpoints, e.contract_addresses, e.credentials, e.chain_names),
        (2, 1, 2, 2)
    );
}

#[test]
fn registry_holds_one_session_per_name() {
    let reg = registry();
    assert_eq!(reg.get("testnet").unwrap().client, 1);
    assert_eq!(reg.get("mainnet").unwrap().client, 2);
    assert!(reg.get("devnet").is_none());
}

#[test]
fn registry_later_session_replaces_earlier() {
    let reg = Registry::new(vec![
        Session { config: config("testnet", "http://a"), client: 1u32 },
        Session { config: config("testnet", "http://c"), client: 3u32 },
    ]);
    let s = reg.get("testnet").unwrap();
    assert_eq!(s.client, 3);
    assert_eq!(s.config.endpoint, "http://c");
}

#[test]
fn unknown_chain_is_not_found_for_every_route() {
    let reg = registry();
    for req in [
        Request::GameState,
        Request::PurchaseCard(WALLET.to_string()),
        Request::GetCard(WALLET.to_string()),
        Request::Challenge("not an address".to_string()),
    ] {
        let (session, run, action) = begin(&reg, "devnet", req);
        assert!(session.is_none());
        assert!(run.phase == Phase::Finished);
        assert!(is_status(&action, HttpError::NotFound));
    }
}

#[test]
fn malformed_wallet_is_bad_request() {
    let reg = registry();
    for w in ["0x1234", "0xZZ112233445566778899aabbccddeeff0a1b2c3d", "", "0X00112233445566778899aabbccddeeff0a1b2c3d"] {
        for req in [
            Request::PurchaseCard(w.to_string()),
            Request::GetCard(w.to_string()),
            Request::Challenge(w.to_string()),
        ] {
            let (session, _, action) = begin(&reg, "testnet", req);
            assert!(session.is_some());
            assert!(is_status(&action, HttpError::BadRequest));
        }
    }
}

#[test]
fn wallet_address_decodes_bytes() {
    let a = WalletAddress::parse(WALLET).unwrap();
    assert_eq!(a.bytes[0], 0x00);
    assert_eq!(a.bytes[1], 0x11);
    assert_eq!(a.bytes[15], 0xff);
    assert_eq!(a.bytes[19], 0x3d);
    let b = WalletAddress::parse("00112233445566778899AABBCCDDEEFF0A1B2C3D").unwrap();
    assert_eq!(a.bytes, b.bytes);
}

#[test]
fn wallet_address_skips_whitespace() {
    let a = WalletAddress::parse(WALLET).unwrap();
    let trailing = format!("{}\n", WALLET);
    assert_eq!(WalletAddress::parse(&trailing).unwrap().bytes, a.bytes);
    let spaced = "0x0011 2233445566778899aabbccddeeff0a1b2c3d\t";
    assert_eq!(WalletAddress::parse(spaced).unwrap().bytes, a.bytes);
    assert!(WalletAddress::parse("0x 12").is_none());
    assert!(WalletAddress::parse(" 0x00112233445566778899aabbccddeeff0a1b2c3d").is_none());
}

#[test]
fn whitespace_in_wallet_reaches_the_call() {
    let reg = registry();
    let trailing = format!("{}\n", WALLET);
    let (_, _, action) = begin(&reg, "testnet", Request::Challenge(trailing));
    match action {
        Action::Call(RemoteCall::SendClaimWin(a)) => assert_eq!(a.bytes[19], 0x3d),
        _ => panic!("expected the claim call"),
    }
    let (_, _, action) = begin(&reg, "testnet", Request::GetCard("0x 12".to_string()));
    assert!(is_status(&action, HttpError::BadRequest));
}

#[test]
fn get_card_reads_the_parsed_wallet() {
    let reg = registry();
    let (session, mut run, action) = begin(&reg, "mainnet", Request::GetCard(WALLET.to_string()));
    assert_eq!(session.unwrap().client, 2);
    match action {
        Action::Call(RemoteCall::ReadCard(a)) => assert_eq!(a.bytes[19], 0x3d),
        _ => panic!("expected a card read"),
    }
    let card: Vec<u32> = (1..=25).collect();
    let done = run.step(Event::CardRead(Ok(card.clone())));
    assert_eq!(body(&done), (true, "Get Card".to_string()));
    match done {
        Action::Respond(Reply::Body(b)) => assert!(matches!(b.data, Some(Payload::Card(c)) if c == card)),
        _ => panic!("expected an envelope"),
    }
}

#[test]
fn game_state_query_reports_status() {
    let reg = registry();
    let (_, mut run, action) = begin(&reg, "testnet", Request::GameState);
    assert!(matches!(action, Action::Call(RemoteCall::ReadGameState)));
    let done = run.step(Event::GameStateRead(Ok(raw(true, false, 4, 2))));
    assert_eq!(body(&done), (true, "Game is active with 4 players. 2 numbers drawn so far".to_string()));
    let mut run2 = HandlerRun { endpoint: Endpoint::GameState, phase: Phase::ReadingState, address: None };
    let failed = run2.step(Event::GameStateRead(Err("timeout".to_string())));
    assert_eq!(body(&failed), (false, "Failed to get game state: timeout".to_string()));
}

#[test]
fn repeated_game_state_query_is_identical() {
    let mut r1 = HandlerRun { endpoint: Endpoint::GameState, phase: Phase::ReadingState, address: None };
    let mut r2 = HandlerRun { endpoint: Endpoint::GameState, phase: Phase::ReadingState, address: None };
    let a1 = r1.step(Event::GameStateRead(Ok(raw(true, false, 9, 3))));
    let a2 = r2.step(Event::GameStateRead(Ok(raw(true, false, 9, 3))));
    assert_eq!(body(&a1), body(&a2));
    match (a1, a2) {
        (Action::Respond(Reply::Body(x)), Action::Respond(Reply::Body(y))) => match (x.data, y.data) {
            (Some(Payload::State(g)), Some(Payload::State(h))) => {
                assert_eq!(g.drawn_numbers, h.drawn_numbers);
                assert_eq!(g.player_count, h.player_count);
                assert_eq!(g.start_time, h.start_time);
            }
            _ => panic!("expected states"),
        },
        _ => panic!("expected envelopes"),
    }
}

#[test]
fn purchase_refused_once_game_started() {
    let mut run = purchase_run();
    let a = run.step(Event::GameStateRead(Ok(raw(true, false, 1, 0))));
    assert_eq!(body(&a), (false, "Game has already started".to_string()));
    assert!(run.phase == Phase::Finished);
}

#[test]
fn purchase_proceeds_before_game_starts() {
    let mut run = purchase_run();
    let a = run.step(Event::GameStateRead(Ok(raw(false, false, 0, 0))));
    match a {
        Action::Call(RemoteCall::SendAssignCard(w, _)) => assert_eq!(w.bytes[1], 0x11),
        _ => panic!("expected the assign call"),
    }
    let a = run.step(Event::Sent(Ok(())));
    assert!(matches!(a, Action::Call(RemoteCall::AwaitConfirmation)));
    let a = run.step(Event::Confirmed(Ok(Some("0xabc".to_string()))));
    assert_eq!(body(&a), (true, "Bingo card purchased and assigned successfully".to_string()));
}

#[test]
fn purchase_failures_are_enveloped() {
    let mut run = purchase_run();
    let a = run.step(Event::GameStateRead(Err("rpc down".to_string())));
    assert_eq!(body(&a), (false, "Failed to check game state: rpc down".to_string()));
    let mut run = purchase_run();
    run.step(Event::GameStateRead(Ok(raw(false, false, 0, 0))));
    let a = run.step(Event::Sent(Err("nonce".to_string())));
    assert_eq!(body(&a), (false, "Failed to send transaction: nonce".to_string()));
    let mut run = purchase_run();
    run.step(Event::GameStateRead(Ok(raw(false, false, 0, 0))));
    run.step(Event::Sent(Ok(())));
    let a = run.step(Event::Confirmed(Err("reverted".to_string())));
    assert_eq!(body(&a), (false, "Transaction failed: reverted".to_string()));
    let mut run = purchase_run();
    run.step(Event::GameStateRead(Ok(raw(false, false, 0, 0))));
    run.step(Event::Sent(Ok(())));
    let a = run.step(Event::Confirmed(Ok(None)));
    assert!(is_status(&a, HttpError::InternalError));
}

#[test]
fn challenge_reports_win_or_failure() {
    let reg = registry();
    let (_, mut run, action) = begin(&reg, "testnet", Request::Challenge(WALLET.to_string()));
    assert!(matches!(action, Action::Call(RemoteCall::SendClaimWin(_))));
    run.step(Event::Sent(Ok(())));
    let a = run.step(Event::Confirmed(Ok(None)));
    assert_eq!(body(&a), (true, "You won!".to_string()));
    let (_, mut run, _) = begin(&reg, "testnet", Request::Challenge(WALLET.to_string()));
    let a = run.step(Event::Sent(Err("not a winner".to_string())));
    assert_eq!(body(&a), (false, "Invalid win not a winner".to_string()));
    match a {
        Action::Respond(Reply::Body(b)) => assert!(matches!(b.data, Some(Payload::Won(false)))),
        _ => panic!("expected an envelope"),
    }
}

#[test]
fn unexpected_event_is_internal_error() {
    let mut run = HandlerRun { endpoint: Endpoint::GetCard, phase: Phase::ReadingCard, address: None };
    let a = run.step(Event::Sent(Ok(())));
    assert!(is_status(&a, HttpError::InternalError));
    assert!(run.phase == Phase::Finished);
}

fn logs_with_topic(n: usize) -> Vec<LogRecord> {
    let topic: Vec<u8> = (0..n).map(|i| (i * 3) as u8).collect();
    vec![LogRecord { topics: vec![vec![0xee; 32], topic] }]
}

#[test]
fn card_extracted_from_exactly_25_bytes() {
    let card = extract_card_numbers_from_receipt(&logs_with_topic(25)).ok().unwrap();
    let expected: Vec<u32> = (0..25u32).map(|i| i * 3).collect();
    assert_eq!(card, expected);
}

#[test]
fn card_extraction_fails_on_other_lengths() {
    for n in [24usize, 26, 32, 0] {
        let e = extract_card_numbers_from_receipt(&logs_with_topic(n)).err().unwrap();
        assert_eq!(e, "Failed to extract card numbers from receipt");
    }
    assert!(extract_card_numbers_from_receipt(&vec![]).is_err());
    let one_topic = vec![LogRecord { topics: vec![vec![1; 25]] }];
    assert!(extract_card_numbers_from_receipt(&one_topic).is_err());
}

#[test]
fn drawn_numbers_fall_in_range() {
    for _ in 0..200 {
        let n = draw_number();
        assert!((1..=99).contains(&n));
    }
}

#[test]
fn cycle_skips_submission_when_inactive() {
    let mut t = SubmitterTask::new();
    assert!(t.step(CycleEvent::StopSignal(true)) == CycleAction::CheckActive);
    assert!(t.step(CycleEvent::ActiveRead(Ok(false))) == CycleAction::Sleep(15));
    assert!(t.step(CycleEvent::Slept) == CycleAction::ReadStopSignal);
    assert!(t.step(CycleEvent::StopSignal(true)) == CycleAction::CheckActive);
    assert!(t.step(CycleEvent::ActiveRead(Err("rpc".to_string()))) == CycleAction::Sleep(15));
}

#[test]
fn cycle_submits_when_active() {
    let mut t = SubmitterTask::new();
    t.step(CycleEvent::StopSignal(true));
    match t.step(CycleEvent::ActiveRead(Ok(true))) {
        CycleAction::Submit(n) => assert!((1..=99).contains(&n)),
        _ => panic!("expected a submission"),
    }
    assert!(t.step(CycleEvent::Submitted(Ok(()))) == CycleAction::AwaitConfirmation);
    assert!(t.step(CycleEvent::Confirmed(Ok(Some(7)))) == CycleAction::Sleep(15));
    let mut u = SubmitterTask { phase: CyclePhase::CheckingActive };
    assert!(u.step_with(CycleEvent::ActiveRead(Ok(true)), 42) == CycleAction::Submit(42));
}

#[test]
fn cycle_stops_after_signal() {
    let submitter = BackgroundSubmitter::new();
    let reader = submitter.get_fairing();
    assert!(reader.is_running());
    submitter.stop();
    assert!(!reader.is_running());
    let mut t = SubmitterTask::new();
    assert!(t.step(CycleEvent::StopSignal(reader.is_running())) == CycleAction::Exit);
    assert!(t.phase == CyclePhase::Stopped);
    assert!(t.step(CycleEvent::ActiveRead(Ok(true))) == CycleAction::Exit);
    assert!(t.step(CycleEvent::StopSignal(true)) == CycleAction::Exit);
}

#[test]
fn in_flight_submission_completes_after_stop() {
    let mut t = SubmitterTask { phase: CyclePhase::Submitting };
    assert!(t.step(CycleEvent::Submitted(Ok(()))) == CycleAction::AwaitConfirmation);
    assert!(t.step(CycleEvent::Confirmed(Ok(None))) == CycleAction::Sleep(15));
    assert!(t.step(CycleEvent::Slept) == CycleAction::ReadStopSignal);
    assert!(t.step(CycleEvent::StopSignal(false)) == CycleAction::Exit);
}
