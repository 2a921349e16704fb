//! Scenarios driving the fuzzing state machine through typed backend
//! replies, the way a worker lane does.

use brdgme_fuzz::fuzzer::classify_play;
use brdgme_fuzz::fuzzer::Fuzzer;
use brdgme_fuzz::fuzzer::NextAction;
use brdgme_fuzz::protocol::BackendRequest;
use brdgme_fuzz::protocol::BackendResponse;
use brdgme_fuzz::protocol::PlayOutcome;
use brdgme_fuzz::session::PlayerRender;
use brdgme_fuzz::session::Session;
use brdgme_fuzz::session::Status;
use brdgme_fuzz::step::FuzzStep;

fn active_session(whose_turn: Vec<usize>, specs: Vec<Option<String>>) -> Session<String> {
    Session {
        state: "state-blob".to_string(),
        status: Status::Active { whose_turn },
        player_renders: specs
            .into_iter()
            .map(|command_spec| PlayerRender { command_spec })
            .collect(),
    }
}

fn fuzzer_with_game(session: Session<String>) -> Fuzzer<String> {
    let counts = BackendResponse::PlayerCounts { player_counts: vec![2] };
    let mut f: Fuzzer<String> = Fuzzer::new(Ok(counts)).unwrap();
    match f.next_request() {
        NextAction::Request(BackendRequest::New { players }) => assert_eq!(players, 2),
        _ => panic!("expected a new-game request"),
    }
    let step = f.next_response(Ok(BackendResponse::New { session }));
    assert!(matches!(step, FuzzStep::Created));
    f
}

#[test]
fn created_after_new_game_with_two_players() {
    let counts = BackendResponse::PlayerCounts { player_counts: vec![2] };
    let mut f: Fuzzer<String> = Fuzzer::new(Ok(counts)).unwrap();
    match f.next_request() {
        NextAction::Request(BackendRequest::New { players }) => assert_eq!(players, 2),
        _ => panic!("expected a new-game request"),
    }
    assert_eq!(f.names, vec!["player0".to_string(), "player1".to_string()]);
    let session = active_session(
        vec![0, 1],
        vec![Some("grammar0".to_string()), Some("grammar1".to_string())],
    );
    let step = f.next_response(Ok(BackendResponse::New { session }));
    assert!(matches!(step, FuzzStep::Created));
    let g = f.game.as_ref().expect("expected a live session");
    assert_eq!(g.player_renders.len(), 2);
    assert!(matches!(g.status, Status::Active { .. }));
}

#[test]
fn construction_rejects_wrong_reply() {
    let reply = BackendResponse::UserError { message: "nope".to_string() };
    let r: Result<Fuzzer<String>, String> = Fuzzer::new(Ok(reply));
    assert_eq!(r.err().unwrap(), "invalid response to player counts request");
}

#[test]
fn construction_propagates_transport_error() {
    let r: Result<Fuzzer<String>, String> = Fuzzer::new(Err("connection refused".to_string()));
    assert_eq!(r.err().unwrap(), "connection refused");
}

#[test]
fn empty_player_counts_is_fatal() {
    let counts = BackendResponse::PlayerCounts { player_counts: vec![] };
    let mut f: Fuzzer<String> = Fuzzer::new(Ok(counts)).unwrap();
    match f.next_request() {
        NextAction::Step(FuzzStep::Error { game, command, error }) => {
            assert!(game.is_none());
            assert!(command.is_none());
            assert_eq!(error, "could not get player counts");
        }
        _ => panic!("expected a fatal step"),
    }
}

#[test]
fn invalid_new_game_reply_is_fatal() {
    let counts = BackendResponse::PlayerCounts { player_counts: vec![2] };
    let mut f: Fuzzer<String> = Fuzzer::new(Ok(counts)).unwrap();
    let reply = BackendResponse::UserError { message: "backend refused".to_string() };
    match f.next_response(Ok(reply)) {
        FuzzStep::Error { game, command, error } => {
            assert!(game.is_none());
            assert!(command.is_none());
            assert_eq!(error, "invalid response for new game");
        }
        _ => panic!("expected a fatal step"),
    }
    assert!(f.game.is_none());
}

#[test]
fn play_request_carries_selected_grammar() {
    let mut f = fuzzer_with_game(active_session(
        vec![1],
        vec![Some("grammar-a".to_string()), Some("grammar-b".to_string())],
    ));
    match f.next_request() {
        NextAction::Request(BackendRequest::Play { game, player, names, command_spec }) => {
            assert_eq!(player, 1);
            assert_eq!(command_spec, "grammar-b");
            assert_eq!(game, "state-blob");
            assert_eq!(names, vec!["player0".to_string(), "player1".to_string()]);
        }
        _ => panic!("expected a play directive"),
    }
}

#[test]
fn missing_command_spec_is_fatal() {
    let mut f = fuzzer_with_game(active_session(vec![0], vec![None]));
    match f.next_request() {
        NextAction::Step(FuzzStep::Error { game, command, error }) => {
            assert_eq!(error, "player 0's command_spec is None");
            assert!(command.is_none());
            let snap = game.expect("expected a session snapshot");
            assert_eq!(snap.state, "state-blob");
        }
        _ => panic!("expected a fatal step"),
    }
    assert!(f.game.is_some(), "the session must stay for diagnosis");
}

#[test]
fn missing_player_render_is_fatal() {
    let mut f = fuzzer_with_game(active_session(vec![3], vec![Some("g".to_string())]));
    match f.next_request() {
        NextAction::Step(FuzzStep::Error { error, .. }) => {
            assert_eq!(error, "there is no player_render for player 3");
        }
        _ => panic!("expected a fatal step"),
    }
}

#[test]
fn empty_turn_set_is_fatal() {
    let mut f = fuzzer_with_game(active_session(vec![], vec![]));
    match f.next_request() {
        NextAction::Step(FuzzStep::Error { error, .. }) => {
            assert_eq!(error, "unable to pick active turn player");
        }
        _ => panic!("expected a fatal step"),
    }
}

#[test]
fn advancing_a_finished_session_is_fatal() {
    let finished = Session {
        state: "over".to_string(),
        status: Status::Finished,
        player_renders: vec![],
    };
    let mut f = fuzzer_with_game(finished);
    match f.next_request() {
        NextAction::Step(FuzzStep::Error { error, .. }) => {
            assert_eq!(error, "the game is already finished");
        }
        _ => panic!("expected a fatal step"),
    }
}

#[test]
fn incomplete_parse_is_user_error() {
    let mut f = fuzzer_with_game(active_session(vec![0], vec![Some("g".to_string())]));
    let reply = BackendResponse::Play {
        session: active_session(vec![0], vec![Some("g".to_string())]),
        remaining_input: "xtra".to_string(),
    };
    let step = f.next_response(Ok(reply));
    assert!(matches!(step, FuzzStep::UserError));
    let g = f.game.as_ref().expect("session must be unchanged");
    assert_eq!(g.state, "state-blob");
    let mut tally = brdgme_fuzz::tally::FuzzTally::default();
    assert!(!brdgme_fuzz::orchestrator::consume_step(&mut tally, &step));
    assert_eq!(tally.invalid_input, 1);
    assert_eq!(tally.commands, 1);
}

#[test]
fn rejected_command_is_user_error() {
    let mut f = fuzzer_with_game(active_session(vec![0], vec![Some("g".to_string())]));
    let reply = BackendResponse::UserError { message: "bad move".to_string() };
    let step = f.next_response(Ok(reply));
    assert!(matches!(step, FuzzStep::UserError));
    assert!(f.game.is_some());
}

#[test]
fn applied_play_replaces_session() {
    let mut f = fuzzer_with_game(active_session(vec![0], vec![Some("g".to_string())]));
    let next = Session {
        state: "after-move".to_string(),
        status: Status::Active { whose_turn: vec![1] },
        player_renders: vec![
            PlayerRender { command_spec: None },
            PlayerRender { command_spec: Some("g1".to_string()) },
        ],
    };
    let step = f.next_response(Ok(BackendResponse::Play {
        session: next,
        remaining_input: String::new(),
    }));
    assert!(matches!(step, FuzzStep::CommandOk));
    assert_eq!(f.game.as_ref().unwrap().state, "after-move");
}

#[test]
fn finished_game_clears_session_then_new_game() {
    let mut f = fuzzer_with_game(active_session(vec![0], vec![Some("g".to_string())]));
    let finished = Session {
        state: "endgame".to_string(),
        status: Status::Finished,
        player_renders: vec![],
    };
    let step = f.next_response(Ok(BackendResponse::Play {
        session: finished,
        remaining_input: "   ".to_string(),
    }));
    assert!(matches!(step, FuzzStep::Finished));
    assert!(f.game.is_none(), "a finished session must be discarded");
    match f.next_request() {
        NextAction::Request(BackendRequest::New { players }) => assert_eq!(players, 2),
        _ => panic!("expected a new-game attempt after the game finished"),
    }
}

#[test]
fn play_transport_error_keeps_session() {
    let mut f = fuzzer_with_game(active_session(vec![0], vec![Some("g".to_string())]));
    match f.next_response(Err("pipe broke".to_string())) {
        FuzzStep::Error { game, command, error } => {
            assert_eq!(error, "pipe broke");
            assert!(command.is_none());
            assert_eq!(game.expect("snapshot expected").state, "state-blob");
        }
        _ => panic!("expected a fatal step"),
    }
    assert!(f.game.is_some());
}

#[test]
fn classify_blank_remaining_applies() {
    let reply = BackendResponse::Play {
        session: active_session(vec![0], vec![Some("g".to_string())]),
        remaining_input: " \t\n ".to_string(),
    };
    match classify_play(Ok(reply)) {
        Ok(PlayOutcome::Applied { session }) => assert_eq!(session.state, "state-blob"),
        _ => panic!("expected the play to apply"),
    }
}

#[test]
fn classify_trailing_text_is_incomplete() {
    let reply = BackendResponse::Play {
        session: active_session(vec![0], vec![Some("g".to_string())]),
        remaining_input: " xtra ".to_string(),
    };
    assert!(matches!(classify_play(Ok(reply)), Ok(PlayOutcome::Incomplete)));
}

#[test]
fn classify_rejected_keeps_message() {
    let reply: BackendResponse<String> =
        BackendResponse::UserError { message: "cannot play there".to_string() };
    match classify_play(Ok(reply)) {
        Ok(PlayOutcome::Rejected { message }) => assert_eq!(message, "cannot play there"),
        _ => panic!("expected a rejection"),
    }
}

#[test]
fn classify_unexpected_reply_is_error() {
    let reply: BackendResponse<String> =
        BackendResponse::Unexpected { detail: "Render { .. }".to_string() };
    assert_eq!(classify_play(Ok(reply)).err().unwrap(), "Render { .. }");
}

#[test]
fn classify_wrong_shape_is_error() {
    let reply: BackendResponse<String> = BackendResponse::PlayerCounts { player_counts: vec![2] };
    assert_eq!(
        classify_play(Ok(reply)).err().unwrap(),
        "invalid response for play command"
    );
}

#[test]
fn classify_transport_error_propagates() {
    let r: Result<PlayOutcome<String>, String> = classify_play(Err("timed out".to_string()));
    assert_eq!(r.err().unwrap(), "timed out");
}
