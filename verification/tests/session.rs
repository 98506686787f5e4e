//! Tests for the client session protocol: the registration handshake, the
//! active loop, lag reporting and the closing step.

use beeeees::game_loop::RefuseReason;
use beeeees::intents::{BeeID, Direction, Move};
use beeeees::player::Player;
use beeeees::protocol::{notice_text, Notice, Receive};
use beeeees::session::{
    AdmissionAction, AdmissionOutcome, BroadcastAction, BroadcastEvent, CloseAction,
    HandshakeAction, HandshakeEvent, InboundAction, InboundEvent, Session, SessionState,
};

fn active_session(player: Player) -> Session {
    let mut s = Session::new();
    let action = s.handshake(HandshakeEvent::Inbound(Receive::Register {
        name: String::from("someone"),
    }));
    assert!(matches!(action, HandshakeAction::RequestAdmission { .. }));
    let action = s.on_admission(player, AdmissionOutcome::Granted);
    assert!(matches!(action, AdmissionAction::Activate));
    assert_eq!(s.state, SessionState::Active);
    s
}

#[test]
fn shutdown_during_registration_closes_without_reaching_active() {
    let mut s = Session::new();
    let action = s.handshake(HandshakeEvent::ShutdownFired);
    assert!(matches!(action, HandshakeAction::AbortShutdown));
    assert_eq!(s.state, SessionState::Closed { failed: false });
}

#[test]
fn first_message_must_be_a_registration() {
    let mut s = Session::new();
    let action = s.handshake(HandshakeEvent::Inbound(Receive::Moves { moves: vec![] }));
    assert!(matches!(action, HandshakeAction::AbortUnexpected));
    assert_eq!(s.state, SessionState::Closed { failed: true });
}

#[test]
fn transport_error_and_eof_fail_the_handshake() {
    let mut s = Session::new();
    assert!(matches!(
        s.handshake(HandshakeEvent::TransportError),
        HandshakeAction::AbortTransport
    ));
    assert_eq!(s.state, SessionState::Closed { failed: true });

    let mut s2 = Session::new();
    assert!(matches!(s2.handshake(HandshakeEvent::Eof), HandshakeAction::AbortEof));
    assert_eq!(s2.state, SessionState::Closed { failed: true });
}

#[test]
fn registration_hands_the_name_to_the_admission_step() {
    let mut s = Session::new();
    let action = s.handshake(HandshakeEvent::Inbound(Receive::Register {
        name: String::from("alice"),
    }));
    match action {
        HandshakeAction::RequestAdmission { name } => assert_eq!(name, "alice"),
        other => panic!("expected an admission request, got {:?}", other),
    }
    assert_eq!(s.state, SessionState::Admitting);
}

#[test]
fn closed_queue_and_dropped_reply_mean_the_game_is_over() {
    let mut s = Session::new();
    s.handshake(HandshakeEvent::Inbound(Receive::Register { name: String::from("a") }));
    let action = s.on_admission(Player::new(1), AdmissionOutcome::QueueClosed);
    assert!(matches!(action, AdmissionAction::AbortFinished));
    assert_eq!(s.state, SessionState::Closed { failed: true });

    let mut s2 = Session::new();
    s2.handshake(HandshakeEvent::Inbound(Receive::Register { name: String::from("a") }));
    let action = s2.on_admission(Player::new(1), AdmissionOutcome::ReplyDropped);
    assert!(matches!(action, AdmissionAction::AbortFinished));
    assert_eq!(s2.state, SessionState::Closed { failed: true });
}

#[test]
fn refused_admission_is_relayed_and_fails_the_session() {
    let mut s = Session::new();
    s.handshake(HandshakeEvent::Inbound(Receive::Register { name: String::from("a") }));
    let action = s.on_admission(
        Player::new(1),
        AdmissionOutcome::Refused { reason: RefuseReason::DuplicatePlayer },
    );
    assert!(matches!(
        action,
        AdmissionAction::AbortRefused { reason: RefuseReason::DuplicatePlayer }
    ));
    assert_eq!(s.state, SessionState::Closed { failed: true });
}

#[test]
fn lag_is_reported_once_with_the_skip_count_and_play_resumes() {
    let mut s = active_session(Player::new(5));
    let action = s.on_broadcast(BroadcastEvent::Lagged { skipped: 3 });
    assert_eq!(action, BroadcastAction::WarnLag { skipped: 3 });
    assert_eq!(s.state, SessionState::Active);
    // the next successful receive forwards a current snapshot again
    let action = s.on_broadcast(BroadcastEvent::Snapshot);
    assert_eq!(action, BroadcastAction::ForwardUpdate);
    assert_eq!(s.state, SessionState::Active);
}

#[test]
fn loop_stopping_ends_an_active_session_with_done() {
    let mut s = active_session(Player::new(5));
    let action = s.on_broadcast(BroadcastEvent::Closed);
    assert_eq!(action, BroadcastAction::BeginClose);
    assert_eq!(s.state, SessionState::Closing { failed: false });
    let close = s.finish();
    assert!(matches!(close, CloseAction::SendDone));
    assert_eq!(s.state, SessionState::Closed { failed: false });
}

#[test]
fn player_moves_are_forwarded_to_the_loop() {
    let alice = Player::new(5);
    let mut s = active_session(alice);
    let moves = vec![Move { bee: BeeID::new(2), direction: Some(Direction::North) }];
    let action = s.on_inbound(InboundEvent::Msg(Receive::Moves { moves: moves.clone() }));
    match action {
        InboundAction::SubmitMoves { player, moves: forwarded } => {
            assert_eq!(player, alice);
            assert_eq!(forwarded, moves);
        }
        other => panic!("expected the moves to be forwarded, got {:?}", other),
    }
    assert_eq!(s.state, SessionState::Active);
}

#[test]
fn observer_moves_are_warned_about_and_not_forwarded() {
    let mut s = active_session(Player::observer());
    let moves = vec![Move { bee: BeeID::new(2), direction: Some(Direction::North) }];
    let action = s.on_inbound(InboundEvent::Msg(Receive::Moves { moves }));
    assert!(matches!(action, InboundAction::WarnObserver));
    assert_eq!(s.state, SessionState::Active);
}

#[test]
fn stray_registration_and_bad_packets_only_warn() {
    let mut s = active_session(Player::new(5));
    let action = s.on_inbound(InboundEvent::Msg(Receive::Register { name: String::from("x") }));
    assert!(matches!(action, InboundAction::WarnUnexpected));
    let action = s.on_inbound(InboundEvent::BadPacket);
    assert!(matches!(action, InboundAction::WarnBadPacket));
    assert_eq!(s.state, SessionState::Active);
}

#[test]
fn abrupt_disconnect_of_a_player_owes_a_disconnect_event() {
    let alice = Player::new(5);
    let mut s = active_session(alice);
    let action = s.on_inbound(InboundEvent::Eof);
    assert!(matches!(action, InboundAction::BeginClose));
    assert_eq!(s.state, SessionState::Closing { failed: true });
    let close = s.finish();
    assert!(matches!(close, CloseAction::NotifyDisconnect { player } if player == alice));
    assert_eq!(s.state, SessionState::Closed { failed: true });
}

#[test]
fn abrupt_disconnect_of_an_observer_owes_nothing() {
    let mut s = active_session(Player::observer());
    s.on_inbound(InboundEvent::Eof);
    let close = s.finish();
    assert!(matches!(close, CloseAction::CloseOnly));
}

#[test]
fn send_failure_ends_the_session_like_a_disconnect() {
    let alice = Player::new(5);
    let mut s = active_session(alice);
    s.on_send_failure();
    assert_eq!(s.state, SessionState::Closing { failed: true });
    let close = s.finish();
    assert!(matches!(close, CloseAction::NotifyDisconnect { player } if player == alice));
}

#[test]
fn notice_texts_are_fixed() {
    assert_eq!(notice_text(Notice::AlreadyFinished), "Game already finished");
    assert_eq!(notice_text(Notice::ExpectedRegistration), "Expected registration");
    assert_eq!(notice_text(Notice::BadInput), "Bad input");
    assert_eq!(notice_text(Notice::DuplicatePlayer), "Duplicate player ID");
}
