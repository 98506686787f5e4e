//! Tests for the game loop core: admission, disconnection, intent merging,
//! ticking and the lifecycle phases.

use beeeees::game_loop::{
    delivery_policy, AdmitReply, DeliveryPolicy, GameEvent, GameLoopCore, Phase, RefuseReason,
    SimAdmission,
};
use beeeees::intents::{BeeID, Direction, Move};
use beeeees::player::Player;

#[test]
fn admitting_twice_yields_duplicate_until_disconnect() {
    let mut core = GameLoopCore::new();
    let alice = Player::new(1);

    let first = core.handle_add_player(alice, SimAdmission::Admitted);
    assert!(matches!(first, AdmitReply::Granted));
    assert!(core.is_active(alice));

    let second = core.handle_add_player(alice, SimAdmission::Admitted);
    assert!(matches!(
        second,
        AdmitReply::Refused { reason: RefuseReason::DuplicatePlayer }
    ));
    assert!(core.is_active(alice));

    let was_active = core.handle_disconnect(alice);
    assert!(was_active);
    assert!(!core.is_active(alice));

    let third = core.handle_add_player(alice, SimAdmission::Admitted);
    assert!(matches!(third, AdmitReply::Granted));
    assert!(core.is_active(alice));
}

#[test]
fn observer_admission_is_trivial_and_never_active() {
    let mut core = GameLoopCore::new();
    let reply = core.handle_add_player(Player::observer(), SimAdmission::Admitted);
    assert!(matches!(reply, AdmitReply::Granted));
    assert!(!core.is_active(Player::observer()));
}

#[test]
fn simulation_refusal_is_relayed_and_leaves_nobody_active() {
    let mut core = GameLoopCore::new();
    let alice = Player::new(1);
    let reply = core.handle_add_player(
        alice,
        SimAdmission::Refused { msg: String::from("Could not add player: no more available spawn points") },
    );
    match reply {
        AdmitReply::Refused { reason: RefuseReason::Simulation { msg } } => {
            assert_eq!(msg, "Could not add player: no more available spawn points");
        }
        other => panic!("expected a simulation refusal, got {:?}", other),
    }
    assert!(!core.is_active(alice));
}

#[test]
fn disconnecting_an_inactive_player_is_tolerated() {
    let mut core = GameLoopCore::new();
    let was_active = core.handle_disconnect(Player::new(9));
    assert!(!was_active);
}

#[test]
fn tick_hands_over_pending_intents_and_clears_them() {
    let mut core = GameLoopCore::new();
    let alice = Player::new(1);
    core.handle_add_player(alice, SimAdmission::Admitted);
    core.handle_moves(
        alice,
        &vec![
            Move { bee: BeeID::new(4), direction: Some(Direction::North) },
            Move { bee: BeeID::new(4), direction: Some(Direction::East) },
        ],
    );
    assert_eq!(core.pending_intent(alice, BeeID::new(4)), Some(Direction::East));

    let intents = core.handle_tick();
    assert_eq!(intents.get(alice, BeeID::new(4)), Some(Direction::East));
    // the next window starts empty: nothing lingers from before the tick
    assert_eq!(core.pending_intent(alice, BeeID::new(4)), None);
    let empty = core.handle_tick();
    assert_eq!(empty.entries().len(), 0);
}

#[test]
fn finish_then_drain_stops_the_loop() {
    let mut core = GameLoopCore::new();
    assert_eq!(core.phase(), Phase::Running);
    core.handle_finish();
    assert_eq!(core.phase(), Phase::Draining);
    core.complete_drain();
    assert_eq!(core.phase(), Phase::Stopped);
}

#[test]
fn move_events_are_best_effort_and_the_rest_reliable() {
    let alice = Player::new(1);
    let mv = GameEvent::Move {
        player: alice,
        moves: vec![Move { bee: BeeID::new(1), direction: Some(Direction::West) }],
    };
    assert_eq!(delivery_policy(&mv), DeliveryPolicy::BestEffort);
    assert_eq!(
        delivery_policy(&GameEvent::AddPlayer { player: alice }),
        DeliveryPolicy::Reliable
    );
    assert_eq!(
        delivery_policy(&GameEvent::Disconnect { player: alice }),
        DeliveryPolicy::Reliable
    );
    assert_eq!(delivery_policy(&GameEvent::Finish), DeliveryPolicy::Reliable);
}
