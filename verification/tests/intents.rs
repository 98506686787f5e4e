//! Tests for the per-tick intent buffer: last-writer-wins merging, clearing
//! by empty action, and the tick hand-over.

use beeeees::intents::{BeeID, Direction, IntentBuffer, Move};
use beeeees::player::Player;

fn mv(bee: u64, direction: Option<Direction>) -> Move {
    Move { bee: BeeID::new(bee), direction }
}

#[test]
fn last_intent_for_a_pair_wins() {
    let mut buf = IntentBuffer::new();
    let alice = Player::new(1);
    buf.apply(
        alice,
        &vec![
            mv(7, Some(Direction::North)),
            mv(7, Some(Direction::East)),
            mv(7, Some(Direction::South)),
        ],
    );
    assert_eq!(buf.get(alice, BeeID::new(7)), Some(Direction::South));
    assert_eq!(buf.len(), 1);
}

#[test]
fn later_empty_action_clears_the_pair() {
    let mut buf = IntentBuffer::new();
    let alice = Player::new(1);
    buf.apply(alice, &vec![mv(7, Some(Direction::North)), mv(7, None)]);
    assert_eq!(buf.get(alice, BeeID::new(7)), None);
    assert_eq!(buf.len(), 0);
}

#[test]
fn clearing_an_absent_pair_is_a_no_op() {
    let mut buf = IntentBuffer::new();
    let alice = Player::new(1);
    buf.apply(alice, &vec![mv(9, None)]);
    assert_eq!(buf.get(alice, BeeID::new(9)), None);
    assert_eq!(buf.len(), 0);
}

#[test]
fn other_pairs_are_untouched() {
    let mut buf = IntentBuffer::new();
    let alice = Player::new(1);
    let bob = Player::new(2);
    buf.apply(alice, &vec![mv(7, Some(Direction::North))]);
    buf.apply(bob, &vec![mv(7, Some(Direction::West))]);
    buf.apply(alice, &vec![mv(8, Some(Direction::East)), mv(7, None)]);
    // alice's bee 7 was cleared; bob's bee 7 and alice's bee 8 survive
    assert_eq!(buf.get(alice, BeeID::new(7)), None);
    assert_eq!(buf.get(bob, BeeID::new(7)), Some(Direction::West));
    assert_eq!(buf.get(alice, BeeID::new(8)), Some(Direction::East));
    assert_eq!(buf.len(), 2);
}

#[test]
fn submissions_across_batches_overwrite_in_arrival_order() {
    let mut buf = IntentBuffer::new();
    let alice = Player::new(1);
    buf.apply(alice, &vec![mv(7, Some(Direction::North))]);
    buf.apply(alice, &vec![mv(7, Some(Direction::East))]);
    assert_eq!(buf.get(alice, BeeID::new(7)), Some(Direction::East));
}

#[test]
fn take_surrenders_everything_and_empties_the_buffer() {
    let mut buf = IntentBuffer::new();
    let alice = Player::new(1);
    buf.apply(alice, &vec![mv(1, Some(Direction::North)), mv(2, Some(Direction::South))]);
    let taken = buf.take();
    assert_eq!(buf.len(), 0);
    assert_eq!(buf.get(alice, BeeID::new(1)), None);
    assert_eq!(taken.get(alice, BeeID::new(1)), Some(Direction::North));
    assert_eq!(taken.get(alice, BeeID::new(2)), Some(Direction::South));
    assert_eq!(taken.entries().len(), 2);
}
