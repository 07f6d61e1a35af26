use bucky_game::hand::{CoinHand, ThrowOutcome};

#[test]
fn empty_hand_reports_on_throw() {
    let mut hand: CoinHand<u32> = CoinHand::new();
    assert!(!hand.holds_coin());
    assert_eq!(hand.throw_coin_in_hand(true), ThrowOutcome::EmptyHand);
    assert!(!hand.holds_coin());
}

#[test]
fn held_coin_is_thrown_once() {
    let mut hand = CoinHand::new();
    hand.put_in_hand(7u32);
    assert!(hand.holds_coin());
    assert_eq!(hand.throw_coin_in_hand(true), ThrowOutcome::Throw(7));
    assert!(!hand.holds_coin());
    assert_eq!(hand.throw_coin_in_hand(true), ThrowOutcome::EmptyHand);
}

#[test]
fn no_throw_action_keeps_coin() {
    let mut hand = CoinHand::new();
    hand.put_in_hand(3u32);
    assert_eq!(hand.throw_coin_in_hand(false), ThrowOutcome::NotRequested);
    assert!(hand.holds_coin());
    assert_eq!(hand.throw_coin_in_hand(true), ThrowOutcome::Throw(3));
}

#[test]
fn new_coin_replaces_held_coin() {
    let mut hand = CoinHand::new();
    hand.put_in_hand(1u32);
    hand.put_in_hand(2u32);
    assert_eq!(hand.throw_coin_in_hand(true), ThrowOutcome::Throw(2));
}
