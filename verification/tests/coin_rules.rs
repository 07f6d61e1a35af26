use bucky_game::coin::{Coin, CoinOwners, ColorCommand};

#[test]
fn new_coin_has_no_owner() {
    let coin = Coin::new();
    assert_eq!(coin.owner(), None);
    assert_eq!(coin.set_color_based_on_owner(), ColorCommand::NoOwner);
}

#[test]
fn npc_coin_is_painted_red() {
    let mut coin = Coin::new();
    assert_eq!(coin.set_owner(false), ColorCommand::PaintRed);
    assert_eq!(coin.owner(), Some(CoinOwners::NPC));
    assert_eq!(coin.set_color_based_on_owner(), ColorCommand::PaintRed);
}

#[test]
fn player_coin_keeps_material() {
    let mut coin = Coin::new();
    assert_eq!(coin.set_owner(true), ColorCommand::KeepMaterial);
    assert_eq!(coin.owner(), Some(CoinOwners::PLAYER));
}

#[test]
fn owner_can_be_changed() {
    let mut coin = Coin::new();
    coin.set_owner(true);
    assert_eq!(coin.set_owner(false), ColorCommand::PaintRed);
    assert_eq!(coin.owner(), Some(CoinOwners::NPC));
}
