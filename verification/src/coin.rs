//! Ownership of a thrown coin and the colour decision that follows from it.
use vstd::prelude::*;

verus! {

/// Who threw a coin.
#[derive(Clone, Copy, Debug, PartialEq, Eq, Structural)]
pub enum CoinOwners {
    PLAYER,
    NPC,
}

/// What the coin's body mesh should do after its owner is known.
#[derive(Clone, Copy, Debug, PartialEq, Eq, Structural)]
pub enum ColorCommand {
    /// No owner has been set: nothing can be coloured (a note is printed).
    NoOwner,
    /// The coin belongs to the NPC: its mesh is painted red.
    PaintRed,
    /// The coin belongs to the player: it keeps its material.
    KeepMaterial,
}

/// The colour decision for a coin with the given owner.
pub open spec fn color_for(owner: Option<CoinOwners>) -> ColorCommand {
    match owner {
        None => ColorCommand::NoOwner,
        Some(CoinOwners::NPC) => ColorCommand::PaintRed,
        Some(CoinOwners::PLAYER) => ColorCommand::KeepMaterial,
    }
}

/// The owner that `set_owner` records for its flag.
pub open spec fn owner_for(player: bool) -> CoinOwners {
    if player {
        CoinOwners::PLAYER
    } else {
        CoinOwners::NPC
    }
}

/// Only a coin thrown by the NPC is painted; a player's coin keeps its
/// material; a coin without owner cannot be coloured.
pub proof fn lemma_only_npc_coins_are_painted(owner: Option<CoinOwners>)
    ensures
        (color_for(owner) == ColorCommand::PaintRed) <==> owner == Some(CoinOwners::NPC),
        (color_for(owner) == ColorCommand::KeepMaterial) <==> owner == Some(CoinOwners::PLAYER),
        (color_for(owner) == ColorCommand::NoOwner) <==> owner is None,
{
}

/// The flag of `set_owner` names the player when true and the NPC when false.
pub proof fn lemma_owner_flag()
    ensures
        owner_for(true) == CoinOwners::PLAYER,
        owner_for(false) == CoinOwners::NPC,
{
}

/// The rule-bearing state of a coin: its owner, if one was set.
pub struct Coin {
    owner: Option<CoinOwners>,
}

impl Coin {
    /// The owner recorded for this coin.
    pub closed spec fn owner_spec(&self) -> Option<CoinOwners> {
        self.owner
    }

    /// A fresh coin has no owner.
    pub fn new() -> (coin: Coin)
        ensures
            coin.owner_spec() is None,
    {
        Coin { owner: None }
    }

    /// The owner recorded for this coin.
    pub fn owner(&self) -> (owner: Option<CoinOwners>)
        ensures
            owner == self.owner_spec(),
    {
        self.owner
    }

    /// Records the player (`true`) or the NPC (`false`) as the owner and
    /// returns the colour decision for the new owner.
    pub fn set_owner(&mut self, player: bool) -> (cmd: ColorCommand)
        ensures
            final(self).owner_spec() == Some(owner_for(player)),
            cmd == color_for(final(self).owner_spec()),
    {
        if player {
            self.owner = Some(CoinOwners::PLAYER);
        } else {
            self.owner = Some(CoinOwners::NPC);
        }
        self.set_color_based_on_owner()
    }

    /// The colour decision for the coin's current owner.
    pub fn set_color_based_on_owner(&self) -> (cmd: ColorCommand)
        ensures
            cmd == color_for(self.owner_spec()),
    {
        match self.owner {
            None => ColorCommand::NoOwner,
            Some(CoinOwners::NPC) => ColorCommand::PaintRed,
            Some(CoinOwners::PLAYER) => ColorCommand::KeepMaterial,
        }
    }
}

} // verus!
