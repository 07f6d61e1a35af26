//! A hand that holds at most one coin until it is thrown.
//!
//! The coin is whatever handle the caller uses for a coin; the hand only
//! decides when a coin may be put in it and what a throw request yields.
use vstd::prelude::*;

verus! {

/// What a throw request yields.
#[derive(Debug, PartialEq, Eq)]
pub enum ThrowOutcome<C> {
    /// The throw action was not pressed: nothing happens.
    NotRequested,
    /// The throw action was pressed with an empty hand (a note is printed).
    EmptyHand,
    /// The held coin leaves the hand and is thrown.
    Throw(C),
}

/// A hand holding at most one coin.
pub struct CoinHand<C> {
    coin: Option<C>,
}

impl<C> View for CoinHand<C> {
    type V = Option<C>;

    closed spec fn view(&self) -> Option<C> {
        self.coin
    }
}

/// What a throw request yields from a hand holding `held`, and what the
/// hand holds afterwards.
pub open spec fn throw_result<C>(held: Option<C>, throw_pressed: bool) -> (ThrowOutcome<C>, Option<C>) {
    if !throw_pressed {
        (ThrowOutcome::NotRequested, held)
    } else {
        match held {
            None => (ThrowOutcome::EmptyHand, None),
            Some(c) => (ThrowOutcome::Throw(c), None),
        }
    }
}

impl<C> CoinHand<C> {
    /// An empty hand.
    pub fn new() -> (hand: CoinHand<C>)
        ensures
            hand@ is None,
    {
        CoinHand { coin: None }
    }

    /// Whether a coin is held.
    pub fn holds_coin(&self) -> (held: bool)
        ensures
            held == self@ is Some,
    {
        self.coin.is_some()
    }

    /// Puts `coin` in the hand, dropping any coin held before.
    pub fn put_in_hand(&mut self, coin: C)
        ensures
            final(self)@ == Some(coin),
    {
        self.coin = Some(coin);
    }

    /// A throw request: without the throw action nothing changes; with it,
    /// the held coin leaves the hand and is thrown, or the empty hand is
    /// reported.
    pub fn throw_coin_in_hand(&mut self, throw_pressed: bool) -> (outcome: ThrowOutcome<C>)
        ensures
            (outcome, final(self)@) == throw_result(old(self)@, throw_pressed),
    {
        if !throw_pressed {
            return ThrowOutcome::NotRequested;
        }
        match self.coin.take() {
            None => ThrowOutcome::EmptyHand,
            Some(c) => ThrowOutcome::Throw(c),
        }
    }
}

/// A pressed throw always leaves the hand empty and yields the coin it held
/// (or reports the empty hand); an unpressed throw changes nothing.
pub proof fn lemma_throw_empties_hand<C>(held: Option<C>)
    ensures
        throw_result(held, true).1 is None,
        held matches Some(c) ==> throw_result(held, true).0 == ThrowOutcome::Throw(c),
        held is None ==> throw_result(held, true).0 == ThrowOutcome::<C>::EmptyHand,
        throw_result(held, false).0 == ThrowOutcome::<C>::NotRequested,
        throw_result(held, false).1 == held,
{
}

/// A coin put in the hand is the coin the next throw yields, and the hand
/// is empty afterwards, so a second throw finds it empty.
pub proof fn lemma_put_then_throw<C>(coin: C)
    ensures
        throw_result(Some(coin), true) == (ThrowOutcome::Throw(coin), None::<C>),
        throw_result(None::<C>, true) == (ThrowOutcome::<C>::EmptyHand, None::<C>),
{
}

/// Without the throw action the hand keeps what it holds.
pub proof fn lemma_no_throw_keeps_hand<C>(held: Option<C>)
    ensures
        throw_result(held, false) == (ThrowOutcome::<C>::NotRequested, held),
{
}

} // verus!
