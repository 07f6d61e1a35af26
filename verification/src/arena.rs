//! The arena's rules: what happens when a body enters the start area, how
//! the sleeping-coins timer is driven, which coins are measured when the
//! timer pops, and which coin lies closest to the wall.
//!
//! Distances to the wall are non-negative `f32` values computed by the
//! caller. This crate receives each one as a [`WallDistance`]: the bit
//! pattern of a non-negative `f32`, which orders exactly as the float does,
//! or `Unordered` for a NaN, which compares as neither nearer nor farther.
use vstd::prelude::*;
use std::collections::HashMap;
use vstd::std_specs::iter::IteratorSpec;

verus! {

broadcast use vstd::std_specs::hash::group_hash_axioms;

/// The number of throws a round of the arena allows.
pub const MAX_THROWS: i32 = 5;

/// The bit pattern of `f32::MAX`, the distance every coin is first compared with.
pub const FARTHEST_DISTANCE_BITS: u32 = 0x7f7f_ffff;

/// A coin's distance from the wall.
#[derive(Clone, Copy, Debug, PartialEq, Eq, Structural)]
pub enum WallDistance {
    /// The bit pattern of a non-negative `f32` distance.
    Measured(u32),
    /// A NaN distance.
    Unordered,
}

/// `d > lowest` as `f32` compares: only two measured distances compare.
pub open spec fn farther(d: WallDistance, lowest: WallDistance) -> bool {
    match (d, lowest) {
        (WallDistance::Measured(a), WallDistance::Measured(b)) => a > b,
        _ => false,
    }
}

/// The distance every coin is first compared with (`f32::MAX`).
pub open spec fn farthest() -> WallDistance {
    WallDistance::Measured(FARTHEST_DISTANCE_BITS)
}

/// A timer command.
#[derive(Clone, Copy, Debug, PartialEq, Eq, Structural)]
pub enum TimerCommand {
    Start,
    Stop,
}

/// An action the engine side performs for the arena.
#[derive(Clone, Copy, Debug, PartialEq, Eq, Structural)]
pub enum ArenaAction {
    /// Move the player to the start area and lock it in place.
    PlacePlayerAtStart,
    /// Start or stop the sleeping-coins timer.
    Timer(TimerCommand),
}

/// What the caller saw of one child of the coin parent when the timer popped.
#[derive(Clone, Copy, Debug, PartialEq, Eq, Structural)]
pub struct CoinSighting {
    /// The child is in the "coin" group.
    pub in_coin_group: bool,
    /// The child is a coin body.
    pub is_coin: bool,
    /// The coin body is asleep (at rest).
    pub sleeping: bool,
}

/// A child that the survey looks at: a coin body in the "coin" group.
pub open spec fn counts(s: CoinSighting) -> bool {
    s.in_coin_group && s.is_coin
}

/// A child that ends the survey: a counted coin that is still moving.
pub open spec fn awake_coin(s: CoinSighting) -> bool {
    counts(s) && !s.sleeping
}

/// No counted coin before index `i` is awake.
pub open spec fn quiet_before(s: Seq<CoinSighting>, i: int) -> bool {
    forall|j: int| 0 <= j < i ==> !awake_coin(#[trigger] s[j])
}

/// The children whose distance the survey measures: counted sleeping coins
/// that come before the first awake coin.
pub open spec fn measured_at(s: Seq<CoinSighting>, i: int) -> bool {
    0 <= i < s.len() && counts(s[i]) && s[i].sleeping && quiet_before(s, i)
}

/// Whether the timer finds every coin asleep: at least one counted coin,
/// and none awake.
pub open spec fn all_asleep(s: Seq<CoinSighting>) -> bool {
    quiet_before(s, s.len() as int) && exists|i: int| 0 <= i < s.len() && counts(#[trigger] s[i])
}

/// A counted coin still moving rules out the verdict and ends the survey:
/// nothing at or after it is measured. With no counted coin at all there is
/// no verdict either.
pub proof fn lemma_awake_coin_ends_survey(s: Seq<CoinSighting>, i: int)
    requires
        0 <= i < s.len(),
        counts(s[i]),
        !s[i].sleeping,
    ensures
        !all_asleep(s),
        forall|t: int| i <= t ==> !measured_at(s, t),
{
    assert forall|t: int| i <= t implies !measured_at(s, t) by {
        if t > i && measured_at(s, t) {
            assert(!awake_coin(s[i]));
        }
    }
}

/// Without a counted coin there is no verdict.
pub proof fn lemma_no_coin_no_verdict(s: Seq<CoinSighting>)
    requires
        forall|i: int| 0 <= i < s.len() ==> !counts(#[trigger] s[i]),
    ensures
        !all_asleep(s),
{
}

/// A counted sleeping coin with no moving coin before it is measured;
/// children that are not coin bodies in the "coin" group never are.
pub proof fn lemma_measured_children(s: Seq<CoinSighting>, i: int)
    requires
        0 <= i < s.len(),
    ensures
        !counts(s[i]) ==> !measured_at(s, i),
        counts(s[i]) && s[i].sleeping && (forall|j: int| 0 <= j < i ==> !(counts(#[trigger] s[j]) && !s[j].sleeping))
            ==> measured_at(s, i),
{
}

/// When the timer finds every coin asleep, every counted coin is measured,
/// so the nearest coin is chosen among all of them.
pub proof fn lemma_all_asleep_measures_every_coin(s: Seq<CoinSighting>)
    requires
        all_asleep(s),
    ensures
        forall|i: int| 0 <= i < s.len() && counts(#[trigger] s[i]) ==> measured_at(s, i),
{
    assert forall|i: int| 0 <= i < s.len() && counts(#[trigger] s[i]) implies measured_at(s, i) by {
        assert(!awake_coin(s[i]));
    }
}

/// The result of a survey of the coin parent's children.
#[derive(Debug, PartialEq, Eq)]
pub struct CoinSurvey {
    /// Every counted coin was asleep (and there was one).
    pub all_sleeping: bool,
    /// The indices of the children whose wall distance is measured, in order.
    pub measured: Vec<usize>,
}

/// The arena's round state.
pub struct Arena {
    throws_done: i32,
}

/// A map from coin to distance: its coins are the measured indices, and
/// each one's distance is the one measured for it.
pub open spec fn holds_measurements(
    m: Map<usize, WallDistance>,
    coins: Seq<usize>,
    distances: Seq<WallDistance>,
) -> bool {
    &&& forall|k: usize| m.contains_key(k) <==> coins.contains(k)
    &&& forall|j: int| 0 <= j < coins.len() ==> m[#[trigger] coins[j]] == distances[j]
}

/// The coin picked from `m`, with its distance: it is one of the coins, and
/// none is picked exactly when every distance is farther than `f32::MAX`.
/// With no NaN among the distances, the pick is a nearest coin.
pub open spec fn closest_pick(m: Map<usize, WallDistance>, pick: Option<(usize, WallDistance)>) -> bool {
    &&& pick is None <==> forall|k: usize| m.contains_key(k) ==> farther(m[k], farthest())
    &&& pick matches Some((c, d)) ==> m.contains_key(c) && m[c] == d
    &&& pick matches Some((c, d)) ==> ((forall|k: usize| m.contains_key(k) ==> m[k] is Measured)
        ==> forall|k: usize| m.contains_key(k) ==> !farther(d, #[trigger] m[k]))
}

impl Arena {
    /// A new arena has no throws done.
    pub fn new() -> (arena: Arena)
        ensures
            arena.throws_done_spec() == 0,
    {
        Arena { throws_done: 0 }
    }

    /// The throws done in this round.
    pub closed spec fn throws_done_spec(&self) -> int {
        self.throws_done as int
    }

    /// The throws done in this round.
    pub fn throws_done(&self) -> (n: i32)
        ensures
            n == self.throws_done_spec(),
    {
        self.throws_done
    }

    /// A body entered the start area. Bodies outside the "player" group are
    /// ignored; the player is placed and locked at the start, the timer is
    /// started and the round's throws are reset.
    pub fn player_entered_start_area(&mut self, body_is_player: bool) -> (actions: Vec<ArenaAction>)
        ensures
            !body_is_player ==> actions@ == Seq::<ArenaAction>::empty()
                && final(self).throws_done_spec() == old(self).throws_done_spec(),
            body_is_player ==> actions@ == seq![
                ArenaAction::PlacePlayerAtStart,
                ArenaAction::Timer(TimerCommand::Start),
            ] && final(self).throws_done_spec() == 0,
    {
        let mut actions: Vec<ArenaAction> = Vec::new();
        if !body_is_player {
            return actions;
        }
        actions.push(ArenaAction::PlacePlayerAtStart);
        actions.push(ArenaAction::Timer(self.set_timer_state(true)));
        self.throws_done = 0;
        actions
    }

    /// The command that puts the sleeping-coins timer in the given state:
    /// running for `true`, stopped for `false`.
    pub fn set_timer_state(&self, state: bool) -> (cmd: TimerCommand)
        ensures
            cmd == if state {
                TimerCommand::Start
            } else {
                TimerCommand::Stop
            },
    {
        if state {
            TimerCommand::Start
        } else {
            TimerCommand::Stop
        }
    }

    /// Surveys the coin parent's children in order: children that are not
    /// coin bodies in the "coin" group are skipped; sleeping coins are
    /// measured; the first coin still moving ends the survey.
    pub fn survey_coins(sightings: &Vec<CoinSighting>) -> (survey: CoinSurvey)
        ensures
            survey.all_sleeping == all_asleep(sightings@),
            forall|j: int|
                0 <= j < survey.measured.len() ==> measured_at(
                    sightings@,
                    #[trigger] survey.measured@[j] as int,
                ),
            forall|j: int, k: int|
                0 <= j < k < survey.measured.len() ==> survey.measured@[j]
                    < survey.measured@[k],
            forall|i: int|
                measured_at(sightings@, i) ==> survey.measured@.contains(i as usize),
    {
        let mut all_sleeping = false;
        let mut measured: Vec<usize> = Vec::new();
        let n = sightings.len();
        let mut i: usize = 0;
        while i < n
            invariant_except_break
                i <= n,
                n == sightings@.len(),
                quiet_before(sightings@, i as int),
                all_sleeping == exists|j: int| 0 <= j < i && counts(#[trigger] sightings@[j]),
                forall|j: int|
                    0 <= j < measured.len() ==> measured_at(sightings@, #[trigger] measured@[j] as int)
                        && measured@[j] < i,
                forall|j: int, k: int|
                    0 <= j < k < measured.len() ==> measured@[j] < measured@[k],
                forall|t: int| 0 <= t < i && measured_at(sightings@, t) ==> measured@.contains(t as usize),
            ensures
                all_sleeping == all_asleep(sightings@),
                forall|j: int|
                    0 <= j < measured.len() ==> measured_at(sightings@, #[trigger] measured@[j] as int),
                forall|j: int, k: int|
                    0 <= j < k < measured.len() ==> measured@[j] < measured@[k],
                forall|t: int| measured_at(sightings@, t) ==> measured@.contains(t as usize),
            decreases n - i,
        {
            let s = sightings[i];
            if !(s.in_coin_group && s.is_coin) {
                i = i + 1;
                continue;
            }
            if s.sleeping {
                all_sleeping = true;
            } else {
                all_sleeping = false;
                assert(!all_asleep(sightings@)) by {
                    assert(awake_coin(sightings@[i as int]));
                }
                assert forall|t: int| measured_at(sightings@, t) implies measured@.contains(t as usize) by {
                    if t > i {
                        assert(awake_coin(sightings@[i as int]));
                    }
                }
                break;
            }
            let ghost old_measured = measured@;
            measured.push(i);
            assert(measured@[measured.len() - 1] == i);
            assert forall|t: int| 0 <= t < i + 1 && measured_at(sightings@, t) implies measured@.contains(t as usize) by {
                if t < i {
                    assert(old_measured.contains(t as usize));
                    let w = choose|w: int| 0 <= w < old_measured.len() && old_measured[w] == t as usize;
                    assert(measured@[w] == t as usize);
                } else {
                    assert(measured@[measured.len() - 1] == t as usize);
                }
            }
            i = i + 1;
        }
        CoinSurvey { all_sleeping, measured }
    }

    /// The verdict when the sleeping-coins timer pops: given the survey of
    /// the coin parent's children and the wall distance measured for each
    /// surveyed coin (in the survey's order), the coin nearest to the wall
    /// with its distance, or none when some coin is still moving (or there
    /// is no coin, or every distance is beyond `f32::MAX`).
    pub fn timer_popped(&self, survey: &CoinSurvey, distances: &Vec<WallDistance>) -> (pick: Option<(usize, WallDistance)>)
        requires
            distances.len() == survey.measured.len(),
            forall|j: int, k: int|
                0 <= j < k < survey.measured.len() ==> survey.measured@[j] != survey.measured@[k],
        ensures
            !survey.all_sleeping ==> pick is None,
            survey.all_sleeping ==> exists|m: Map<usize, WallDistance>|
                holds_measurements(m, survey.measured@, distances@) && closest_pick(m, pick),
    {
        if !survey.all_sleeping {
            return None;
        }
        Self::closest_coin(&survey.measured, distances)
    }

    /// Walks the measured coins and picks the one nearest to the wall, as
    /// `f32` comparisons order them: a coin is skipped when its distance
    /// compares greater than the nearest so far (which starts at
    /// `f32::MAX`), and taken otherwise. The coins are kept in a hash map
    /// from coin to distance, and the walk follows that map's order.
    pub fn closest_coin(coins: &Vec<usize>, distances: &Vec<WallDistance>) -> (pick: Option<(usize, WallDistance)>)
        requires
            coins.len() == distances.len(),
            forall|j: int, k: int| 0 <= j < k < coins.len() ==> coins@[j] != coins@[k],
        ensures
            exists|m: Map<usize, WallDistance>|
                holds_measurements(m, coins@, distances@) && closest_pick(m, pick),
    {
        let mut hmap: HashMap<usize, WallDistance> = HashMap::new();
        let n = coins.len();
        let mut i: usize = 0;
        while i < n
            invariant
                i <= n,
                n == coins.len(),
                n == distances.len(),
                forall|j: int, k: int| 0 <= j < k < coins.len() ==> coins@[j] != coins@[k],
                forall|k: usize| hmap@.contains_key(k) <==> (exists|j: int| 0 <= j < i && #[trigger] coins@[j] == k),
                forall|j: int| 0 <= j < i ==> hmap@[#[trigger] coins@[j]] == distances@[j],
            decreases n - i,
        {
            hmap.insert(coins[i], distances[i]);
            proof {
                assert forall|j: int| 0 <= j < i + 1 implies hmap@[#[trigger] coins@[j]] == distances@[j] by {
                    if j < i {
                        assert(coins@[j] != coins@[i as int]);
                    }
                }
                assert forall|k: usize| hmap@.contains_key(k) <==> (exists|j: int| 0 <= j < i + 1 && #[trigger] coins@[j] == k) by {
                    if k == coins@[i as int] {
                        assert(coins@[i as int] == k);
                    }
                }
            }
            i = i + 1;
        }
        let pick = Self::nearest_in(&hmap);
        assert(holds_measurements(hmap@, coins@, distances@));
        pick
    }

    /// The walk of [`Arena::closest_coin`] over a built map.
    fn nearest_in(hmap: &HashMap<usize, WallDistance>) -> (pick: Option<(usize, WallDistance)>)
        ensures
            closest_pick(hmap@, pick),
    {
        let mut lowest_c: Option<usize> = None;
        let mut lowest_d: WallDistance = WallDistance::Measured(FARTHEST_DISTANCE_BITS);
        let ghost mut walked: int = 0;
        let ghost v = vstd::std_specs::hash::spec_hash_map_iter(hmap).remaining();
        for entry in it: hmap.iter()
            invariant
                it.seq() == v,
                walked == it.index(),
                lowest_c is None ==> lowest_d == farthest()
                    && forall|j: int| 0 <= j < walked ==> farther(*(#[trigger] v[j]).1, farthest()),
                lowest_c matches Some(c) ==> hmap@.contains_key(c) && hmap@[c] == lowest_d,
                lowest_c is Some ==> exists|j: int| 0 <= j < walked && !farther(*(#[trigger] v[j]).1, farthest()),
                (forall|k: usize| hmap@.contains_key(k) ==> hmap@[k] is Measured) ==> (lowest_d is Measured
                    && forall|j: int| 0 <= j < walked ==> !farther(lowest_d, *(#[trigger] v[j]).1)),
        {
            let (c, d) = entry;
            let skip = match (*d, lowest_d) {
                (WallDistance::Measured(a), WallDistance::Measured(b)) => a > b,
                _ => false,
            };
            if !skip {
                lowest_d = *d;
                lowest_c = Some(*c);
            }
            proof {
                walked = walked + 1;
            }
        }
        proof {
            assert(walked == v.len());
            assert forall|k: usize| hmap@.contains_key(k) implies exists|j: int| 0 <= j < v.len() && *(#[trigger] v[j]).0 == k && *v[j].1 == hmap@[k] by {
                assert(v.contains((&k, &hmap@[k])));
            }
            if lowest_c is None {
                assert forall|k: usize| hmap@.contains_key(k) implies farther(hmap@[k], farthest()) by {
                    let j = choose|j: int| 0 <= j < v.len() && *(#[trigger] v[j]).0 == k && *v[j].1 == hmap@[k];
                }
            } else {
                let j = choose|j: int| 0 <= j < walked && !farther(*(#[trigger] v[j]).1, farthest());
                assert(hmap@.contains_key(*v[j].0));
            }
            if forall|k: usize| hmap@.contains_key(k) ==> hmap@[k] is Measured {
                assert forall|k: usize| hmap@.contains_key(k) implies !farther(lowest_d, #[trigger] hmap@[k]) by {
                    let j = choose|j: int| 0 <= j < v.len() && *(#[trigger] v[j]).0 == k && *v[j].1 == hmap@[k];
                }
            }
        }
        match lowest_c {
            Some(c) => Some((c, lowest_d)),
            None => None,
        }
    }
}

} // verus!
