use bucky_game::arena::{
    Arena, ArenaAction, CoinSighting, TimerCommand, WallDistance, FARTHEST_DISTANCE_BITS, MAX_THROWS,
};

fn coin(sleeping: bool) -> CoinSighting {
    CoinSighting { in_coin_group: true, is_coin: true, sleeping }
}

fn other() -> CoinSighting {
    CoinSighting { in_coin_group: false, is_coin: false, sleeping: true }
}

fn bits(x: f32) -> WallDistance {
    WallDistance::Measured(x.to_bits())
}

#[test]
fn new_arena_has_no_throws() {
    let arena = Arena::new();
    assert_eq!(arena.throws_done(), 0);
    assert_eq!(MAX_THROWS, 5);
}

#[test]
fn only_the_player_is_welcomed() {
    let mut arena = Arena::new();
    assert!(arena.player_entered_start_area(false).is_empty());
    assert_eq!(
        arena.player_entered_start_area(true),
        vec![ArenaAction::PlacePlayerAtStart, ArenaAction::Timer(TimerCommand::Start)]
    );
    assert_eq!(arena.throws_done(), 0);
}

#[test]
fn timer_state_commands() {
    let arena = Arena::new();
    assert_eq!(arena.set_timer_state(true), TimerCommand::Start);
    assert_eq!(arena.set_timer_state(false), TimerCommand::Stop);
}

#[test]
fn survey_of_sleeping_coins_measures_all() {
    let s = vec![coin(true), other(), coin(true)];
    let survey = Arena::survey_coins(&s);
    assert!(survey.all_sleeping);
    assert_eq!(survey.measured, vec![0, 2]);
}

#[test]
fn survey_stops_at_first_awake_coin() {
    let s = vec![coin(true), coin(false), coin(true)];
    let survey = Arena::survey_coins(&s);
    assert!(!survey.all_sleeping);
    assert_eq!(survey.measured, vec![0]);
}

#[test]
fn survey_without_coins_is_not_all_sleeping() {
    let s = vec![other(), CoinSighting { in_coin_group: true, is_coin: false, sleeping: true }];
    let survey = Arena::survey_coins(&s);
    assert!(!survey.all_sleeping);
    assert!(survey.measured.is_empty());
    assert!(!Arena::survey_coins(&vec![]).all_sleeping);
}

#[test]
fn nearest_coin_is_picked() {
    let arena = Arena::new();
    let s = vec![coin(true), other(), coin(true), coin(true)];
    let survey = arena_survey(&s);
    let d = vec![bits(3.5), bits(0.25), bits(7.0)];
    assert_eq!(arena.timer_popped(&survey, &d), Some((2, bits(0.25))));
}

fn arena_survey(s: &Vec<CoinSighting>) -> bucky_game::arena::CoinSurvey {
    Arena::survey_coins(s)
}

#[test]
fn no_verdict_while_a_coin_moves() {
    let arena = Arena::new();
    let s = vec![coin(true), coin(false)];
    let survey = Arena::survey_coins(&s);
    let d = vec![bits(1.0)];
    assert_eq!(arena.timer_popped(&survey, &d), None);
}

#[test]
fn infinite_distances_are_never_picked() {
    let d = vec![bits(f32::INFINITY), bits(f32::INFINITY)];
    assert_eq!(Arena::closest_coin(&vec![4, 9], &d), None);
    let d = vec![bits(f32::INFINITY), bits(f32::MAX)];
    assert_eq!(Arena::closest_coin(&vec![4, 9], &d), Some((9, WallDistance::Measured(FARTHEST_DISTANCE_BITS))));
}

#[test]
fn float_bits_order_as_floats() {
    assert!(0.5f32.to_bits() < 2.0f32.to_bits());
    assert_eq!(f32::MAX.to_bits(), FARTHEST_DISTANCE_BITS);
}

#[test]
fn nan_distance_is_always_taken_when_alone() {
    assert_eq!(
        Arena::closest_coin(&vec![1], &vec![WallDistance::Unordered]),
        Some((1, WallDistance::Unordered))
    );
}

#[test]
fn empty_map_has_no_pick() {
    assert_eq!(Arena::closest_coin(&vec![], &vec![]), None);
}
