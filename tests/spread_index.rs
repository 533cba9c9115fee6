use particle_emitter::{EmissionMode, EmissionPlan, EmissionSpread, SpreadLoopMode, INDEX_ONE};

fn spread(amount: i64, loop_mode: SpreadLoopMode, current_index: i64, upwards: bool) -> EmissionSpread {
    EmissionSpread { amount, loop_mode, uniform: false, current_index, upwards }
}

#[test]
fn loop_mode_reflects_past_the_end() {
    let mut s = spread(300_000, SpreadLoopMode::Loop, 0, true);
    assert_eq!(s.update_index(), (0, 300_000));
    assert_eq!(s.update_index(), (300_000, 600_000));
    assert_eq!(s.update_index(), (600_000, 900_000));
    assert_eq!(s.update_index(), (900_000, -200_000));
    assert_eq!(s.current_index, -200_000);
    assert!(s.upwards);
}

#[test]
fn loop_mode_reaching_the_end_exactly_does_not_reflect() {
    let mut s = spread(500_000, SpreadLoopMode::Loop, 500_000, true);
    assert_eq!(s.update_index(), (500_000, INDEX_ONE));
}

#[test]
fn loop_mode_downwards_is_not_wrapped() {
    let mut s = spread(300_000, SpreadLoopMode::Loop, 0, false);
    assert_eq!(s.update_index(), (0, -300_000));
    assert_eq!(s.update_index(), (-300_000, -600_000));
}

#[test]
fn ping_pong_rolls_back_and_reverses() {
    let mut s = spread(300_000, SpreadLoopMode::PingPong, 900_000, true);
    assert_eq!(s.update_index(), (900_000, 900_000));
    assert_eq!(s.current_index, 900_000);
    assert!(!s.upwards);
    assert_eq!(s.update_index(), (900_000, 600_000));
}

#[test]
fn ping_pong_reverses_at_zero() {
    let mut s = spread(300_000, SpreadLoopMode::PingPong, 100_000, false);
    assert_eq!(s.update_index(), (100_000, 100_000));
    assert!(s.upwards);
    assert_eq!(s.update_index(), (100_000, 400_000));
}

#[test]
fn zero_amount_never_moves() {
    let mut s = spread(0, SpreadLoopMode::PingPong, 400_000, true);
    for _ in 0..5 {
        assert_eq!(s.update_index(), (400_000, 400_000));
    }
    let mut l = spread(0, SpreadLoopMode::Loop, 400_000, true);
    assert_eq!(l.update_index(), (400_000, 400_000));
}

#[test]
fn in_range_states_stay_in_range() {
    let mut p = spread(INDEX_ONE / 3, SpreadLoopMode::PingPong, 0, true);
    let mut l = spread(700_000, SpreadLoopMode::Loop, -INDEX_ONE, true);
    for _ in 0..50 {
        p.update_index();
        l.update_index();
        assert!(0 <= p.current_index && p.current_index <= INDEX_ONE);
        assert!(-INDEX_ONE <= l.current_index && l.current_index <= INDEX_ONE);
    }
}

#[test]
fn next_step_fit_is_detected() {
    assert!(spread(INDEX_ONE, SpreadLoopMode::Loop, 0, true).fits_next_step());
    assert!(!spread(1, SpreadLoopMode::Loop, i64::MAX, true).fits_next_step());
    assert!(!spread(1, SpreadLoopMode::Loop, i64::MIN, false).fits_next_step());
    assert!(spread(1, SpreadLoopMode::Loop, i64::MIN, true).fits_next_step());
}

#[test]
fn defaults() {
    assert_eq!(SpreadLoopMode::default(), SpreadLoopMode::Loop);
    let s = EmissionSpread::default();
    assert_eq!(s, spread(100_000, SpreadLoopMode::Loop, 0, true));
    assert_eq!(EmissionMode::default(), EmissionMode::Random);
}

#[test]
fn random_mode_plans_random_particles() {
    let mut m = EmissionMode::Random;
    assert_eq!(m.plan_emission(), EmissionPlan::Random);
    assert_eq!(m, EmissionMode::Random);
}

#[test]
fn spread_mode_plans_successive_slices() {
    let mut m = EmissionMode::Spread(EmissionSpread { uniform: true, ..EmissionSpread::default() });
    assert_eq!(
        m.plan_emission(),
        EmissionPlan::Spread { previous_index: 0, current_index: 100_000, uniform: true }
    );
    assert_eq!(
        m.plan_emission(),
        EmissionPlan::Spread { previous_index: 100_000, current_index: 200_000, uniform: true }
    );
    match m {
        EmissionMode::Spread(s) => assert_eq!(s.current_index, 200_000),
        EmissionMode::Random => panic!("mode changed"),
    }
}
