use dodge::components::RelativeLocomotor;
use dodge::resources::TimeScale;
use dodge::systems::RelativeMotionSystem;
use dodge::vector::{Point2, Vec2, ONE};

#[test]
fn locomotor_at_rest_has_no_velocity() {
    let l = RelativeLocomotor::with_pos(Point2::new(3 * ONE, 4 * ONE));
    assert_eq!(l.old_pos, Point2::new(3 * ONE, 4 * ONE));
    assert_eq!(l.pos, Point2::new(3 * ONE, 4 * ONE));
    assert_eq!(l.velocity, Vec2::new(0, 0));
}

#[test]
fn locomotor_starts_where_it_is_put() {
    let l = RelativeLocomotor::with_velocity(Point2::new(ONE, 2 * ONE), Vec2::new(-ONE, 5));
    assert_eq!(l.old_pos, Point2::new(ONE, 2 * ONE));
    assert_eq!(l.pos, Point2::new(ONE, 2 * ONE));
    assert_eq!(l.velocity, Vec2::new(-ONE, 5));
}

#[test]
fn advance_moves_by_velocity_times_scaled_time() {
    // Velocity (1, 0), scaled time 2, from the origin.
    let l = RelativeLocomotor::with_velocity(Point2::new(0, 0), Vec2::new(ONE, 0));
    let next = l.advance(None, 2 * ONE as i64);
    assert_eq!(next.pos, Point2::new(2 * ONE, 0));
    assert_eq!(next.old_pos, Point2::new(0, 0));
    assert_eq!(next.velocity, Vec2::new(ONE, 0));
}

#[test]
fn advance_shifts_the_position_to_the_old_position() {
    let l = RelativeLocomotor::with_velocity(Point2::new(ONE, ONE), Vec2::new(ONE, -2 * ONE));
    let once = l.advance(None, (ONE / 2) as i64);
    assert_eq!(once.old_pos, Point2::new(ONE, ONE));
    assert_eq!(once.pos, Point2::new(ONE + ONE / 2, 0));
    let twice = once.advance(None, (ONE / 2) as i64);
    assert_eq!(twice.old_pos, Point2::new(ONE + ONE / 2, 0));
    assert_eq!(twice.pos, Point2::new(2 * ONE, -ONE));
}

#[test]
fn advance_rounds_the_step_toward_zero() {
    // 3 raw units per second for half a second: 1.5 raw units.
    let forth = RelativeLocomotor::with_velocity(Point2::new(0, 0), Vec2::new(3, -3));
    let next = forth.advance(None, (ONE / 2) as i64);
    assert_eq!(next.pos, Point2::new(1, -1));
}

#[test]
fn advance_with_an_override_keeps_the_own_velocity() {
    let l = RelativeLocomotor::with_velocity(Point2::new(0, 0), Vec2::new(ONE, 0));
    let next = l.advance(Some(Vec2::new(0, 3 * ONE)), ONE as i64);
    assert_eq!(next.pos, Point2::new(0, 3 * ONE));
    assert_eq!(next.old_pos, Point2::new(0, 0));
    assert_eq!(next.velocity, Vec2::new(ONE, 0));
}

#[test]
fn advance_backwards_in_time_moves_against_the_velocity() {
    let l = RelativeLocomotor::with_velocity(Point2::new(0, 0), Vec2::new(ONE, 2 * ONE));
    let next = l.advance(None, -(ONE as i64));
    assert_eq!(next.pos, Point2::new(-ONE, -2 * ONE));
}

#[test]
fn try_advance_agrees_with_advance() {
    let l = RelativeLocomotor::with_velocity(Point2::new(5, 6), Vec2::new(7 * ONE, -8 * ONE));
    assert_eq!(l.try_advance(None, 3 * ONE as i64), Some(l.advance(None, 3 * ONE as i64)));
}

#[test]
fn try_advance_stops_at_the_limits_of_storage() {
    let l = RelativeLocomotor::with_velocity(Point2::new(i32::MAX - 1, 0), Vec2::new(ONE, 0));
    // One raw unit further is the last position that can be stored.
    let last = l.try_advance(None, 1).unwrap();
    assert_eq!(last.pos, Point2::new(i32::MAX, 0));
    assert_eq!(l.try_advance(None, 2), None);
    let low = RelativeLocomotor::with_velocity(Point2::new(0, i32::MIN), Vec2::new(0, -ONE));
    assert_eq!(low.try_advance(None, 1), None);
    assert_eq!(low.try_advance(None, 0), Some(low));
    assert_eq!(low.try_advance(None, i64::MAX), None);
    assert_eq!(low.try_advance(None, i64::MIN), None);
}

#[test]
fn motion_system_scales_time_before_it_moves() {
    let mut locomotors = vec![
        RelativeLocomotor::with_velocity(Point2::new(0, 0), Vec2::new(ONE, 0)),
        RelativeLocomotor::with_velocity(Point2::new(ONE, ONE), Vec2::new(-4 * ONE, 2 * ONE)),
        RelativeLocomotor::with_pos(Point2::new(-ONE, 7)),
    ];
    // Half speed for one second.
    RelativeMotionSystem.run(&mut locomotors, &TimeScale(ONE / 2), ONE);
    assert_eq!(locomotors[0].pos, Point2::new(ONE / 2, 0));
    assert_eq!(locomotors[0].old_pos, Point2::new(0, 0));
    assert_eq!(locomotors[1].pos, Point2::new(-ONE, 2 * ONE));
    assert_eq!(locomotors[1].old_pos, Point2::new(ONE, ONE));
    assert_eq!(locomotors[2].pos, Point2::new(-ONE, 7));
    assert_eq!(locomotors[2].old_pos, Point2::new(-ONE, 7));
    assert_eq!(locomotors[1].velocity, Vec2::new(-4 * ONE, 2 * ONE));
}

#[test]
fn motion_system_on_no_entity_does_nothing() {
    let mut locomotors: Vec<RelativeLocomotor> = Vec::new();
    RelativeMotionSystem.run(&mut locomotors, &TimeScale(ONE), ONE);
    assert!(locomotors.is_empty());
    assert!(RelativeMotionSystem.try_run(&mut locomotors, &TimeScale(ONE), ONE));
}

#[test]
fn motion_system_moves_all_or_none() {
    let inside = RelativeLocomotor::with_velocity(Point2::new(0, 0), Vec2::new(ONE, 0));
    let at_the_edge = RelativeLocomotor::with_velocity(Point2::new(i32::MAX, 0), Vec2::new(ONE, 0));
    let mut locomotors = vec![inside, at_the_edge];
    assert!(!RelativeMotionSystem.try_run(&mut locomotors, &TimeScale(ONE), ONE));
    assert_eq!(locomotors, vec![inside, at_the_edge]);
    let mut locomotors = vec![inside, inside];
    assert!(RelativeMotionSystem.try_run(&mut locomotors, &TimeScale(ONE), ONE));
    assert_eq!(locomotors[0].pos, Point2::new(ONE, 0));
    assert_eq!(locomotors[1].pos, Point2::new(ONE, 0));
}

#[test]
fn a_step_stays_within_one_raw_unit_of_velocity_times_time() {
    let velocities = [-3 * ONE - 1, -7, 0, 5, ONE + 3, 100 * ONE + 77];
    let times: [i64; 5] = [-ONE as i64, 0, 1092, 32768, 70000];
    for &vx in &velocities {
        for &vy in &velocities {
            for &dt in &times {
                let l = RelativeLocomotor::with_velocity(Point2::new(11, -13), Vec2::new(vx, vy));
                let next = l.advance(None, dt);
                let one = ONE as i64;
                let err_x = (next.pos.x - next.old_pos.x) as i64 * one - vx as i64 * dt;
                let err_y = (next.pos.y - next.old_pos.y) as i64 * one - vy as i64 * dt;
                assert!(-one < err_x && err_x < one);
                assert!(-one < err_y && err_y < one);
            }
        }
    }
}
