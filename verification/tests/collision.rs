use dodge::components::{BoundingBox, Laser, RelativeLocomotor};
use dodge::resources::TimeScale;
use dodge::systems::laser_collision::LaserCollisionConfig;
use dodge::systems::{LaserCollisionSystem, RelativeMotionSystem};
use dodge::vector::{Point2, Vec2, ONE};

const WHITE: (i32, i32, i32) = (ONE - 1, ONE - 1, ONE - 1);

fn system(despawn_dist: i32) -> LaserCollisionSystem {
    LaserCollisionSystem::from_config(LaserCollisionConfig { despawn_dist })
}

fn player_box() -> BoundingBox {
    BoundingBox(Vec2::new(4 * ONE, 4 * ONE))
}

fn laser(len: i32) -> Laser {
    Laser { color: WHITE, len }
}

fn moving(x: i32, y: i32, vx: i32, vy: i32) -> RelativeLocomotor {
    RelativeLocomotor::with_velocity(Point2::new(x, y), Vec2::new(vx, vy))
}

#[test]
fn radius_of_a_box_is_the_distance_to_its_corner_rounded_up() {
    assert_eq!(BoundingBox(Vec2::new(3 * ONE, 4 * ONE)).dist(), 5 * ONE as i64);
    // The square root of 32, in raw units, lies between 370727 and 370728.
    assert_eq!(player_box().dist(), 370728);
    assert_eq!(BoundingBox(Vec2::new(-4 * ONE, 4 * ONE)).dist(), 370728);
    assert_eq!(BoundingBox(Vec2::new(0, 0)).dist(), 0);
    assert_eq!(BoundingBox(Vec2::new(1, 0)).dist(), 1);
    assert_eq!(BoundingBox(Vec2::new(1, 1)).dist(), 2);
    assert_eq!(BoundingBox(Vec2::new(i32::MIN, i32::MIN)).dist(), 3037000500);
}

#[test]
fn laser_across_the_player_is_removed() {
    // Player at the origin, reaching 4 to each side. A laser of length 8 in
    // the same place, flying along x, reaches from (-4, 0) to (4, 0).
    let origin = Point2::new(0, 0);
    let gone = system(500 * ONE).removes(origin, player_box(), &laser(8 * ONE), &moving(0, 0, ONE, 0));
    assert!(gone);
}

#[test]
fn laser_inside_the_player_is_kept() {
    // It crosses no edge.
    let origin = Point2::new(0, 0);
    let gone = system(500 * ONE).removes(origin, player_box(), &laser(2 * ONE), &moving(0, 0, ONE, 0));
    assert!(!gone);
}

#[test]
fn laser_near_the_player_that_misses_is_kept() {
    let origin = Point2::new(0, 0);
    let system = system(500 * ONE);
    // From (5, 0) to (7, 0): short of the player, whose edge is at 4.
    assert!(!system.removes(origin, player_box(), &laser(2 * ONE), &moving(6 * ONE, 0, -ONE, 0)));
    // The same laser across its line of flight passes the player by.
    assert!(!system.removes(origin, player_box(), &laser(2 * ONE), &moving(6 * ONE, 0, 0, ONE)));
    // One that is long enough reaches the edge.
    assert!(system.removes(origin, player_box(), &laser(4 * ONE), &moving(6 * ONE, 0, -ONE, 0)));
}

#[test]
fn laser_reaches_half_its_length_each_way_along_its_velocity() {
    let player = Point2::new(10 * ONE, 10 * ONE);
    let system = system(500 * ONE);
    // The player's right edge is at x = 14. The speed does not matter, the direction does.
    for speed in [1, 7, ONE, 100 * ONE, i32::MAX] {
        // From 14.5 to 16.5.
        assert!(!system.removes(player, player_box(), &laser(2 * ONE), &moving(31 * ONE / 2, 10 * ONE, speed, 0)));
        // From 14 to 17.
        assert!(system.removes(player, player_box(), &laser(3 * ONE), &moving(31 * ONE / 2, 10 * ONE, speed, 0)));
        assert!(system.removes(player, player_box(), &laser(3 * ONE), &moving(31 * ONE / 2, 10 * ONE, -speed, 0)));
    }
    // Along (3, 4), a laser of length 10 reaches (3, 4) each way: from (15, 10), up to (12, 6).
    assert!(system.removes(player, player_box(), &laser(10 * ONE), &moving(15 * ONE, 10 * ONE, 3 * ONE, 4 * ONE)));
    // Along (3, -4) from (15, 16) it reaches down to (18, 12) and up to (12, 20): past the corner at (14, 14).
    assert!(!system.removes(player, player_box(), &laser(10 * ONE), &moving(15 * ONE, 16 * ONE, 3 * ONE, -4 * ONE)));
}

#[test]
fn proximity_and_exact_test_make_up_the_verdict() {
    let origin = Point2::new(0, 0);
    let system = system(500 * ONE);
    for (len, x, y, vx, vy) in [
        (8 * ONE, 0, 0, ONE, 0),
        (2 * ONE, 0, 0, ONE, 0),
        (2 * ONE, 6 * ONE, 0, -ONE, 0),
        (4 * ONE, 6 * ONE, 0, -ONE, 0),
        (8 * ONE, 600 * ONE, 0, ONE, 0),
        (8 * ONE, 100 * ONE, 0, ONE, 0),
        (8 * ONE, 4 * ONE, 0, 0, 0),
    ] {
        let near = LaserCollisionSystem::near(origin, player_box(), &laser(len), &moving(x, y, vx, vy));
        let hits = LaserCollisionSystem::hits(origin, player_box(), &laser(len), &moving(x, y, vx, vy));
        let gone = system.removes(origin, player_box(), &laser(len), &moving(x, y, vx, vy));
        let dist_squared = x as i64 * x as i64 + y as i64 * y as i64;
        let beyond = dist_squared > (500 * ONE as i64) * (500 * ONE as i64);
        assert_eq!(gone, if near { hits } else { beyond });
    }
}

#[test]
fn laser_is_near_within_its_length_plus_the_radius() {
    let origin = Point2::new(0, 0);
    let reach = 8 * ONE + 370728;
    assert!(LaserCollisionSystem::near(origin, player_box(), &laser(8 * ONE), &moving(reach - 1, 0, ONE, 0)));
    assert!(!LaserCollisionSystem::near(origin, player_box(), &laser(8 * ONE), &moving(reach, 0, ONE, 0)));
    assert!(LaserCollisionSystem::near(origin, player_box(), &laser(8 * ONE), &moving(0, 1 - reach, ONE, 0)));
    assert!(!LaserCollisionSystem::near(origin, player_box(), &laser(8 * ONE), &moving(0, -reach, ONE, 0)));
    // Nothing is nearer than nothing.
    assert!(!LaserCollisionSystem::near(origin, BoundingBox(Vec2::new(0, 0)), &laser(0), &moving(0, 0, ONE, 0)));
}

#[test]
fn no_laser_hits_from_afar() {
    let player = Point2::new(3 * ONE, -2 * ONE);
    let bb = BoundingBox(Vec2::new(2 * ONE, 5 * ONE));
    let steps = [-9, -6, -4, -2, -1, 0, 1, 2, 4, 6, 9];
    let velocities = [(ONE, 0), (0, -ONE), (3, 4), (-5 * ONE, ONE), (7, -7)];
    let mut hits = 0;
    let mut far = 0;
    for &x in &steps {
        for &y in &steps {
            for &(vx, vy) in &velocities {
                for len in [1, ONE, 3 * ONE, 7 * ONE] {
                    let locomotor = moving(player.x + x * ONE, player.y + y * ONE, vx, vy);
                    let near = LaserCollisionSystem::near(player, bb, &laser(len), &locomotor);
                    let hit = LaserCollisionSystem::hits(player, bb, &laser(len), &locomotor);
                    assert!(near || !hit);
                    hits += hit as u32;
                    far += !near as u32;
                }
            }
        }
    }
    assert!(hits > 50 && far > 50);
}

#[test]
fn laser_at_rest_hits_nothing() {
    let origin = Point2::new(0, 0);
    let gone = system(500 * ONE).removes(origin, player_box(), &laser(8 * ONE), &moving(4 * ONE, 0, 0, 0));
    assert!(!gone);
}

#[test]
fn laser_beyond_the_despawn_distance_is_removed() {
    let origin = Point2::new(0, 0);
    let system = system(500 * ONE);
    assert!(system.removes(origin, player_box(), &laser(8 * ONE), &moving(600 * ONE, 0, ONE, 0)));
    assert!(system.removes(origin, player_box(), &laser(8 * ONE), &moving(0, -600 * ONE, 0, 0)));
    assert!(system.removes(origin, player_box(), &laser(8 * ONE), &moving(400 * ONE, 400 * ONE, ONE, 0)));
}

#[test]
fn laser_at_the_despawn_distance_is_kept() {
    let origin = Point2::new(0, 0);
    let system = system(500 * ONE);
    assert!(!system.removes(origin, player_box(), &laser(8 * ONE), &moving(500 * ONE, 0, ONE, 0)));
    assert!(system.removes(origin, player_box(), &laser(8 * ONE), &moving(500 * ONE + 1, 0, ONE, 0)));
    assert!(!system.removes(origin, player_box(), &laser(8 * ONE), &moving(300 * ONE, 400 * ONE, ONE, 0)));
    assert!(system.removes(origin, player_box(), &laser(8 * ONE), &moving(300 * ONE, 400 * ONE + 1, ONE, 0)));
}

#[test]
fn near_laser_is_never_removed_for_its_distance() {
    let origin = Point2::new(0, 0);
    // Despawn distance 1, well within the player.
    let system = system(ONE);
    // The laser is near up to a distance of 8 plus the radius, 370728 raw units.
    let reach = 8 * ONE + 370728;
    assert!(!system.removes(origin, player_box(), &laser(8 * ONE), &moving(reach - 1, 0, 0, ONE)));
    assert!(system.removes(origin, player_box(), &laser(8 * ONE), &moving(reach, 0, 0, ONE)));
}

#[test]
fn despawn_distance_counts_by_its_square() {
    let origin = Point2::new(0, 0);
    // A negative distance despawns like its absolute value.
    let system = system(-500 * ONE);
    assert!(!system.removes(origin, player_box(), &laser(8 * ONE), &moving(500 * ONE, 0, ONE, 0)));
    assert!(system.removes(origin, player_box(), &laser(8 * ONE), &moving(500 * ONE + 1, 0, ONE, 0)));
}

#[test]
fn collision_system_judges_every_laser_in_order() {
    let origin = Point2::new(0, 0);
    let lasers = vec![
        (laser(8 * ONE), moving(0, 0, ONE, 0)),
        (laser(2 * ONE), moving(0, 0, ONE, 0)),
        (laser(8 * ONE), moving(600 * ONE, 0, ONE, 0)),
        (laser(8 * ONE), moving(100 * ONE, 0, ONE, 0)),
        (laser(4 * ONE), moving(6 * ONE, 0, -ONE, 0)),
    ];
    let removed = system(500 * ONE).run(origin, player_box(), &lasers);
    assert_eq!(removed, vec![true, false, true, false, true]);
    let none: Vec<(Laser, RelativeLocomotor)> = Vec::new();
    assert_eq!(system(500 * ONE).run(origin, player_box(), &none), Vec::<bool>::new());
}

#[test]
fn collision_system_works_at_the_limits_of_storage() {
    let system = system(i32::MIN);
    let far = Point2::new(i32::MAX, i32::MAX);
    let near = Point2::new(i32::MIN, i32::MIN);
    let huge = BoundingBox(Vec2::new(i32::MAX, i32::MAX));
    // Farther apart than the despawn distance, and not near.
    assert!(system.removes(far, player_box(), &laser(8 * ONE), &moving(i32::MIN, i32::MIN, 1, 1)));
    // A laser as long as can be, in the middle of a box as large as can be, crosses no edge.
    assert!(!system.removes(Point2::new(0, 0), huge, &laser(i32::MAX), &moving(0, 0, i32::MAX, i32::MIN)));
    // On the corner of that box it does.
    assert!(system.removes(Point2::new(0, 0), huge, &laser(i32::MAX), &moving(i32::MIN + 1, i32::MIN + 1, 1, 1)));
    assert!(!system.removes(near, player_box(), &laser(0), &moving(i32::MIN, i32::MIN, 1, 1)));
}

#[test]
fn laser_flying_away_is_removed_on_the_tick_that_passes_the_despawn_distance() {
    let player = Point2::new(0, 0);
    let despawn_dist = 150 * ONE;
    let system = system(despawn_dist);
    // A short laser that starts in the middle of the player, where it
    // crosses no edge, and flies away at 100 per second.
    let mut lasers = vec![(laser(ONE), moving(0, 0, 100 * ONE, 0))];
    let mut removed_at = None;
    // A quarter of a second per tick.
    for tick in 1..=10 {
        let mut locomotors = vec![lasers[0].1];
        RelativeMotionSystem.run(&mut locomotors, &TimeScale(ONE), ONE / 4);
        lasers[0].1 = locomotors[0];
        assert_eq!(lasers[0].1.pos, Point2::new(tick * 25 * ONE, 0));
        let gone = system.run(player, player_box(), &lasers)[0];
        let beyond = lasers[0].1.pos.x > despawn_dist;
        assert_eq!(gone, beyond);
        if gone {
            removed_at = Some(tick);
            break;
        }
    }
    // 150 is not beyond the distance, 175 is.
    assert_eq!(removed_at, Some(7));
}
