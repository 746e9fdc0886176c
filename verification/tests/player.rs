use dodge::components::player::{PlayerConfig, PLAYER_HALF_EXTENT};
use dodge::components::velocity::Velocity;
use dodge::components::{BoundingBox, Player, RelativeLocomotor};
use dodge::systems::player::Facing;
use dodge::systems::PlayerSystem;
use dodge::vector::{Point2, Vec2, ONE};

fn config() -> PlayerConfig {
    PlayerConfig { max_speed: 10 * ONE, acceleration: 2 * ONE, deceleration: ONE / 2 }
}

fn player() -> Player {
    Player::from_config(config())
}

fn moving(vx: i32, vy: i32) -> RelativeLocomotor {
    let mut locomotor = RelativeLocomotor::with_velocity(Point2::new(7, 8), Vec2::new(vx, vy));
    locomotor.old_pos = Point2::new(5, 6);
    locomotor
}

#[test]
fn player_keeps_its_configuration() {
    assert_eq!(player().config, config());
    assert_eq!(player().config.max_speed, 10 * ONE);
    assert_eq!(player().config.acceleration, 2 * ONE);
    assert_eq!(player().config.deceleration, ONE / 2);
}

#[test]
fn the_player_starts_in_the_middle_of_the_world() {
    assert_eq!(Player::origin(960 * ONE, 540 * ONE), Point2::new(480 * ONE, 270 * ONE));
    assert_eq!(Player::origin(0, 0), Point2::new(0, 0));
    // Halves are rounded toward zero.
    assert_eq!(Player::origin(5, -5), Point2::new(2, -2));
    assert_eq!(Player::origin(i32::MAX, i32::MIN), Point2::new(1073741823, -1073741824));
}

#[test]
fn the_players_box_reaches_4_to_each_side() {
    assert_eq!(PLAYER_HALF_EXTENT, 4 * ONE);
    assert_eq!(Player::bounding_box(), BoundingBox(Vec2::new(4 * ONE, 4 * ONE)));
}

#[test]
fn a_player_has_no_negative_property() {
    assert!(config().is_wf());
    assert!(PlayerConfig { max_speed: 0, acceleration: 0, deceleration: 0 }.is_wf());
    assert!(!PlayerConfig { max_speed: -1, acceleration: 0, deceleration: 0 }.is_wf());
    assert!(!PlayerConfig { max_speed: 0, acceleration: -1, deceleration: 0 }.is_wf());
    assert!(!PlayerConfig { max_speed: 0, acceleration: 0, deceleration: i32::MIN }.is_wf());
}

#[test]
fn a_velocity_is_a_pair_of_speeds() {
    let v = Velocity(3, -4);
    assert_eq!((v.0, v.1), (3, -4));
}

#[test]
fn friction_takes_its_share_of_the_velocity() {
    // Half of the velocity per second, for one second.
    let mut locomotor = moving(10 * ONE, -4 * ONE);
    PlayerSystem.run(&player(), &mut locomotor, None, None, ONE);
    assert_eq!(locomotor.velocity, Vec2::new(5 * ONE, -2 * ONE));
}

#[test]
fn input_accelerates_along_its_direction() {
    // 2 per second for a quarter of a second, from rest.
    let mut locomotor = moving(0, 0);
    PlayerSystem.run(&player(), &mut locomotor, Some(ONE), None, ONE / 4);
    assert_eq!(locomotor.velocity, Vec2::new(ONE / 2, 0));
    let mut locomotor = moving(0, 0);
    PlayerSystem.run(&player(), &mut locomotor, None, Some(-ONE), ONE / 4);
    assert_eq!(locomotor.velocity, Vec2::new(0, -ONE / 2));
}

#[test]
fn the_strength_of_the_input_does_not_matter() {
    for x_in in [1, 5, ONE / 3, ONE, 1000 * ONE, i32::MAX] {
        let mut locomotor = moving(0, 0);
        PlayerSystem.run(&player(), &mut locomotor, Some(x_in), None, ONE / 4);
        assert_eq!(locomotor.velocity, Vec2::new(ONE / 2, 0));
        let mut locomotor = moving(0, 0);
        PlayerSystem.run(&player(), &mut locomotor, Some(-x_in), Some(0), ONE / 4);
        assert_eq!(locomotor.velocity, Vec2::new(-ONE / 2, 0));
    }
}

#[test]
fn diagonal_input_accelerates_no_more_than_straight_input() {
    // Along the diagonal each coordinate gets the square root of one half,
    // 46340 raw units, of the half unit of speed: 23170.
    let mut locomotor = moving(0, 0);
    PlayerSystem.run(&player(), &mut locomotor, Some(ONE), Some(-ONE), ONE / 4);
    assert_eq!(locomotor.velocity, Vec2::new(23170, -23170));
    let gained = 23170i64 * 23170 * 2;
    assert!(gained <= (ONE as i64 / 2) * (ONE as i64 / 2));
}

#[test]
fn input_and_friction_add_up() {
    // 10 + 2 * 0.25 - 10 * 0.5 * 0.25 along x, friction alone along y.
    let mut locomotor = moving(8 * ONE, 4 * ONE);
    PlayerSystem.run(&player(), &mut locomotor, Some(ONE), None, ONE / 4);
    assert_eq!(locomotor.velocity, Vec2::new(8 * ONE + ONE / 2 - ONE, 4 * ONE - ONE / 2));
}

#[test]
fn speed_is_cut_down_to_the_maximum() {
    let no_friction = Player::from_config(PlayerConfig {
        max_speed: 10 * ONE,
        acceleration: 2 * ONE,
        deceleration: 0,
    });
    let mut locomotor = moving(20 * ONE, 0);
    PlayerSystem.run(&no_friction, &mut locomotor, None, None, ONE);
    assert_eq!(locomotor.velocity, Vec2::new(10 * ONE, 0));
    let mut locomotor = moving(0, -20 * ONE);
    PlayerSystem.run(&no_friction, &mut locomotor, None, None, ONE);
    assert_eq!(locomotor.velocity, Vec2::new(0, -10 * ONE));
    // (30, 40) has length 50: cut down to (6, 8), less what rounding toward zero takes.
    let mut locomotor = moving(30 * ONE, 40 * ONE);
    PlayerSystem.run(&no_friction, &mut locomotor, None, None, ONE);
    assert_eq!(locomotor.velocity, Vec2::new(393210, 524280));
}

#[test]
fn speed_at_the_maximum_is_kept() {
    let no_friction = Player::from_config(PlayerConfig {
        max_speed: 10 * ONE,
        acceleration: 2 * ONE,
        deceleration: 0,
    });
    let mut locomotor = moving(6 * ONE, 8 * ONE);
    PlayerSystem.run(&no_friction, &mut locomotor, None, None, ONE);
    assert_eq!(locomotor.velocity, Vec2::new(6 * ONE, 8 * ONE));
}

#[test]
fn a_maximum_of_zero_stops_the_player() {
    let frozen = Player::from_config(PlayerConfig { max_speed: 0, acceleration: 2 * ONE, deceleration: 0 });
    let mut locomotor = moving(3, -4);
    PlayerSystem.run(&frozen, &mut locomotor, Some(ONE), None, ONE);
    assert_eq!(locomotor.velocity, Vec2::new(0, 0));
}

#[test]
fn the_player_is_not_moved() {
    let mut locomotor = moving(10 * ONE, -4 * ONE);
    PlayerSystem.run(&player(), &mut locomotor, Some(ONE), Some(ONE), ONE);
    assert_eq!(locomotor.pos, Point2::new(7, 8));
    assert_eq!(locomotor.old_pos, Point2::new(5, 6));
}

#[test]
fn the_sprite_turns_once_the_speed_passes_a_twentieth() {
    // One twentieth is 3276.8 raw units. No time passes, so the velocity stays.
    let mut locomotor = moving(3277, 0);
    assert_eq!(PlayerSystem.run(&player(), &mut locomotor, None, None, 0), Some(Facing::Right));
    let mut locomotor = moving(3276, 5 * ONE);
    assert_eq!(PlayerSystem.run(&player(), &mut locomotor, None, None, 0), None);
    let mut locomotor = moving(-3277, 0);
    assert_eq!(PlayerSystem.run(&player(), &mut locomotor, None, None, 0), Some(Facing::Left));
    let mut locomotor = moving(-3276, -5 * ONE);
    assert_eq!(PlayerSystem.run(&player(), &mut locomotor, None, None, 0), None);
    let mut locomotor = moving(0, 0);
    assert_eq!(PlayerSystem.run(&player(), &mut locomotor, None, None, 0), None);
}

#[test]
fn the_sprite_turns_by_the_new_velocity() {
    let mut locomotor = moving(0, 0);
    assert_eq!(
        PlayerSystem.run(&player(), &mut locomotor, Some(-ONE), None, ONE / 4),
        Some(Facing::Left)
    );
    assert_eq!(
        PlayerSystem.run(&player(), &mut locomotor, Some(ONE), None, ONE),
        Some(Facing::Right)
    );
}

#[test]
fn speed_never_exceeds_the_maximum() {
    let player = player();
    let max = 10 * ONE as i64;
    let mut locomotor = moving(0, 0);
    // A sixtieth of a second per tick, with input that turns now and then.
    for tick in 0..2000 {
        let (x_in, y_in) = match (tick / 250) % 4 {
            0 => (Some(ONE), Some(ONE / 3)),
            1 => (None, Some(-ONE)),
            2 => (Some(-ONE), Some(1)),
            _ => (None, None),
        };
        PlayerSystem.run(&player, &mut locomotor, x_in, y_in, 1092);
        let v = locomotor.velocity;
        assert!(v.x as i64 * v.x as i64 + v.y as i64 * v.y as i64 <= max * max);
    }
}

#[test]
fn player_system_works_at_the_limits_of_storage() {
    let extreme = Player::from_config(PlayerConfig {
        max_speed: i32::MAX,
        acceleration: i32::MAX,
        deceleration: i32::MAX,
    });
    let max = i32::MAX as i128;
    for (vx, vy) in [(i32::MAX, i32::MAX), (i32::MIN, i32::MIN), (i32::MIN, i32::MAX), (0, 0)] {
        for dt in [i32::MIN, -1, 0, 1, i32::MAX] {
            let mut locomotor = moving(vx, vy);
            PlayerSystem.run(&extreme, &mut locomotor, Some(i32::MIN), Some(i32::MAX), dt);
            let v = locomotor.velocity;
            assert!(v.x as i128 * v.x as i128 + v.y as i128 * v.y as i128 <= max * max);
        }
    }
}
