//! Updates the player's velocity in response to input, by a rudimentary
//! physics model: input accelerates along its direction, friction takes
//! away a share of the velocity, and the speed is capped.

use vstd::prelude::*;
use crate::components::player::PlayerConfig;
use crate::components::{Player, RelativeLocomotor};
use crate::fixed::{
    lemma_trunc_div_error,
    lemma_trunc_div_magnitude,
    mul_scaled,
    mul_storage,
    scale_product,
};
use crate::util::{axis_value, read_axis};
use crate::vector::{lemma_unit_is_short, normalize_wide, Coords, StorageTy, Vec2, ONE};

verus! {

/// The side that the player's sprite looks to.
#[derive(Clone, Copy, Debug, PartialEq, Eq, Structural)]
pub enum Facing {
    Right,
    Left,
}

/// The direction of the input: what the two axes read, brought to length
/// one unless both read zero.
pub open spec fn input_direction(x_in: Option<StorageTy>, y_in: Option<StorageTy>) -> Coords {
    let input = Coords { x: axis_value(x_in), y: axis_value(y_in) };
    if input.x == 0 && input.y == 0 {
        input
    } else {
        input.unit()
    }
}

/// One coordinate of the velocity after `delta_seconds` of input and
/// friction, before the speed is capped.
pub open spec fn pushed(config: PlayerConfig, speed: int, direction: int, delta_seconds: int) -> int {
    let scaled_accel_factor = scale_product(config.acceleration as int, delta_seconds);
    let scaled_decel_factor = scale_product(config.deceleration as int, delta_seconds);
    speed + scale_product(direction, scaled_accel_factor) + scale_product(
        -speed,
        scaled_decel_factor,
    )
}

/// `velocity`, cut down to `max_speed` along its own direction where it is
/// faster.
pub open spec fn capped(velocity: Coords, max_speed: int) -> Coords {
    if velocity.norm_squared() > max_speed * max_speed {
        Coords {
            x: scale_product(velocity.unit().x, max_speed),
            y: scale_product(velocity.unit().y, max_speed),
        }
    } else {
        velocity
    }
}

/// The player's velocity after one tick.
pub open spec fn next_velocity(
    config: PlayerConfig,
    velocity: Coords,
    x_in: Option<StorageTy>,
    y_in: Option<StorageTy>,
    delta_seconds: int,
) -> Coords {
    let direction = input_direction(x_in, y_in);
    capped(
        Coords {
            x: pushed(config, velocity.x, direction.x, delta_seconds),
            y: pushed(config, velocity.y, direction.y, delta_seconds),
        },
        config.max_speed as int,
    )
}

/// Where the sprite turns to: right once the player moves right faster than
/// one twentieth per second, left once it moves left that fast. In between
/// it stays as it is.
pub open spec fn facing_of(speed_x: int) -> Option<Facing> {
    if 20 * speed_x > ONE {
        Some(Facing::Right)
    } else if 20 * speed_x < -ONE {
        Some(Facing::Left)
    } else {
        None
    }
}

/// A capped velocity is no faster than the cap.
pub proof fn lemma_capped_is_slow(velocity: Coords, max_speed: int)
    requires
        max_speed >= 0,
    ensures
        capped(velocity, max_speed).norm_squared() <= max_speed * max_speed,
        -max_speed <= capped(velocity, max_speed).x <= max_speed,
        -max_speed <= capped(velocity, max_speed).y <= max_speed,
{
    let c = capped(velocity, max_speed);
    let one = ONE as int;
    let mm = max_speed * max_speed;
    assert(mm >= 0) by (nonlinear_arith)
        requires
            mm == max_speed * max_speed,
    ;
    if velocity.norm_squared() > mm {
        let u = velocity.unit();
        assert(velocity.x != 0 || velocity.y != 0) by (nonlinear_arith)
            requires
                velocity.x * velocity.x + velocity.y * velocity.y > 0,
        ;
        lemma_unit_is_short(velocity);
        lemma_trunc_div_error(u.x * max_speed, one);
        lemma_trunc_div_error(u.y * max_speed, one);
        assert((c.x * one) * (c.x * one) <= (u.x * max_speed) * (u.x * max_speed))
            by (nonlinear_arith)
            requires
                (u.x * max_speed >= 0 && 0 <= c.x * one <= u.x * max_speed) || (u.x * max_speed
                    <= 0 && u.x * max_speed <= c.x * one <= 0),
        ;
        assert((c.y * one) * (c.y * one) <= (u.y * max_speed) * (u.y * max_speed))
            by (nonlinear_arith)
            requires
                (u.y * max_speed >= 0 && 0 <= c.y * one <= u.y * max_speed) || (u.y * max_speed
                    <= 0 && u.y * max_speed <= c.y * one <= 0),
        ;
        let cc = c.x * c.x + c.y * c.y;
        let uu = u.x * u.x + u.y * u.y;
        assert(cc * (one * one) == (c.x * one) * (c.x * one) + (c.y * one) * (c.y * one))
            by (nonlinear_arith)
            requires
                cc == c.x * c.x + c.y * c.y,
        ;
        assert((u.x * max_speed) * (u.x * max_speed) + (u.y * max_speed) * (u.y * max_speed) == uu
            * mm) by (nonlinear_arith)
            requires
                uu == u.x * u.x + u.y * u.y,
                mm == max_speed * max_speed,
        ;
        assert(cc <= mm) by (nonlinear_arith)
            requires
                cc * (one * one) <= uu * mm,
                uu <= one * one,
                mm >= 0,
                one * one > 0,
        ;
    }
    assert(-max_speed <= c.x <= max_speed && -max_speed <= c.y <= max_speed) by (nonlinear_arith)
        requires
            c.x * c.x + c.y * c.y <= max_speed * max_speed,
            max_speed >= 0,
    ;
}

/// Steers the player by the input.
pub struct PlayerSystem;

impl PlayerSystem {
    fn push(
        config: &PlayerConfig,
        speed: StorageTy,
        direction: StorageTy,
        delta_seconds: StorageTy,
    ) -> (to: i64)
        requires
            -ONE <= direction <= ONE,
        ensures
            to == pushed(*config, speed as int, direction as int, delta_seconds as int),
            -0x4000_0000_0000_0000 <= to <= 0x4000_0000_0000_0000,
    {
        // The friction.
        let scaled_decel_factor: i64 = mul_storage(config.deceleration, delta_seconds);
        let static_decel: i128 = mul_scaled(-(speed as i64), scaled_decel_factor);
        // The push of the input.
        let scaled_accel_factor: i64 = mul_storage(config.acceleration, delta_seconds);
        let accel: i128 = mul_scaled(direction as i64, scaled_accel_factor);
        proof {
            let minus_speed = -(speed as int);
            assert(-(0x2000_0000_0000_0000 * ONE) <= minus_speed * scaled_decel_factor
                <= 0x2000_0000_0000_0000 * ONE) by (nonlinear_arith)
                requires
                    -0x8000_0000 <= minus_speed <= 0x8000_0000,
                    -0x4000_0000_0000 <= scaled_decel_factor <= 0x4000_0000_0000,
                    ONE == 0x1_0000,
            ;
            lemma_trunc_div_magnitude(
                minus_speed * scaled_decel_factor,
                ONE as int,
                0x2000_0000_0000_0000,
            );
            assert(-(0x4000_0000_0000 * ONE) <= direction * scaled_accel_factor <= 0x4000_0000_0000
                * ONE) by (nonlinear_arith)
                requires
                    -ONE <= direction <= ONE,
                    -0x4000_0000_0000 <= scaled_accel_factor <= 0x4000_0000_0000,
                    ONE == 0x1_0000,
            ;
            lemma_trunc_div_magnitude(
                direction * scaled_accel_factor,
                ONE as int,
                0x4000_0000_0000,
            );
        }
        speed as i64 + accel as i64 + static_decel as i64
    }

    /// One tick: the player's velocity answers to what the two input axes
    /// read during `delta_seconds`. Where the player stands is not touched.
    pub fn run(
        &self,
        player: &Player,
        locomotor: &mut RelativeLocomotor,
        x_in: Option<StorageTy>,
        y_in: Option<StorageTy>,
        delta_seconds: StorageTy,
    ) -> (facing: Option<Facing>)
        requires
            player.config.wf(),
        ensures
            final(locomotor).velocity@ == next_velocity(
                player.config,
                old(locomotor).velocity@,
                x_in,
                y_in,
                delta_seconds as int,
            ),
            final(locomotor).pos == old(locomotor).pos,
            final(locomotor).old_pos == old(locomotor).old_pos,
            final(locomotor).velocity@.norm_squared() <= player.config.max_speed
                * player.config.max_speed,
            facing == facing_of(final(locomotor).velocity.x as int),
    {
        let config = &player.config;

        // Grab the raw input values, which read zero in the deadzone.
        let x: StorageTy = read_axis(x_in);
        let y: StorageTy = read_axis(y_in);

        // Bring the input to length one, unless there is none.
        let (dir_x, dir_y): (StorageTy, StorageTy) = if x == 0 && y == 0 {
            (0, 0)
        } else {
            normalize_wide(x as i64, y as i64)
        };

        // Our new velocity, before accounting for max speed.
        let new_x: i64 = Self::push(config, locomotor.velocity.x, dir_x, delta_seconds);
        let new_y: i64 = Self::push(config, locomotor.velocity.y, dir_y, delta_seconds);

        let wide_x: i128 = new_x as i128;
        let wide_y: i128 = new_y as i128;
        assert(0 <= wide_x * wide_x <= 0x1000_0000_0000_0000_0000_0000_0000_0000) by (nonlinear_arith)
            requires
                -0x4000_0000_0000_0000 <= wide_x <= 0x4000_0000_0000_0000,
        ;
        assert(0 <= wide_y * wide_y <= 0x1000_0000_0000_0000_0000_0000_0000_0000) by (nonlinear_arith)
            requires
                -0x4000_0000_0000_0000 <= wide_y <= 0x4000_0000_0000_0000,
        ;
        let new_velocity_norm_squared: i128 = wide_x * wide_x + wide_y * wide_y;
        let max_speed: i64 = config.max_speed as i64;
        assert(0 <= max_speed * max_speed <= 0x4000_0000_0000_0000) by (nonlinear_arith)
            requires
                0 <= max_speed <= 0x8000_0000,
        ;
        let max_speed_squared: i128 = (max_speed * max_speed) as i128;

        proof {
            lemma_capped_is_slow(Coords { x: new_x as int, y: new_y as int }, max_speed as int);
        }
        // Ensure our velocity does not exceed our max speed. If it does, we
        // cut it down.
        let velocity = if new_velocity_norm_squared > max_speed_squared {
            let (unit_x, unit_y) = normalize_wide(new_x, new_y);
            let capped_x: i128 = mul_scaled(unit_x as i64, max_speed);
            let capped_y: i128 = mul_scaled(unit_y as i64, max_speed);
            Vec2 { x: capped_x as StorageTy, y: capped_y as StorageTy }
        } else {
            Vec2 { x: new_x as StorageTy, y: new_y as StorageTy }
        };

        // Set the velocity to our calculated value.
        locomotor.velocity = velocity;

        // Turn the player's sprite to look left or right once the player's
        // speed along x passes the threshold in that direction.
        let speed_x: i64 = velocity.x as i64;
        if 20 * speed_x > ONE as i64 {
            Some(Facing::Right)
        } else if 20 * speed_x < -(ONE as i64) {
            Some(Facing::Left)
        } else {
            None
        }
    }
}

} // verus!
