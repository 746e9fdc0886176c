//! Updates the time scaling factor as a function of how long the player has
//! been giving input. While the player gives input, the factor grows, and
//! time speeds up. Once input stops, the factor shrinks. It is kept between
//! a configurable minimum and maximum.

use vstd::prelude::*;
use crate::fixed::{lemma_scale_product_odd, mul_storage, scale_product};
use crate::resources::TimeScale;
use crate::util::{axis_value, clamp, clamped, read_axis};
use crate::vector::StorageTy;

verus! {

/// What can be configured of the time scale.
#[derive(Clone, Copy, Debug, PartialEq, Eq, Structural)]
pub struct TimeScalingConfig {
    /// The minimum allowed time scale.
    pub minimum_time_scale: StorageTy,
    /// The maximum allowed time scale.
    pub maximum_time_scale: StorageTy,
    /// By how much the time scale grows per second while input is given.
    pub time_scale_positive_scaling_factor: StorageTy,
    /// By how much the time scale shrinks per second while no input is given.
    pub time_scale_negative_scaling_factor: StorageTy,
}

impl TimeScalingConfig {
    /// The minimum is no larger than the maximum, so that there are time
    /// scales between the two.
    pub open spec fn wf(self) -> bool {
        self.minimum_time_scale <= self.maximum_time_scale
    }

    /// Whether the configuration leaves room for a time scale.
    pub fn is_wf(&self) -> (valid: bool)
        ensures
            valid == self.wf(),
    {
        self.minimum_time_scale <= self.maximum_time_scale
    }
}

/// Directional input is being given on at least one of the two axes.
pub open spec fn input_is_active(x_in: Option<StorageTy>, y_in: Option<StorageTy>) -> bool {
    axis_value(x_in) != 0 || axis_value(y_in) != 0
}

/// The time scale after one tick of `delta_seconds`: moved by the rate that
/// the state of the input selects, then clamped.
pub open spec fn next_time_scale(
    config: TimeScalingConfig,
    active: bool,
    time_scale: int,
    delta_seconds: int,
) -> int {
    let rate = if active {
        config.time_scale_positive_scaling_factor as int
    } else {
        -config.time_scale_negative_scaling_factor
    };
    clamped(
        time_scale + scale_product(rate, delta_seconds),
        config.minimum_time_scale as int,
        config.maximum_time_scale as int,
    )
}

/// Moves the time scale with the player's input.
pub struct TimeScalingSystem {
    config: TimeScalingConfig,
}

impl TimeScalingSystem {
    /// The configuration that the system was built with.
    pub closed spec fn config(self) -> TimeScalingConfig {
        self.config
    }

    /// Builds a `TimeScalingSystem` with the provided `TimeScalingConfig`.
    pub fn from_config(config: TimeScalingConfig) -> (system: Self)
        ensures
            system.config() == config,
    {
        TimeScalingSystem { config }
    }

    /// One tick: `x_in` and `y_in` are what the two input axes read, and
    /// `delta_seconds` is the time since the previous tick.
    pub fn run(
        &self,
        x_in: Option<StorageTy>,
        y_in: Option<StorageTy>,
        time_scale: &mut TimeScale,
        delta_seconds: StorageTy,
    )
        ensures
            final(time_scale).0 == next_time_scale(
                self.config(),
                input_is_active(x_in, y_in),
                old(time_scale).0 as int,
                delta_seconds as int,
            ),
            self.config().wf() ==> self.config().minimum_time_scale <= final(time_scale).0
                <= self.config().maximum_time_scale,
    {
        // Grab the raw input values.
        let x: StorageTy = read_axis(x_in);
        let y: StorageTy = read_axis(y_in);
        let time_scale_delta: i64 = if x == 0 && y == 0 {
            let shrink: i64 = mul_storage(
                self.config.time_scale_negative_scaling_factor,
                delta_seconds,
            );
            proof {
                lemma_scale_product_odd(
                    self.config.time_scale_negative_scaling_factor as int,
                    delta_seconds as int,
                );
            }
            -shrink
        } else {
            mul_storage(self.config.time_scale_positive_scaling_factor, delta_seconds)
        };
        let moved: i64 = time_scale.0 as i64 + time_scale_delta;
        let kept: i64 = clamp(
            moved,
            self.config.minimum_time_scale as i64,
            self.config.maximum_time_scale as i64,
        );
        time_scale.0 = kept as StorageTy;
    }
}

} // verus!
