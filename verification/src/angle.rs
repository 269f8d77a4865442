//! Angles and the rule by which a camera's orientation changes.
//!
//! Angles are whole numbers of millionths of a degree. In that unit a quarter
//! turn and a full turn are exact, so the limits of a camera's pitch and the
//! wrapping of its yaw and roll hold exactly.

use vstd::prelude::*;

verus! {

/// Millionths of a degree in one degree.
pub const MICRODEGREES_PER_DEGREE: i64 = 1_000_000;

/// 90 degrees, in millionths of a degree.
pub const QUARTER_TURN: i64 = 90_000_000;

/// 180 degrees, in millionths of a degree.
pub const HALF_TURN: i64 = 180_000_000;

/// 360 degrees, in millionths of a degree.
pub const FULL_TURN: i64 = 360_000_000;

/// An angle, or a change of angle, in millionths of a degree.
#[derive(Clone, Copy, Debug, PartialEq, Eq, Hash, Structural)]
pub struct Angle {
    pub microdegrees: i64,
}

/// The angle nearest to `a` that lies between a quarter turn down and a
/// quarter turn up.
pub open spec fn clamp_to_quarter_turn(a: int) -> int {
    if a < -QUARTER_TURN {
        -QUARTER_TURN as int
    } else if a > QUARTER_TURN {
        QUARTER_TURN as int
    } else {
        a
    }
}

/// The angle in `[0, 360)` degrees that differs from `a` by whole turns.
pub open spec fn wrap_to_full_turn(a: int) -> int {
    a % (FULL_TURN as int)
}

/// The number nearest to `a` that an angle can hold.
pub open spec fn saturate(a: int) -> int {
    if a < i64::MIN {
        i64::MIN as int
    } else if a > i64::MAX {
        i64::MAX as int
    } else {
        a
    }
}

impl Angle {
    /// The angle taken `factor` times, held at the largest or the smallest
    /// angle where the product lies beyond it.
    pub fn times(self, factor: i64) -> (r: Angle)
        ensures
            r.microdegrees == saturate(self.microdegrees * factor),
    {
        let a: i128 = self.microdegrees as i128;
        let b: i128 = factor as i128;
        assert(-0x4000_0000_0000_0000_0000_0000_0000_0000 <= a * b
            <= 0x4000_0000_0000_0000_0000_0000_0000_0000) by (nonlinear_arith)
            requires
                -0x8000_0000_0000_0000 <= a <= 0x8000_0000_0000_0000,
                -0x8000_0000_0000_0000 <= b <= 0x8000_0000_0000_0000,
        ;
        let product: i128 = a * b;
        if product < i64::MIN as i128 {
            Angle { microdegrees: i64::MIN }
        } else if product > i64::MAX as i128 {
            Angle { microdegrees: i64::MAX }
        } else {
            Angle { microdegrees: product as i64 }
        }
    }

    /// The angle of no turn at all.
    pub fn zero() -> (r: Angle)
        ensures
            r.microdegrees == 0,
    {
        Angle { microdegrees: 0 }
    }

    /// The angle of `degrees` whole degrees.
    pub fn from_degrees(degrees: i32) -> (r: Angle)
        ensures
            r.microdegrees == degrees * MICRODEGREES_PER_DEGREE,
    {
        let wide: i64 = degrees as i64;
        Angle { microdegrees: wide * MICRODEGREES_PER_DEGREE }
    }

    /// `self` turned by `delta`, stopped at a quarter turn either way.
    pub fn clamped_sum(self, delta: Angle) -> (r: Angle)
        ensures
            r.microdegrees == clamp_to_quarter_turn(self.microdegrees + delta.microdegrees),
    {
        let sum: i128 = self.microdegrees as i128 + delta.microdegrees as i128;
        if sum < -(QUARTER_TURN as i128) {
            Angle { microdegrees: -QUARTER_TURN }
        } else if sum > QUARTER_TURN as i128 {
            Angle { microdegrees: QUARTER_TURN }
        } else {
            Angle { microdegrees: sum as i64 }
        }
    }

    /// `self` turned by `delta`, brought back into `[0, 360)` degrees.
    pub fn wrapped_sum(self, delta: Angle) -> (r: Angle)
        ensures
            r.microdegrees == wrap_to_full_turn(self.microdegrees + delta.microdegrees),
            0 <= r.microdegrees < FULL_TURN,
    {
        let sum: i128 = self.microdegrees as i128 + delta.microdegrees as i128;
        let remainder: i128 = sum % (FULL_TURN as i128);
        let wrapped: i128 = if remainder < 0 {
            remainder + FULL_TURN as i128
        } else {
            remainder
        };
        Angle { microdegrees: wrapped as i64 }
    }
}

/// An orientation given by three angles, or a change of orientation.
///
/// `pitch` turns about the first axis, `yaw` about the second and `roll`
/// about the third.
#[derive(Clone, Copy, Debug, PartialEq, Eq, Hash, Structural)]
pub struct Rotation {
    pub pitch: Angle,
    pub yaw: Angle,
    pub roll: Angle,
}

impl Rotation {
    /// Whether the pitch lies within a quarter turn of level and the yaw and
    /// the roll lie in `[0, 360)` degrees.
    pub open spec fn is_normalized(self) -> bool {
        &&& -QUARTER_TURN <= self.pitch.microdegrees <= QUARTER_TURN
        &&& 0 <= self.yaw.microdegrees < FULL_TURN
        &&& 0 <= self.roll.microdegrees < FULL_TURN
    }

    /// The orientation reached from `self` by the change `delta`: the pitch
    /// is clamped, the yaw and the roll wrap around.
    pub open spec fn turned_by(self, delta: Rotation) -> Rotation {
        Rotation {
            pitch: Angle {
                microdegrees: clamp_to_quarter_turn(
                    self.pitch.microdegrees + delta.pitch.microdegrees,
                ) as i64,
            },
            yaw: Angle {
                microdegrees: wrap_to_full_turn(
                    self.yaw.microdegrees + delta.yaw.microdegrees,
                ) as i64,
            },
            roll: Angle {
                microdegrees: wrap_to_full_turn(
                    self.roll.microdegrees + delta.roll.microdegrees,
                ) as i64,
            },
        }
    }

    /// No turn about any axis.
    pub fn zero() -> (r: Rotation)
        ensures
            r.pitch.microdegrees == 0,
            r.yaw.microdegrees == 0,
            r.roll.microdegrees == 0,
            r.is_normalized(),
    {
        Rotation { pitch: Angle::zero(), yaw: Angle::zero(), roll: Angle::zero() }
    }

    /// Tells whether the orientation is normalized.
    pub fn check_normalized(&self) -> (r: bool)
        ensures
            r == self.is_normalized(),
    {
        -QUARTER_TURN <= self.pitch.microdegrees && self.pitch.microdegrees <= QUARTER_TURN && 0
            <= self.yaw.microdegrees && self.yaw.microdegrees < FULL_TURN && 0
            <= self.roll.microdegrees && self.roll.microdegrees < FULL_TURN
    }

    /// Applies the change `delta` to the orientation.
    ///
    /// A change that would carry the pitch past a quarter turn leaves it
    /// exactly at the quarter turn. The yaw and the roll end in `[0, 360)`
    /// degrees, whatever the change and whatever they were before.
    pub fn rotate(&mut self, delta: Rotation)
        ensures
            *final(self) == old(self).turned_by(delta),
            final(self).is_normalized(),
            old(self).pitch.microdegrees + delta.pitch.microdegrees < -QUARTER_TURN
                ==> final(self).pitch.microdegrees == -QUARTER_TURN,
            old(self).pitch.microdegrees + delta.pitch.microdegrees > QUARTER_TURN
                ==> final(self).pitch.microdegrees == QUARTER_TURN,
            -QUARTER_TURN <= old(self).pitch.microdegrees + delta.pitch.microdegrees
                <= QUARTER_TURN ==> final(self).pitch.microdegrees == old(
                self,
            ).pitch.microdegrees + delta.pitch.microdegrees,
            (final(self).yaw.microdegrees - old(self).yaw.microdegrees
                - delta.yaw.microdegrees) % (FULL_TURN as int) == 0,
            (final(self).roll.microdegrees - old(self).roll.microdegrees
                - delta.roll.microdegrees) % (FULL_TURN as int) == 0,
    {
        let pitch = self.pitch.clamped_sum(delta.pitch);
        let yaw = self.yaw.wrapped_sum(delta.yaw);
        let roll = self.roll.wrapped_sum(delta.roll);
        self.pitch = pitch;
        self.yaw = yaw;
        self.roll = roll;
    }
}

} // verus!
