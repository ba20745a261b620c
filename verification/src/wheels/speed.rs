//! Validated speed values and the counter-rotation multiplier.

use vstd::prelude::*;

verus! {

/// The single error of this crate: a raw speed or multiplier value of 0 or
/// above 100 was rejected at construction time.
#[derive(Debug, PartialEq, Eq, Structural, Clone, Copy)]
pub struct OutOfRange;

/// A drive speed, guaranteed to lie in the inclusive range [1, 100].
///
/// The same bounded value type also supplies the raw value of a
/// [`CounterRotationMultiplier`]. Instances are immutable; the range invariant
/// is established at construction and never broken afterwards.
#[derive(Debug, PartialEq, Eq, Structural, Clone, Copy)]
pub struct WheelSpeed(u8);

impl View for WheelSpeed {
    type V = int;

    closed spec fn view(&self) -> int {
        self.0 as int
    }
}

/// The saturating product of a multiplier and a base speed, clamped into the
/// valid speed range [1, 100].
pub open spec fn effective_speed(multiplier: int, base: int) -> int {
    if multiplier * base > 100 {
        100
    } else if multiplier * base < 1 {
        1
    } else {
        multiplier * base
    }
}

/// For a multiplier and a base speed that are both in [1, 100], the effective
/// speed is again a valid speed in [1, 100].
pub proof fn lemma_effective_speed_in_range(multiplier: int, base: int)
    requires
        1 <= multiplier <= 100,
        1 <= base <= 100,
    ensures
        1 <= effective_speed(multiplier, base) <= 100,
{
    assert(1 <= multiplier * base) by (nonlinear_arith)
        requires
            1 <= multiplier,
            1 <= base,
    ;
}

impl WheelSpeed {
    /// The largest valid speed.
    pub const MAX_SPEED: u8 = 100;

    #[verifier::type_invariant]
    spec fn in_range(self) -> bool {
        1 <= self.0 <= 100
    }

    /// Builds a speed from a raw value, rejecting 0 and anything above 100.
    pub fn new(speed: u8) -> (r: Result<Self, OutOfRange>)
        ensures
            r is Ok <==> 1 <= speed <= 100,
            r matches Ok(s) ==> s@ == speed as int,
    {
        if speed > Self::MAX_SPEED || speed < 1 {
            Err(OutOfRange)
        } else {
            Ok(WheelSpeed(speed))
        }
    }

    /// The raw value, always in [1, 100].
    pub fn value(&self) -> (v: u8)
        ensures
            v as int == self@,
            1 <= v <= 100,
    {
        proof {
            use_type_invariant(self);
        }
        self.0
    }

    /// Multiplies two speed values, saturating to the maximum speed when the
    /// product leaves the representable range and clamping the result into
    /// [1, 100].
    fn multiply(&self, other_wheel: &Self) -> (r: Self)
        ensures
            r@ == effective_speed(self@, other_wheel@),
    {
        proof {
            use_type_invariant(self);
            use_type_invariant(other_wheel);
            assert(1 <= (self.0 as int) * (other_wheel.0 as int) <= 10000) by (nonlinear_arith)
                requires
                    1 <= self.0 as int <= 100,
                    1 <= other_wheel.0 as int <= 100,
            ;
        }
        let product: u16 = (self.0 as u16) * (other_wheel.0 as u16);
        if product > Self::MAX_SPEED as u16 {
            WheelSpeed(Self::MAX_SPEED)
        } else {
            WheelSpeed(product as u8)
        }
    }
}

/// A scale factor applied to the base speed to derive the secondary wheel's
/// speed during a turn. It wraps one [`WheelSpeed`] and so obeys the same
/// [1, 100] bound, but is interpreted as a literal multiplier rather than a
/// percentage.
#[derive(Debug, PartialEq, Eq, Structural, Clone, Copy)]
pub struct CounterRotationMultiplier(WheelSpeed);

impl View for CounterRotationMultiplier {
    type V = int;

    closed spec fn view(&self) -> int {
        self.0@
    }
}

impl CounterRotationMultiplier {
    /// Builds a multiplier from a raw value, rejecting 0 and anything above
    /// 100 exactly as [`WheelSpeed::new`] does.
    pub fn new(counter_rotation_multiplier: u8) -> (r: Result<Self, OutOfRange>)
        ensures
            r is Ok <==> 1 <= counter_rotation_multiplier <= 100,
            r matches Ok(m) ==> m@ == counter_rotation_multiplier as int,
    {
        match WheelSpeed::new(counter_rotation_multiplier) {
            Ok(speed) => Ok(CounterRotationMultiplier(speed)),
            Err(e) => Err(e),
        }
    }

    /// The secondary wheel speed for a turn: this multiplier applied to the
    /// given base speed, saturated and clamped into [1, 100].
    pub fn get_wheel_speed(&self, base_speed: &WheelSpeed) -> (r: WheelSpeed)
        ensures
            r@ == effective_speed(self@, base_speed@),
    {
        self.0.multiply(base_speed)
    }
}

} // verus!
