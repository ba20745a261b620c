//! The closed set of motion commands.

use super::speed::CounterRotationMultiplier;
use super::speed::OutOfRange;
use super::speed::WheelSpeed;
use vstd::prelude::*;

verus! {

/// A motion command, immutable once constructed. Every embedded value was
/// validated by the factory that built the command, so the controller never
/// has to reject one.
#[derive(Debug, PartialEq, Eq, Structural, Clone, Copy)]
pub enum WheelCommand {
    MoveForward,
    MoveBackward,
    RotateRight,
    RotateLeft,
    Stop,
    RotateRightWithCounterRotation(CounterRotationMultiplier),
    RotateLeftWithCounterRotation(CounterRotationMultiplier),
    ChangeSpeed(WheelSpeed),
}

impl WheelCommand {
    pub fn move_forward() -> (c: Self)
        ensures
            c == WheelCommand::MoveForward,
    {
        Self::MoveForward
    }

    pub fn move_backward() -> (c: Self)
        ensures
            c == WheelCommand::MoveBackward,
    {
        Self::MoveBackward
    }

    pub fn rotate_right() -> (c: Self)
        ensures
            c == WheelCommand::RotateRight,
    {
        Self::RotateRight
    }

    pub fn rotate_left() -> (c: Self)
        ensures
            c == WheelCommand::RotateLeft,
    {
        Self::RotateLeft
    }

    pub fn stop() -> (c: Self)
        ensures
            c == WheelCommand::Stop,
    {
        Self::Stop
    }

    /// Builds a `ChangeSpeed` command, rejecting a raw speed of 0 or above
    /// 100.
    pub fn change_speed(speed: u8) -> (r: Result<Self, OutOfRange>)
        ensures
            r is Ok <==> 1 <= speed <= 100,
            r matches Ok(c) ==> c matches WheelCommand::ChangeSpeed(s) && s@ == speed as int,
    {
        match WheelSpeed::new(speed) {
            Ok(s) => Ok(Self::ChangeSpeed(s)),
            Err(e) => Err(e),
        }
    }

    /// Builds a `RotateLeftWithCounterRotation` command, rejecting a raw
    /// multiplier of 0 or above 100.
    pub fn rotate_left_with_counter(counter_rotation_multiplier: u8) -> (r: Result<
        Self,
        OutOfRange,
    >)
        ensures
            r is Ok <==> 1 <= counter_rotation_multiplier <= 100,
            r matches Ok(c) ==> c matches WheelCommand::RotateLeftWithCounterRotation(m) && m@
                == counter_rotation_multiplier as int,
    {
        match CounterRotationMultiplier::new(counter_rotation_multiplier) {
            Ok(m) => Ok(Self::RotateLeftWithCounterRotation(m)),
            Err(e) => Err(e),
        }
    }

    /// Builds a `RotateRightWithCounterRotation` command, rejecting a raw
    /// multiplier of 0 or above 100.
    pub fn rotate_right_with_counter(counter_rotation_multiplier: u8) -> (r: Result<
        Self,
        OutOfRange,
    >)
        ensures
            r is Ok <==> 1 <= counter_rotation_multiplier <= 100,
            r matches Ok(c) ==> c matches WheelCommand::RotateRightWithCounterRotation(m) && m@
                == counter_rotation_multiplier as int,
    {
        match CounterRotationMultiplier::new(counter_rotation_multiplier) {
            Ok(m) => Ok(Self::RotateRightWithCounterRotation(m)),
            Err(e) => Err(e),
        }
    }
}

} // verus!
