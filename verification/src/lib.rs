//! Command-processing core for a differential-drive wheel base.
//!
//! The crate validates motion commands, tracks a small motion state machine,
//! computes a secondary ("counter-rotation") drive speed for turns, and
//! dispatches the side-effecting handlers that surrounding firmware binds to
//! actual motor outputs. It performs no I/O of its own: an external scheduling
//! loop constructs [`WheelCommand`] values and drives a [`Wheels`] controller
//! through [`Wheels::apply_command`].

pub mod wheels;

pub use wheels::CounterRotationMultiplier;
pub use wheels::OutOfRange;
pub use wheels::WheelCallback;
pub use wheels::WheelCallbacks;
pub use wheels::WheelCommand;
pub use wheels::WheelSpeed;
pub use wheels::WheelState;
pub use wheels::Wheels;

