//! The wheel controller and its parts.

pub mod callbacks;
pub mod commands;
pub mod speed;

pub use self::callbacks::WheelCallback;
pub use self::callbacks::WheelCallbacks;
pub use self::commands::WheelCommand;
pub use self::speed::CounterRotationMultiplier;
pub use self::speed::OutOfRange;
pub use self::speed::WheelSpeed;

use self::speed::effective_speed;

use vstd::prelude::*;

verus! {

/// The high-level motion mode the controller reports after the most recent
/// command.
#[derive(Debug, PartialEq, Eq, Structural, Clone, Copy)]
pub enum WheelState {
    MovingForward,
    MovingBackward,
    TurningToTheRight,
    TurningToTheLeft,
    Stopped,
}

/// The motion state a command moves the controller into. Every command is
/// valid from every state; only `ChangeSpeed` leaves the state unchanged.
pub open spec fn next_state(current: WheelState, cmd: WheelCommand) -> WheelState {
    match cmd {
        WheelCommand::MoveForward => WheelState::MovingForward,
        WheelCommand::MoveBackward => WheelState::MovingBackward,
        WheelCommand::RotateRight => WheelState::TurningToTheRight,
        WheelCommand::RotateLeft => WheelState::TurningToTheLeft,
        WheelCommand::Stop => WheelState::Stopped,
        WheelCommand::RotateRightWithCounterRotation(_) => WheelState::TurningToTheRight,
        WheelCommand::RotateLeftWithCounterRotation(_) => WheelState::TurningToTheLeft,
        WheelCommand::ChangeSpeed(_) => current,
    }
}

/// The base speed after a command: only `ChangeSpeed` replaces it.
pub open spec fn next_speed(current: WheelSpeed, cmd: WheelCommand) -> WheelSpeed {
    match cmd {
        WheelCommand::ChangeSpeed(s) => s,
        _ => current,
    }
}

/// The active counter-rotation multiplier after a command. The multiplier is
/// sticky: the two `WithCounterRotation` commands store a new one, and no
/// other command ever clears it.
pub open spec fn next_multiplier(
    current: Option<CounterRotationMultiplier>,
    cmd: WheelCommand,
) -> Option<CounterRotationMultiplier> {
    match cmd {
        WheelCommand::RotateRightWithCounterRotation(m) => Some(m),
        WheelCommand::RotateLeftWithCounterRotation(m) => Some(m),
        _ => current,
    }
}

/// The secondary speed handed to a rotation callback: the stored multiplier
/// applied to the base speed, or the base speed itself when no multiplier is
/// stored.
pub open spec fn counter_speed_spec(
    counter: Option<CounterRotationMultiplier>,
    base_speed: WheelSpeed,
) -> int {
    match counter {
        Some(m) => effective_speed(m@, base_speed@),
        None => base_speed@,
    }
}

/// What the controller guarantees of a dispatch target: when the slot holds a
/// handler, that handler was applied to exactly the pair of the base speed
/// and the given secondary speed.
pub open spec fn dispatched_to<F: Fn(u8, u8)>(
    slot: Option<WheelCallback<F>>,
    base_speed: WheelSpeed,
    secondary: int,
) -> bool {
    slot matches Some(cb) ==> call_ensures(cb.handler(), (base_speed@ as u8, secondary as u8), ())
}

/// The owner of the motion state machine: current state, current base speed,
/// the optional active counter-rotation multiplier, and the callback slots.
/// [`Wheels::apply_command`] is its sole state-mutating entry point.
pub struct Wheels<F: Fn(u8, u8)> {
    state: WheelState,
    counter_rotation_multiplier: Option<CounterRotationMultiplier>,
    speed: WheelSpeed,
    callbacks: WheelCallbacks<F>,
}

impl<F: Fn(u8, u8)> Wheels<F> {
    /// The current motion state.
    pub closed spec fn state_spec(&self) -> WheelState {
        self.state
    }

    /// The currently configured base speed.
    pub closed spec fn speed_spec(&self) -> WheelSpeed {
        self.speed
    }

    /// The active counter-rotation multiplier, if one was ever stored.
    pub closed spec fn multiplier_spec(&self) -> Option<CounterRotationMultiplier> {
        self.counter_rotation_multiplier
    }

    /// The five callback slots.
    pub closed spec fn callbacks_spec(&self) -> WheelCallbacks<F> {
        self.callbacks
    }

    /// Whether the slot dispatched on entering `state` holds a handler.
    pub open spec fn has_callback_spec(&self, state: WheelState) -> bool {
        match state {
            WheelState::MovingForward => self.callbacks_spec().moving_forward is Some,
            WheelState::MovingBackward => self.callbacks_spec().moving_backward is Some,
            WheelState::TurningToTheRight => self.callbacks_spec().turning_to_the_right is Some,
            WheelState::TurningToTheLeft => self.callbacks_spec().turning_to_the_left is Some,
            WheelState::Stopped => self.callbacks_spec().stopped is Some,
        }
    }

    /// A fresh controller: stopped, base speed 50, no active multiplier, all
    /// callback slots empty.
    pub fn new() -> (w: Self)
        ensures
            w.state_spec() == WheelState::Stopped,
            w.multiplier_spec() is None,
            w.speed_spec()@ == 50,
            !w.has_callback_spec(WheelState::MovingForward),
            !w.has_callback_spec(WheelState::MovingBackward),
            !w.has_callback_spec(WheelState::TurningToTheRight),
            !w.has_callback_spec(WheelState::TurningToTheLeft),
            !w.has_callback_spec(WheelState::Stopped),
    {
        let speed = match WheelSpeed::new(50) {
            Ok(speed) => speed,
            Err(_) => vstd::pervasive::unreached(),
        };
        Self {
            state: WheelState::Stopped,
            counter_rotation_multiplier: None,
            speed,
            callbacks: WheelCallbacks::default(),
        }
    }

    /// Applies one command: moves to the next motion state, updates the base
    /// speed and the stored multiplier as the command dictates, and invokes
    /// the callback slot matching the new state with the base speed and the
    /// computed secondary speed. `ChangeSpeed` dispatches nothing. The
    /// transition is total: no command can fail here.
    pub fn apply_command(&mut self, command: WheelCommand)
        ensures
            final(self).state_spec() == next_state(old(self).state_spec(), command),
            final(self).speed_spec() == next_speed(old(self).speed_spec(), command),
            final(self).multiplier_spec() == next_multiplier(old(self).multiplier_spec(), command),
            final(self).callbacks_spec() == old(self).callbacks_spec(),
            command == WheelCommand::MoveForward ==> dispatched_to(
                old(self).callbacks_spec().moving_forward,
                old(self).speed_spec(),
                0,
            ),
            command == WheelCommand::MoveBackward ==> dispatched_to(
                old(self).callbacks_spec().moving_backward,
                old(self).speed_spec(),
                0,
            ),
            command == WheelCommand::Stop ==> dispatched_to(
                old(self).callbacks_spec().stopped,
                old(self).speed_spec(),
                0,
            ),
            command == WheelCommand::RotateRight ==> dispatched_to(
                old(self).callbacks_spec().turning_to_the_right,
                old(self).speed_spec(),
                counter_speed_spec(old(self).multiplier_spec(), old(self).speed_spec()),
            ),
            command == WheelCommand::RotateLeft ==> dispatched_to(
                old(self).callbacks_spec().turning_to_the_left,
                old(self).speed_spec(),
                counter_speed_spec(old(self).multiplier_spec(), old(self).speed_spec()),
            ),
            command matches WheelCommand::RotateRightWithCounterRotation(m) ==> dispatched_to(
                old(self).callbacks_spec().turning_to_the_right,
                old(self).speed_spec(),
                effective_speed(m@, old(self).speed_spec()@),
            ),
            command matches WheelCommand::RotateLeftWithCounterRotation(m) ==> dispatched_to(
                old(self).callbacks_spec().turning_to_the_left,
                old(self).speed_spec(),
                effective_speed(m@, old(self).speed_spec()@),
            ),
    {
        match command {
            WheelCommand::MoveForward => {
                self.state = WheelState::MovingForward;
                WheelCallbacks::call(&self.callbacks.moving_forward, self.speed.value(), 0);
            },
            WheelCommand::MoveBackward => {
                self.state = WheelState::MovingBackward;
                WheelCallbacks::call(&self.callbacks.moving_backward, self.speed.value(), 0);
            },
            WheelCommand::RotateRight => {
                self.state = WheelState::TurningToTheRight;
                WheelCallbacks::call(
                    &self.callbacks.turning_to_the_right,
                    self.speed.value(),
                    counter_speed(&self.counter_rotation_multiplier, &self.speed),
                );
            },
            WheelCommand::RotateLeft => {
                self.state = WheelState::TurningToTheLeft;
                WheelCallbacks::call(
                    &self.callbacks.turning_to_the_left,
                    self.speed.value(),
                    counter_speed(&self.counter_rotation_multiplier, &self.speed),
                );
            },
            WheelCommand::Stop => {
                self.state = WheelState::Stopped;
                WheelCallbacks::call(&self.callbacks.stopped, self.speed.value(), 0);
            },
            WheelCommand::RotateRightWithCounterRotation(x) => {
                self.state = WheelState::TurningToTheRight;
                self.counter_rotation_multiplier = Some(x);
                WheelCallbacks::call(
                    &self.callbacks.turning_to_the_right,
                    self.speed.value(),
                    counter_speed(&self.counter_rotation_multiplier, &self.speed),
                );
            },
            WheelCommand::RotateLeftWithCounterRotation(x) => {
                self.state = WheelState::TurningToTheLeft;
                self.counter_rotation_multiplier = Some(x);
                WheelCallbacks::call(
                    &self.callbacks.turning_to_the_left,
                    self.speed.value(),
                    counter_speed(&self.counter_rotation_multiplier, &self.speed),
                );
            },
            WheelCommand::ChangeSpeed(x) => {
                self.speed = x;
            },
        }
    }

    /// Binds the handler dispatched on entering `MovingForward`, discarding
    /// any handler the slot held before.
    pub fn set_move_forward_callback(&mut self, callback: WheelCallback<F>)
        ensures
            final(self).callbacks_spec() == (WheelCallbacks {
                moving_forward: Some(callback),
                ..old(self).callbacks_spec()
            }),
            final(self).state_spec() == old(self).state_spec(),
            final(self).speed_spec() == old(self).speed_spec(),
            final(self).multiplier_spec() == old(self).multiplier_spec(),
    {
        self.callbacks.moving_forward = Some(callback);
    }

    /// Binds the handler dispatched on entering `MovingBackward`, discarding
    /// any handler the slot held before.
    pub fn set_move_backward_callback(&mut self, callback: WheelCallback<F>)
        ensures
            final(self).callbacks_spec() == (WheelCallbacks {
                moving_backward: Some(callback),
                ..old(self).callbacks_spec()
            }),
            final(self).state_spec() == old(self).state_spec(),
            final(self).speed_spec() == old(self).speed_spec(),
            final(self).multiplier_spec() == old(self).multiplier_spec(),
    {
        self.callbacks.moving_backward = Some(callback);
    }

    /// Binds the handler dispatched on entering `TurningToTheRight`,
    /// discarding any handler the slot held before.
    pub fn set_turn_right_callback(&mut self, callback: WheelCallback<F>)
        ensures
            final(self).callbacks_spec() == (WheelCallbacks {
                turning_to_the_right: Some(callback),
                ..old(self).callbacks_spec()
            }),
            final(self).state_spec() == old(self).state_spec(),
            final(self).speed_spec() == old(self).speed_spec(),
            final(self).multiplier_spec() == old(self).multiplier_spec(),
    {
        self.callbacks.turning_to_the_right = Some(callback);
    }

    /// Binds the handler dispatched on entering `TurningToTheLeft`,
    /// discarding any handler the slot held before.
    pub fn set_turn_left_callback(&mut self, callback: WheelCallback<F>)
        ensures
            final(self).callbacks_spec() == (WheelCallbacks {
                turning_to_the_left: Some(callback),
                ..old(self).callbacks_spec()
            }),
            final(self).state_spec() == old(self).state_spec(),
            final(self).speed_spec() == old(self).speed_spec(),
            final(self).multiplier_spec() == old(self).multiplier_spec(),
    {
        self.callbacks.turning_to_the_left = Some(callback);
    }

    /// Binds the handler dispatched on entering `Stopped`, discarding any
    /// handler the slot held before.
    pub fn set_stopped_callback(&mut self, callback: WheelCallback<F>)
        ensures
            final(self).callbacks_spec() == (WheelCallbacks {
                stopped: Some(callback),
                ..old(self).callbacks_spec()
            }),
            final(self).state_spec() == old(self).state_spec(),
            final(self).speed_spec() == old(self).speed_spec(),
            final(self).multiplier_spec() == old(self).multiplier_spec(),
    {
        self.callbacks.stopped = Some(callback);
    }

    /// The current motion state.
    pub fn state(&self) -> (s: WheelState)
        ensures
            s == self.state_spec(),
    {
        self.state
    }

    /// The currently configured base speed.
    pub fn speed(&self) -> (s: WheelSpeed)
        ensures
            s == self.speed_spec(),
    {
        self.speed
    }

    /// The active counter-rotation multiplier, if one was ever stored.
    pub fn counter_rotation_multiplier(&self) -> (m: Option<CounterRotationMultiplier>)
        ensures
            m == self.multiplier_spec(),
    {
        self.counter_rotation_multiplier
    }

    /// Whether the slot dispatched on entering `state` holds a handler.
    pub fn has_callback(&self, state: WheelState) -> (b: bool)
        ensures
            b == self.has_callback_spec(state),
    {
        match state {
            WheelState::MovingForward => self.callbacks.moving_forward.is_some(),
            WheelState::MovingBackward => self.callbacks.moving_backward.is_some(),
            WheelState::TurningToTheRight => self.callbacks.turning_to_the_right.is_some(),
            WheelState::TurningToTheLeft => self.callbacks.turning_to_the_left.is_some(),
            WheelState::Stopped => self.callbacks.stopped.is_some(),
        }
    }
}

/// The active counter-rotation multiplier is sticky: a `WithCounterRotation`
/// command stores its multiplier, and every other command leaves the stored
/// multiplier untouched — `Stop`, plain rotations and forward/backward motion
/// included.
pub proof fn lemma_counter_rotation_multiplier_is_sticky(
    current: Option<CounterRotationMultiplier>,
    cmd: WheelCommand,
)
    ensures
        cmd matches WheelCommand::RotateRightWithCounterRotation(m) ==> next_multiplier(
            current,
            cmd,
        ) == Some(m),
        cmd matches WheelCommand::RotateLeftWithCounterRotation(m) ==> next_multiplier(
            current,
            cmd,
        ) == Some(m),
        !(cmd is RotateRightWithCounterRotation) && !(cmd is RotateLeftWithCounterRotation)
            ==> next_multiplier(current, cmd) == current,
{
}

/// Storing a multiplier shapes every later turn: after a
/// `WithCounterRotation` command, a plain rotation still finds that
/// multiplier stored, and the secondary speed handed to the rotation callback
/// is the multiplier applied to the base speed — not the bare base speed.
pub proof fn lemma_sticky_multiplier_drives_later_turns(
    start: Option<CounterRotationMultiplier>,
    m: CounterRotationMultiplier,
    with_counter: WheelCommand,
    later: WheelCommand,
    base_speed: WheelSpeed,
)
    requires
        with_counter == WheelCommand::RotateRightWithCounterRotation(m) || with_counter
            == WheelCommand::RotateLeftWithCounterRotation(m),
        later is RotateRight || later is RotateLeft,
    ensures
        next_multiplier(start, with_counter) == Some(m),
        next_multiplier(next_multiplier(start, with_counter), later) == Some(m),
        counter_speed_spec(next_multiplier(start, with_counter), base_speed) == effective_speed(
            m@,
            base_speed@,
        ),
{
}

/// The secondary speed for a rotation: the stored multiplier applied to the
/// base speed, or the base speed itself when no multiplier is stored.
fn counter_speed(counter: &Option<CounterRotationMultiplier>, base_speed: &WheelSpeed) -> (s: u8)
    ensures
        s as int == counter_speed_spec(*counter, *base_speed),
{
    if let Some(counter_rotation) = counter {
        counter_rotation.get_wheel_speed(base_speed).value()
    } else {
        base_speed.value()
    }
}

} // verus!
