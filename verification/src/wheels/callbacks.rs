//! Replaceable side-effecting handlers, one per motion event.

use vstd::prelude::*;

verus! {

/// A bound handler: a closure of shape `(primary_speed, secondary_speed)`
/// that the controller invokes synchronously when the matching motion state
/// is entered. The controller exclusively owns each bound handler.
pub struct WheelCallback<F: Fn(u8, u8)> {
    callback: F,
}

impl<F: Fn(u8, u8)> WheelCallback<F> {
    #[verifier::type_invariant]
    spec fn callable_on_any_speeds(self) -> bool {
        forall|a: u8, b: u8| call_requires(self.callback, (a, b))
    }

    /// The wrapped handler.
    pub closed spec fn handler(&self) -> F {
        self.callback
    }

    /// Wraps a handler, owning exactly the given closure. The handler must
    /// accept every pair of speed values, since the controller may invoke it
    /// with any speeds it computes.
    pub fn new(callback: F) -> (r: Self)
        requires
            forall|a: u8, b: u8| call_requires(callback, (a, b)),
        ensures
            r.handler() == callback,
    {
        Self { callback }
    }

    fn call(&self, a: u8, b: u8)
        ensures
            call_ensures(self.handler(), (a, b), ()),
    {
        proof {
            use_type_invariant(self);
        }
        (self.callback)(a, b);
    }
}

/// The five callback slots of a controller, one per motion state. Each slot
/// holds either nothing or a bound handler; an empty slot makes dispatch a
/// no-op.
pub struct WheelCallbacks<F: Fn(u8, u8)> {
    pub moving_forward: Option<WheelCallback<F>>,
    pub moving_backward: Option<WheelCallback<F>>,
    pub turning_to_the_right: Option<WheelCallback<F>>,
    pub turning_to_the_left: Option<WheelCallback<F>>,
    pub stopped: Option<WheelCallback<F>>,
}

impl<F: Fn(u8, u8)> Default for WheelCallbacks<F> {
    /// All five slots start empty.
    fn default() -> (c: Self)
        ensures
            c.moving_forward is None,
            c.moving_backward is None,
            c.turning_to_the_right is None,
            c.turning_to_the_left is None,
            c.stopped is None,
    {
        WheelCallbacks {
            moving_forward: None,
            moving_backward: None,
            turning_to_the_right: None,
            turning_to_the_left: None,
            stopped: None,
        }
    }
}

impl<F: Fn(u8, u8)> WheelCallbacks<F> {
    /// Invokes the handler in the given slot with the two speed values, or
    /// does nothing when the slot is empty.
    pub fn call(callback: &Option<WheelCallback<F>>, a: u8, b: u8)
        ensures
            callback matches Some(cb) ==> call_ensures(cb.handler(), (a, b), ()),
    {
        match callback {
            Some(callback) => callback.call(a, b),
            None => (),
        }
    }
}

} // verus!
