use control::CounterRotationMultiplier;
use control::WheelCallback;
use control::WheelCommand;
use control::WheelSpeed;
use control::WheelState;
use control::Wheels;

#[test]
fn lib_default_wheel() {
    let wheels: Wheels<fn(u8, u8)> = Wheels::new();
    assert_eq!(wheels.state(), WheelState::Stopped);
    assert_eq!(wheels.counter_rotation_multiplier(), None);
    assert_eq!(wheels.speed(), WheelSpeed::new(50).unwrap());
}

#[test]
fn lib_wheel_processing_commands() {
    let mut wheels: Wheels<fn(u8, u8)> = Wheels::new();
    // MoveForward,
    wheels.apply_command(WheelCommand::move_forward());
    assert_eq!(wheels.state(), WheelState::MovingForward);
    // MoveBackward,
    wheels.apply_command(WheelCommand::move_backward());
    assert_eq!(wheels.state(), WheelState::MovingBackward);
    // RotateRight,
    wheels.apply_command(WheelCommand::rotate_right());
    assert_eq!(wheels.state(), WheelState::TurningToTheRight);
    assert_eq!(wheels.counter_rotation_multiplier(), None);
    // RotateLeft,
    wheels.apply_command(WheelCommand::rotate_left());
    assert_eq!(wheels.state(), WheelState::TurningToTheLeft);
    assert_eq!(wheels.counter_rotation_multiplier(), None);
    // Stop,
    wheels.apply_command(WheelCommand::stop());
    assert_eq!(wheels.state(), WheelState::Stopped);
    // RotateRightWithCounterRotation(CounterRotationMultiplier),
    wheels.apply_command(WheelCommand::rotate_right_with_counter(2).unwrap());
    assert_eq!(wheels.state(), WheelState::TurningToTheRight);
    assert_eq!(
        wheels.counter_rotation_multiplier(),
        Some(CounterRotationMultiplier::new(2).unwrap())
    );
    // RotateLeftWithCounterRotation(CounterRotationMultiplier),
    wheels.apply_command(WheelCommand::rotate_left_with_counter(1).unwrap());
    assert_eq!(wheels.state(), WheelState::TurningToTheLeft);
    assert_eq!(
        wheels.counter_rotation_multiplier(),
        Some(CounterRotationMultiplier::new(1).unwrap())
    );
    // ChangeSpeed(WheelSpeed),
    wheels.apply_command(WheelCommand::change_speed(23).unwrap());
    assert_eq!(wheels.speed(), WheelSpeed::new(23).unwrap());
}

#[test]
fn lib_no_arg_callbacks_are_given_the_wheel_speed_and_zero() {
    let wheel_speed = 1;

    let test_for_zero_callback =
        || WheelCallback::new(move |a, b| assert_eq!((wheel_speed, 0), (a, b)));

    let mut wheels = Wheels::new();
    wheels.apply_command(WheelCommand::change_speed(wheel_speed).unwrap());
    wheels.set_move_forward_callback(test_for_zero_callback());
    wheels.set_move_backward_callback(test_for_zero_callback());
    wheels.set_stopped_callback(test_for_zero_callback());

    // These call the callbacks.
    wheels.apply_command(WheelCommand::move_forward());
    wheels.apply_command(WheelCommand::move_backward());
    wheels.apply_command(WheelCommand::stop());
}

#[test]
fn lib_rotation_callbacks_are_given_speed_and_counter_rotation_speed() {
    let wheel_speed: u8 = 1;

    let expect_secondary =
        |expected: u8| WheelCallback::new(move |a, b| assert_eq!((wheel_speed, expected), (a, b)));

    let mut wheels = Wheels::new();
    wheels.apply_command(WheelCommand::change_speed(wheel_speed).unwrap());
    wheels.set_turn_right_callback(expect_secondary(wheel_speed));
    wheels.set_turn_left_callback(expect_secondary(wheel_speed));

    // These call the callbacks
    wheels.apply_command(WheelCommand::rotate_right());
    wheels.apply_command(WheelCommand::rotate_left());

    wheels.set_turn_right_callback(expect_secondary(wheel_speed * 2));
    wheels.set_turn_left_callback(expect_secondary(wheel_speed * 2));

    // These call the callbacks
    wheels.apply_command(WheelCommand::rotate_right_with_counter(2).unwrap());
    wheels.apply_command(WheelCommand::rotate_left_with_counter(2).unwrap());
}

#[test]
fn wheels_default_wheel() {
    let wheels: control::wheels::Wheels<fn(u8, u8)> = control::wheels::Wheels::new();
    assert_eq!(wheels.state(), control::wheels::WheelState::Stopped);
    assert_eq!(wheels.counter_rotation_multiplier(), None);
    assert_eq!(
        wheels.speed(),
        control::wheels::WheelSpeed::new(50).unwrap()
    );
}

#[test]
fn wheels_wheel_processing_commands() {
    let mut wheels: control::wheels::Wheels<fn(u8, u8)> = control::wheels::Wheels::new();
    // MoveForward,
    wheels.apply_command(control::wheels::WheelCommand::move_forward());
    assert_eq!(wheels.state(), control::wheels::WheelState::MovingForward);
    // MoveBackward,
    wheels.apply_command(control::wheels::WheelCommand::move_backward());
    assert_eq!(wheels.state(), control::wheels::WheelState::MovingBackward);
    // RotateRight,
    wheels.apply_command(control::wheels::WheelCommand::rotate_right());
    assert_eq!(wheels.state(), control::wheels::WheelState::TurningToTheRight);
    assert_eq!(wheels.counter_rotation_multiplier(), None);
    // RotateLeft,
    wheels.apply_command(control::wheels::WheelCommand::rotate_left());
    assert_eq!(wheels.state(), control::wheels::WheelState::TurningToTheLeft);
    assert_eq!(wheels.counter_rotation_multiplier(), None);
    // Stop,
    wheels.apply_command(control::wheels::WheelCommand::stop());
    assert_eq!(wheels.state(), control::wheels::WheelState::Stopped);
    // RotateRightWithCounterRotation(CounterRotationMultiplier),
    wheels.apply_command(control::wheels::WheelCommand::rotate_right_with_counter(2).unwrap());
    assert_eq!(wheels.state(), control::wheels::WheelState::TurningToTheRight);
    assert_eq!(
        wheels.counter_rotation_multiplier(),
        Some(control::wheels::CounterRotationMultiplier::new(2).unwrap())
    );
    // RotateLeftWithCounterRotation(CounterRotationMultiplier),
    wheels.apply_command(control::wheels::WheelCommand::rotate_left_with_counter(1).unwrap());
    assert_eq!(wheels.state(), control::wheels::WheelState::TurningToTheLeft);
    assert_eq!(
        wheels.counter_rotation_multiplier(),
        Some(control::wheels::CounterRotationMultiplier::new(1).unwrap())
    );
    // ChangeSpeed(WheelSpeed),
    wheels.apply_command(control::wheels::WheelCommand::change_speed(23).unwrap());
    assert_eq!(wheels.speed(), control::wheels::WheelSpeed::new(23).unwrap());
}

#[test]
fn wheels_no_arg_callbacks_are_given_the_wheel_speed_and_zero() {
    let wheel_speed = 1;

    let test_for_zero_callback = || {
        control::wheels::WheelCallback::new(move |a, b| assert_eq!((wheel_speed, 0), (a, b)))
    };

    let mut wheels = control::wheels::Wheels::new();
    wheels.apply_command(control::wheels::WheelCommand::change_speed(wheel_speed).unwrap());
    wheels.set_move_forward_callback(test_for_zero_callback());
    wheels.set_move_backward_callback(test_for_zero_callback());
    wheels.set_stopped_callback(test_for_zero_callback());

    // These call the callbacks.
    wheels.apply_command(control::wheels::WheelCommand::move_forward());
    wheels.apply_command(control::wheels::WheelCommand::move_backward());
    wheels.apply_command(control::wheels::WheelCommand::stop());
}

#[test]
fn wheels_rotation_callbacks_are_given_speed_and_counter_rotation_speed() {
    let wheel_speed: u8 = 1;

    let expect_secondary = |expected: u8| {
        control::wheels::WheelCallback::new(
            move |a, b| assert_eq!((wheel_speed, expected), (a, b)),
        )
    };

    let mut wheels = control::wheels::Wheels::new();
    wheels.apply_command(control::wheels::WheelCommand::change_speed(wheel_speed).unwrap());
    wheels.set_turn_right_callback(expect_secondary(wheel_speed));
    wheels.set_turn_left_callback(expect_secondary(wheel_speed));

    // These call the callbacks
    wheels.apply_command(control::wheels::WheelCommand::rotate_right());
    wheels.apply_command(control::wheels::WheelCommand::rotate_left());

    wheels.set_turn_right_callback(expect_secondary(wheel_speed * 2));
    wheels.set_turn_left_callback(expect_secondary(wheel_speed * 2));

    // These call the callbacks
    wheels.apply_command(control::wheels::WheelCommand::rotate_right_with_counter(2).unwrap());
    wheels.apply_command(control::wheels::WheelCommand::rotate_left_with_counter(2).unwrap());
}
