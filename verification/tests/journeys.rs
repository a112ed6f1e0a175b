use elevator::{Elevator, ElevatorError, State};

fn car_at(floor: i32) -> Elevator {
    Elevator::new(floor).expect("serviceable floor")
}

#[test]
fn call_from_ground_floor_then_three_steps_up() {
    let mut car = car_at(0);
    assert_eq!(car.call(3), Ok(()));
    assert_eq!(car.state(), State::MovingUp);
    assert_eq!(car.status().queue, vec![3]);

    assert_eq!(car.step(), Ok(()));
    assert_eq!(car.floor(), 1);
    assert_eq!(car.state(), State::MovingUp);
    assert_eq!(car.status().queue, vec![3]);

    assert_eq!(car.step(), Ok(()));
    assert_eq!(car.floor(), 2);
    assert_eq!(car.state(), State::MovingUp);

    assert_eq!(car.step(), Ok(()));
    assert_eq!(car.floor(), 3);
    assert_eq!(car.state(), State::DoorsOpen);
    assert!(car.queue().is_empty());
}

#[test]
fn call_from_top_floor_then_three_steps_down() {
    let mut car = car_at(5);
    assert_eq!(car.call(2), Ok(()));
    assert_eq!(car.state(), State::MovingDown);

    assert_eq!(car.step(), Ok(()));
    assert_eq!(car.floor(), 4);
    assert_eq!(car.state(), State::MovingDown);

    assert_eq!(car.step(), Ok(()));
    assert_eq!(car.floor(), 3);
    assert_eq!(car.state(), State::MovingDown);

    assert_eq!(car.step(), Ok(()));
    assert_eq!(car.floor(), 2);
    assert_eq!(car.state(), State::DoorsOpen);
    assert!(car.queue().is_empty());
}

#[test]
fn call_to_own_floor_changes_nothing() {
    let mut car = car_at(2);
    assert_eq!(car.call(2), Ok(()));
    assert_eq!(car.state(), State::Idle);
    assert_eq!(car.floor(), 2);
    assert!(car.queue().is_empty());
}

#[test]
fn step_with_empty_queue_is_refused_and_car_is_idle() {
    let mut car = car_at(2);
    assert_eq!(car.step(), Err(ElevatorError::EmptyQueue));
    assert_eq!(car.state(), State::Idle);
    assert_eq!(car.floor(), 2);
    assert!(car.queue().is_empty());
}

#[test]
fn doors_open_once_only() {
    let mut car = car_at(2);
    assert_eq!(car.open_doors(), Ok(()));
    assert_eq!(car.state(), State::DoorsOpen);
    assert_eq!(car.open_doors(), Err(ElevatorError::DoorsAlreadyOpen));
    assert_eq!(car.state(), State::DoorsOpen);
}

#[test]
fn one_floor_away_arrives_in_one_step() {
    let mut car = car_at(4);
    assert_eq!(car.call(5), Ok(()));
    assert_eq!(car.state(), State::MovingUp);
    assert_eq!(car.step(), Ok(()));
    assert_eq!(car.floor(), 5);
    assert_eq!(car.state(), State::DoorsOpen);
    assert!(car.queue().is_empty());
}

#[test]
fn passing_a_queued_floor_does_not_stop_there() {
    let mut car = car_at(0);
    assert_eq!(car.call(3), Ok(()));
    assert_eq!(car.call(1), Ok(()));
    assert_eq!(car.step(), Ok(()));
    assert_eq!(car.floor(), 1);
    assert_eq!(car.state(), State::MovingUp);
    assert_eq!(car.status().queue, vec![3, 1]);
    assert_eq!(car.step(), Ok(()));
    assert_eq!(car.step(), Ok(()));
    assert_eq!(car.floor(), 3);
    assert_eq!(car.state(), State::DoorsOpen);
    assert_eq!(car.status().queue, vec![1]);
    assert_eq!(car.close_doors(), Ok(()));
    assert_eq!(car.state(), State::MovingDown);
    assert_eq!(car.step(), Ok(()));
    assert_eq!(car.floor(), 2);
    assert_eq!(car.state(), State::MovingDown);
    assert_eq!(car.step(), Ok(()));
    assert_eq!(car.floor(), 1);
    assert_eq!(car.state(), State::DoorsOpen);
    assert!(car.queue().is_empty());
}
