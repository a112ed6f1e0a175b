//! The executable elevator car.

use crate::model::{serviceable, ElevatorError, ElevatorModel, State, MAX_FLOOR, MIN_FLOOR};
use vstd::prelude::*;

verus! {

/// The destinations of an executable queue as mathematical integers.
pub open spec fn floors(queue: Seq<i32>) -> Seq<int> {
    queue.map_values(|f: i32| f as int)
}

/// A single elevator car: its floor, what it is doing, and the floors it has
/// been called to, oldest call first.
#[derive(Debug, PartialEq, Eq)]
pub struct Elevator {
    floor: i32,
    state: State,
    queue: Vec<i32>,
}

/// A snapshot of an elevator, independent of the car it was taken from.
pub struct ElevatorState {
    pub floor: i32,
    pub state: State,
    pub queue: Vec<i32>,
}

impl View for ElevatorState {
    type V = ElevatorModel;

    open spec fn view(&self) -> ElevatorModel {
        ElevatorModel { floor: self.floor as int, state: self.state, queue: floors(self.queue@) }
    }
}

impl View for Elevator {
    type V = ElevatorModel;

    closed spec fn view(&self) -> ElevatorModel {
        ElevatorModel { floor: self.floor as int, state: self.state, queue: floors(self.queue@) }
    }
}

/// Whether `f` is among the destinations of `queue`.
fn is_queued(queue: &Vec<i32>, f: i32) -> (found: bool)
    ensures
        found == floors(queue@).contains(f as int),
{
    let mut i: usize = 0;
    while i < queue.len()
        invariant
            i <= queue.len(),
            forall|j: int| 0 <= j < i ==> queue@[j] != f,
        decreases queue.len() - i,
    {
        if queue[i] == f {
            assert(floors(queue@)[i as int] == f as int);
            return true;
        }
        i += 1;
    }
    false
}

impl Elevator {
    /// The invariant that every operation keeps.
    pub open spec fn wf(&self) -> bool {
        self@.wf()
    }

    /// Puts a car into service at `starting_floor`: idle, with nothing queued.
    /// A floor outside the serviceable range is refused.
    pub fn new(starting_floor: i32) -> (res: Result<Elevator, ElevatorError>)
        ensures
            match res {
                Ok(car) => {
                    &&& serviceable(starting_floor as int)
                    &&& car@ == ElevatorModel::start(starting_floor as int)
                    &&& car.wf()
                    &&& car@.coherent()
                },
                Err(e) => {
                    &&& !serviceable(starting_floor as int)
                    &&& e == ElevatorError::InvalidFloor(starting_floor)
                },
            },
    {
        if starting_floor < MIN_FLOOR || starting_floor > MAX_FLOOR {
            return Err(ElevatorError::InvalidFloor(starting_floor));
        }
        let car = Elevator { floor: starting_floor, state: State::Idle, queue: Vec::new() };
        assert(car@.queue =~= Seq::empty());
        Ok(car)
    }

    /// Requests service to `called_floor`.
    ///
    /// A floor outside the serviceable range is refused and nothing changes.
    /// A call to the floor the car stands on, or to a floor already queued,
    /// succeeds and changes nothing. Any other call is appended to the queue,
    /// and an idle car commits to the direction of the called floor.
    pub fn call(&mut self, called_floor: i32) -> (res: Result<(), ElevatorError>)
        requires
            old(self).wf(),
        ensures
            final(self).wf(),
            final(self)@ == old(self)@.after_call(called_floor as int),
            serviceable(called_floor as int) ==> res is Ok,
            !serviceable(called_floor as int) ==> res == Err::<(), ElevatorError>(
                ElevatorError::InvalidFloor(called_floor),
            ) && final(self)@ == old(self)@,
            called_floor == old(self)@.floor ==> final(self)@ == old(self)@,
            old(self)@.queue.contains(called_floor as int) ==> final(self)@ == old(self)@,
            old(self)@.coherent() ==> final(self)@.coherent(),
    {
        if called_floor < MIN_FLOOR || called_floor > MAX_FLOOR {
            return Err(ElevatorError::InvalidFloor(called_floor));
        }
        if self.floor == called_floor {
            return Ok(());
        }
        if is_queued(&self.queue, called_floor) {
            return Ok(());
        }
        self.queue.push(called_floor);
        if self.state == State::Idle {
            if self.floor > called_floor {
                self.state = State::MovingDown;
            } else {
                self.state = State::MovingUp;
            }
        }
        assert(self@.queue =~= old(self)@.queue.push(called_floor as int));
        Ok(())
    }

    /// What the car is doing.
    pub fn state(&self) -> (state: State)
        ensures
            state == self@.state,
    {
        self.state
    }

    /// Advances time by one unit.
    ///
    /// With open doors the step is refused and nothing changes. With an empty
    /// queue it is refused and the car falls idle. Otherwise the car moves at
    /// most one floor toward the head of the queue; if that brings it there,
    /// the doors open and the head leaves the queue.
    pub fn step(&mut self) -> (res: Result<(), ElevatorError>)
        requires
            old(self).wf(),
        ensures
            final(self).wf(),
            final(self)@ == old(self)@.after_step(),
            res == old(self)@.step_result(),
            old(self)@.state == State::DoorsOpen ==> res == Err::<(), ElevatorError>(
                ElevatorError::CannotMoveDoorsOpen,
            ) && final(self)@ == old(self)@,
            old(self)@.arrives() ==> {
                &&& final(self)@.floor == old(self)@.queue[0]
                &&& final(self)@.state == State::DoorsOpen
                &&& final(self)@.queue == old(self)@.queue.remove(0)
            },
            old(self)@.coherent() ==> final(self)@.coherent(),
    {
        if self.state == State::DoorsOpen {
            return Err(ElevatorError::CannotMoveDoorsOpen);
        }
        if self.queue.is_empty() {
            self.state = State::Idle;
            return Err(ElevatorError::EmptyQueue);
        }
        let destination = self.queue[0];
        assert(serviceable(old(self)@.queue[0]));
        assert(old(self)@.queue[0] == destination as int);
        if self.floor < destination {
            self.floor += 1;
            self.state = State::MovingUp;
        } else if self.floor > destination {
            self.floor -= 1;
            self.state = State::MovingDown;
        }
        if self.floor == destination {
            self.state = State::DoorsOpen;
            self.queue.remove(0);
            assert(self@.queue =~= old(self)@.queue.remove(0));
        }
        Ok(())
    }

    /// The floor the car stands on.
    pub fn floor(&self) -> (floor: i32)
        ensures
            floor == self@.floor,
    {
        self.floor
    }

    /// Gives up the car for its queue of destinations, oldest call first.
    pub fn queue(self) -> (queue: Vec<i32>)
        ensures
            floors(queue@) == self@.queue,
    {
        self.queue
    }

    /// Opens the doors of an idle car. The request is refused when the doors
    /// are open already and while the car is moving; nothing changes then.
    pub fn open_doors(&mut self) -> (res: Result<(), ElevatorError>)
        requires
            old(self).wf(),
        ensures
            final(self).wf(),
            final(self)@ == old(self)@.after_open_doors(),
            res == old(self)@.open_doors_result(),
            old(self)@.coherent() ==> final(self)@.coherent(),
    {
        if self.state == State::DoorsOpen {
            return Err(ElevatorError::DoorsAlreadyOpen);
        }
        if self.state != State::Idle {
            return Err(ElevatorError::CannotOpenWhileMoving);
        }
        self.state = State::DoorsOpen;
        Ok(())
    }

    /// Closes the doors and sets the car on its next leg: idle when nothing is
    /// queued, else moving toward the head of the queue. The request is
    /// refused, and nothing changes, unless the doors are open.
    pub fn close_doors(&mut self) -> (res: Result<(), ElevatorError>)
        requires
            old(self).wf(),
        ensures
            final(self).wf(),
            final(self)@ == old(self)@.after_close_doors(),
            res == old(self)@.close_doors_result(),
            old(self)@.coherent() ==> final(self)@.coherent(),
    {
        if self.state != State::DoorsOpen {
            return Err(ElevatorError::DoorsAlreadyClosed);
        }
        if self.queue.is_empty() {
            self.state = State::Idle;
            return Ok(());
        }
        let destination = self.queue[0];
        assert(old(self)@.queue[0] == destination as int);
        if self.floor < destination {
            self.state = State::MovingUp;
        }
        if self.floor > destination {
            self.state = State::MovingDown;
        }
        Ok(())
    }

    /// A snapshot of the car with a queue of its own.
    pub fn status(&self) -> (snapshot: ElevatorState)
        ensures
            snapshot@ == self@,
    {
        let queue = self.queue.clone();
        assert(queue@ =~= self.queue@);
        ElevatorState { floor: self.floor, state: self.state, queue }
    }
}

} // verus!
