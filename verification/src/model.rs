//! The elevator as a mathematical state machine: a floor, a state tag and a
//! first-in first-out sequence of destinations, with one transition function
//! per operation.

use vstd::prelude::*;

verus! {

/// Lowest floor the car serves.
pub const MIN_FLOOR: i32 = 0;

/// Highest floor the car serves.
pub const MAX_FLOOR: i32 = 5;

/// What the car is doing.
#[derive(Debug, PartialEq, Eq, Clone, Copy, Structural)]
pub enum State {
    Idle,
    MovingUp,
    MovingDown,
    DoorsOpen,
}

/// Why an operation was refused.
#[derive(Debug, PartialEq, Eq, Structural)]
pub enum ElevatorError {
    InvalidFloor(i32),
    DoorsAlreadyOpen,
    DoorsAlreadyClosed,
    CannotOpenWhileMoving,
    CannotMoveDoorsOpen,
    EmptyQueue,
}

/// A floor the car can be sent to.
pub open spec fn serviceable(f: int) -> bool {
    MIN_FLOOR <= f <= MAX_FLOOR
}

/// The floor reached from `floor` by at most one move toward `destination`.
pub open spec fn toward(floor: int, destination: int) -> int {
    if floor < destination {
        floor + 1
    } else if floor > destination {
        floor - 1
    } else {
        floor
    }
}

/// The direction in which `destination` lies as seen from `floor`;
/// `MovingUp` unless the destination is strictly below.
pub open spec fn heading(floor: int, destination: int) -> State {
    if destination < floor {
        State::MovingDown
    } else {
        State::MovingUp
    }
}

/// The number of floors between `a` and `b`.
pub open spec fn distance(a: int, b: int) -> nat {
    if a <= b {
        (b - a) as nat
    } else {
        (a - b) as nat
    }
}

/// The number of floors the car has to travel from `floor` to visit every
/// destination of `queue` in order.
pub open spec fn travel(floor: int, queue: Seq<int>) -> nat
    decreases queue.len(),
{
    if queue.len() == 0 {
        0
    } else {
        distance(floor, queue[0]) + travel(queue[0], queue.remove(0))
    }
}

/// The abstract state of an elevator.
pub struct ElevatorModel {
    pub floor: int,
    pub state: State,
    pub queue: Seq<int>,
}

impl ElevatorModel {
    /// The state of a car that was just put into service at `floor`.
    pub open spec fn start(floor: int) -> ElevatorModel {
        ElevatorModel { floor, state: State::Idle, queue: Seq::empty() }
    }

    /// The representation invariant: the car and every destination are on
    /// serviceable floors, and no destination is queued twice.
    pub open spec fn wf(self) -> bool {
        &&& serviceable(self.floor)
        &&& forall|i: int| 0 <= i < self.queue.len() ==> serviceable(#[trigger] self.queue[i])
        &&& self.queue.no_duplicates()
    }

    /// What holds in addition of every state that the operations can reach
    /// from a fresh car: an idle car has nothing queued, a moving car moves
    /// toward the head of its queue, and the head is never the floor the car
    /// stands on.
    pub open spec fn coherent(self) -> bool {
        match self.state {
            State::Idle => self.queue.len() == 0,
            State::MovingUp => self.queue.len() > 0 && self.floor < self.queue[0],
            State::MovingDown => self.queue.len() > 0 && self.floor > self.queue[0],
            State::DoorsOpen => self.queue.len() > 0 ==> self.floor != self.queue[0],
        }
    }

    /// Floors left to travel until the queue is served.
    pub open spec fn remaining(self) -> nat {
        travel(self.floor, self.queue)
    }

    /// Whether a call to `f` adds a destination: `f` is serviceable, is not
    /// where the car stands, and is not already queued.
    pub open spec fn enqueues(self, f: int) -> bool {
        serviceable(f) && f != self.floor && !self.queue.contains(f)
    }

    /// The state after a call to floor `f`.
    pub open spec fn after_call(self, f: int) -> ElevatorModel {
        if self.enqueues(f) {
            ElevatorModel {
                floor: self.floor,
                state: if self.state == State::Idle {
                    heading(self.floor, f)
                } else {
                    self.state
                },
                queue: self.queue.push(f),
            }
        } else {
            self
        }
    }

    /// The outcome of a step.
    pub open spec fn step_result(self) -> Result<(), ElevatorError> {
        if self.state == State::DoorsOpen {
            Err(ElevatorError::CannotMoveDoorsOpen)
        } else if self.queue.len() == 0 {
            Err(ElevatorError::EmptyQueue)
        } else {
            Ok(())
        }
    }

    /// Whether a step brings the car to the head of its queue.
    pub open spec fn arrives(self) -> bool {
        &&& self.state != State::DoorsOpen
        &&& self.queue.len() > 0
        &&& toward(self.floor, self.queue[0]) == self.queue[0]
    }

    /// The state after a step. With open doors nothing changes; with an empty
    /// queue the car falls idle; otherwise it moves at most one floor toward
    /// the head of the queue and, if that brings it there, opens its doors
    /// and drops the head.
    pub open spec fn after_step(self) -> ElevatorModel {
        if self.state == State::DoorsOpen {
            self
        } else if self.queue.len() == 0 {
            ElevatorModel { floor: self.floor, state: State::Idle, queue: self.queue }
        } else if self.arrives() {
            ElevatorModel {
                floor: self.queue[0],
                state: State::DoorsOpen,
                queue: self.queue.remove(0),
            }
        } else {
            ElevatorModel {
                floor: toward(self.floor, self.queue[0]),
                state: heading(self.floor, self.queue[0]),
                queue: self.queue,
            }
        }
    }

    /// The outcome of a request to open the doors.
    pub open spec fn open_doors_result(self) -> Result<(), ElevatorError> {
        match self.state {
            State::DoorsOpen => Err(ElevatorError::DoorsAlreadyOpen),
            State::Idle => Ok(()),
            _ => Err(ElevatorError::CannotOpenWhileMoving),
        }
    }

    /// The state after a request to open the doors: they open only from
    /// `Idle`.
    pub open spec fn after_open_doors(self) -> ElevatorModel {
        if self.state == State::Idle {
            ElevatorModel { floor: self.floor, state: State::DoorsOpen, queue: self.queue }
        } else {
            self
        }
    }

    /// The outcome of a request to close the doors.
    pub open spec fn close_doors_result(self) -> Result<(), ElevatorError> {
        if self.state == State::DoorsOpen {
            Ok(())
        } else {
            Err(ElevatorError::DoorsAlreadyClosed)
        }
    }

    /// The state in which the doors leave the car when they close: idle with
    /// an empty queue, else heading for the head of the queue. A head equal to
    /// the current floor gives no direction, and the state stays `DoorsOpen`.
    pub open spec fn departure(self) -> State {
        if self.queue.len() == 0 {
            State::Idle
        } else if self.floor < self.queue[0] {
            State::MovingUp
        } else if self.floor > self.queue[0] {
            State::MovingDown
        } else {
            State::DoorsOpen
        }
    }

    /// The state after a request to close the doors.
    pub open spec fn after_close_doors(self) -> ElevatorModel {
        if self.state == State::DoorsOpen {
            ElevatorModel { floor: self.floor, state: self.departure(), queue: self.queue }
        } else {
            self
        }
    }
}

} // verus!
