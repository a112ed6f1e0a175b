//! Theorems about the elevator state machine.

use crate::model::{serviceable, ElevatorError, ElevatorModel, State};
use vstd::prelude::*;

verus! {

impl ElevatorModel {
    /// One round of service: a step, then a request to close the doors, which
    /// is refused without effect unless the step opened them.
    pub open spec fn after_round(self) -> ElevatorModel {
        self.after_step().after_close_doors()
    }

    /// The state after `n` rounds of service.
    pub open spec fn after_rounds(self, n: nat) -> ElevatorModel
        decreases n,
    {
        if n == 0 {
            self
        } else {
            self.after_round().after_rounds((n - 1) as nat)
        }
    }
}

/// Every operation takes a well-formed state to a well-formed state, and a
/// coherent one to a coherent one.
pub proof fn operations_keep_invariants(m: ElevatorModel, f: int)
    requires
        m.wf(),
    ensures
        m.after_call(f).wf(),
        m.after_step().wf(),
        m.after_open_doors().wf(),
        m.after_close_doors().wf(),
        m.coherent() ==> m.after_call(f).coherent(),
        m.coherent() ==> m.after_step().coherent(),
        m.coherent() ==> m.after_open_doors().coherent(),
        m.coherent() ==> m.after_close_doors().coherent(),
{
}

/// A call to a floor outside the serviceable range changes nothing.
pub proof fn unserviceable_call_changes_nothing(m: ElevatorModel, f: int)
    requires
        !serviceable(f),
    ensures
        m.after_call(f) == m,
{
}

/// Calling the same floor twice in a row leaves the car as calling it once
/// does.
pub proof fn call_is_idempotent(m: ElevatorModel, f: int)
    ensures
        m.after_call(f).after_call(f) == m.after_call(f),
{
    if m.enqueues(f) {
        let queue = m.queue.push(f);
        assert(queue[queue.len() - 1] == f);
        assert(queue.contains(f));
    }
}

/// A call to the floor the car stands on changes nothing.
pub proof fn call_to_current_floor_changes_nothing(m: ElevatorModel)
    ensures
        m.after_call(m.floor) == m,
{
}

/// A step with open doors is refused and changes nothing, whatever is queued.
pub proof fn open_doors_block_steps(m: ElevatorModel)
    requires
        m.state == State::DoorsOpen,
    ensures
        m.step_result() == Err::<(), ElevatorError>(ElevatorError::CannotMoveDoorsOpen),
        m.after_step() == m,
{
}

/// A step that brings the car to the head of its queue opens the doors and
/// removes that floor from the head of the queue.
pub proof fn arrival_opens_doors(m: ElevatorModel)
    requires
        m.step_result() is Ok,
        m.after_step().floor == m.queue[0],
    ensures
        m.after_step().state == State::DoorsOpen,
        m.after_step().queue == m.queue.remove(0),
{
}

/// A step with closed doors and nothing queued is refused and leaves the car
/// idle with an empty queue.
pub proof fn step_on_empty_queue_idles(m: ElevatorModel)
    requires
        m.state != State::DoorsOpen,
        m.queue.len() == 0,
    ensures
        m.step_result() == Err::<(), ElevatorError>(ElevatorError::EmptyQueue),
        m.after_step().state == State::Idle,
        m.after_step().queue.len() == 0,
        m.after_step().floor == m.floor,
{
}

/// In a coherent state closing the doors never leaves them open: the car
/// falls idle or departs for the head of its queue.
pub proof fn close_doors_closes(m: ElevatorModel)
    requires
        m.coherent(),
        m.state == State::DoorsOpen,
    ensures
        m.after_close_doors().state != State::DoorsOpen,
        m.after_close_doors().state == State::Idle <==> m.queue.len() == 0,
{
}

/// Every step that is not refused brings the car one floor nearer to the end
/// of its route, so no more steps can succeed than the route has floors.
pub proof fn step_shortens_route(m: ElevatorModel)
    requires
        m.wf(),
        m.coherent(),
        m.step_result() is Ok,
    ensures
        m.after_step().remaining() + 1 == m.remaining(),
{
}

/// A car with closed doors has served its route exactly when nothing is
/// queued, and it is idle then.
pub proof fn route_is_empty_when_served(m: ElevatorModel)
    requires
        m.coherent(),
        m.state != State::DoorsOpen,
    ensures
        m.remaining() == 0 <==> m.queue.len() == 0,
        m.remaining() == 0 ==> m.state == State::Idle,
{
}

/// During service the route shrinks by one floor per round: after `n` rounds,
/// `n` no greater than the length of the route, the doors are closed and the
/// route is `n` floors shorter.
pub proof fn rounds_shorten_route(m: ElevatorModel, n: nat)
    requires
        m.wf(),
        m.coherent(),
        m.state != State::DoorsOpen,
        n <= m.remaining(),
    ensures
        m.after_rounds(n).wf(),
        m.after_rounds(n).coherent(),
        m.after_rounds(n).state != State::DoorsOpen,
        m.after_rounds(n).remaining() + n == m.remaining(),
    decreases n,
{
    if n > 0 {
        route_is_empty_when_served(m);
        step_shortens_route(m);
        let stepped = m.after_step();
        operations_keep_invariants(m, 0);
        operations_keep_invariants(stepped, 0);
        let next = m.after_round();
        if stepped.state == State::DoorsOpen {
            close_doors_closes(stepped);
        }
        assert(next.remaining() == stepped.remaining());
        rounds_shorten_route(next, (n - 1) as nat);
    }
}

/// Serving the queue terminates: a car with closed doors that steps, and
/// closes its doors after each arrival, has after as many rounds as its route
/// has floors an empty queue and is idle. Every step on the way succeeds.
pub proof fn service_empties_queue(m: ElevatorModel)
    requires
        m.wf(),
        m.coherent(),
        m.state != State::DoorsOpen,
    ensures
        m.after_rounds(m.remaining()).queue.len() == 0,
        m.after_rounds(m.remaining()).state == State::Idle,
        forall|n: nat| n < m.remaining() ==> (#[trigger] m.after_rounds(n)).step_result() is Ok,
{
    rounds_shorten_route(m, m.remaining());
    route_is_empty_when_served(m.after_rounds(m.remaining()));
    assert forall|n: nat| n < m.remaining() implies (#[trigger] m.after_rounds(
        n,
    )).step_result() is Ok by {
        rounds_shorten_route(m, n);
        route_is_empty_when_served(m.after_rounds(n));
    }
}

} // verus!
