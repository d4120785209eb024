//! The control loop of the background scheduler.
//!
//! The scheduler runs on a thread of its own and reads the executor's
//! control channel until it is told to stop. Threads and the scheduler are
//! outside this library; what the loop decides is here.
//!
//! When the loop stops, the scheduler is dropped with it: tasks that were
//! spawned and have not finished are abandoned at their next suspension
//! point, and none is waited for.

use crate::control::{ends_consuming, AppControlMessage, ControlEvent};
use vstd::prelude::*;

verus! {

/// Whether the scheduler's control loop still runs.
#[derive(Debug, Clone, Copy, PartialEq, Eq, Structural)]
pub enum SchedulerState {
    Running,
    Stopped,
}

/// Where the control loop stands after it observed `event` in `state`: a
/// shutdown request or the loss of every sender stops a running loop, and
/// nothing starts a stopped one.
pub open spec fn scheduler_after(state: SchedulerState, event: ControlEvent) -> SchedulerState {
    if state == SchedulerState::Running && !ends_consuming(event) {
        SchedulerState::Running
    } else {
        SchedulerState::Stopped
    }
}

/// One step of the scheduler's control loop.
pub fn scheduler_step(state: SchedulerState, event: ControlEvent) -> (next: SchedulerState)
    ensures
        next == scheduler_after(state, event),
{
    match state {
        SchedulerState::Running => match event {
            ControlEvent::Received(AppControlMessage::RequestShutdown)
            | ControlEvent::Disconnected => SchedulerState::Stopped,
            _ => SchedulerState::Running,
        },
        SchedulerState::Stopped => SchedulerState::Stopped,
    }
}

/// Where the control loop stands after the observations `events`, in order.
pub open spec fn scheduler_after_all(state: SchedulerState, events: Seq<ControlEvent>) -> SchedulerState
    decreases events.len(),
{
    if events.len() == 0 {
        state
    } else {
        scheduler_after(scheduler_after_all(state, events.drop_last()), events.last())
    }
}

/// A running loop is stopped after a sequence of observations exactly when
/// one of them is a shutdown request or a disconnection; a stopped loop
/// stays stopped.
pub proof fn lemma_scheduler_stops_on_request(state: SchedulerState, events: Seq<ControlEvent>)
    ensures
        scheduler_after_all(state, events) == SchedulerState::Stopped <==> state
            == SchedulerState::Stopped || crate::control::asks_shutdown(events),
    decreases events.len(),
{
    if events.len() > 0 {
        let before = events.drop_last();
        lemma_scheduler_stops_on_request(state, before);
        crate::control::lemma_asks_shutdown_by_last(events);
    }
}

} // verus!
