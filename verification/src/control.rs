//! The control bridge between the application core and the user-interface
//! loop: the two message sets, and the control task as a state machine.
//!
//! The control task itself blocks on a channel, which is outside this
//! library. What it decides is here: [`control_step`] maps the task's state
//! and one observation to the next state and the one thing to do next.

use crate::error::Error;
use vstd::prelude::*;
use winit::event_loop::{EventLoopClosed, EventLoopProxy};

verus! {

/// Messages that tasks and the user-interface side send to the application's
/// control task.
#[derive(Debug, Clone, Copy, PartialEq, Eq, Structural)]
pub enum AppControlMessage {
    AppStarted,
    RequestShutdown,
}

/// Messages that the application's control task sends to the user-interface
/// loop.
#[derive(Debug, Clone, Copy, PartialEq, Eq, Structural)]
pub enum GuiControlMessage {
    Shutdown,
}

impl Default for GuiControlMessage {
    fn default() -> (message: Self)
        ensures
            message == GuiControlMessage::Shutdown,
    {
        GuiControlMessage::Shutdown
    }
}

/// A handle by which any thread puts a message into the queue of a window
/// system's event loop; only carried.
#[verifier::external_type_specification]
#[verifier::external_body]
#[verifier::reject_recursive_types(T)]
pub struct ExEventLoopProxy<T: 'static>(EventLoopProxy<T>);

/// Sends `message` to the event loop behind `proxy`.
///
/// Calls winit's `EventLoopProxy::send_event`. Whether the send succeeds
/// depends on whether the event loop still exists, so nothing is said of
/// that; when it fails, winit's error holds the message that was given, and
/// that message is the error here.
#[verifier::external_body]
fn send_event(proxy: &EventLoopProxy<GuiControlMessage>, message: GuiControlMessage) -> (sent:
    Result<(), GuiControlMessage>)
    ensures
        sent matches Err(returned) ==> returned == message,
{
    match proxy.send_event(message) {
        Ok(()) => Ok(()),
        Err(EventLoopClosed(returned)) => Err(returned),
    }
}

/// Another handle to the event loop behind `proxy`.
///
/// Calls `clone` of winit's `EventLoopProxy`.
#[verifier::external_body]
fn clone_proxy(proxy: &EventLoopProxy<GuiControlMessage>) -> EventLoopProxy<GuiControlMessage> {
    proxy.clone()
}

/// The text of the error that [`EVProxy::send`] gives while no proxy is set.
pub open spec fn proxy_not_set() -> &'static str {
    "Proxy not set"
}

/// The place where the application keeps its handle to the user-interface
/// loop: empty until the loop exists.
#[derive(Debug)]
pub struct EVProxy {
    proxy: Option<EventLoopProxy<GuiControlMessage>>,
}

impl EVProxy {
    /// Whether a proxy is set.
    pub closed spec fn is_set(&self) -> bool {
        self.proxy is Some
    }

    /// The proxy that is set.
    pub closed spec fn proxy(&self) -> EventLoopProxy<GuiControlMessage>
        recommends
            self.is_set(),
    {
        self.proxy->0
    }

    /// A place without a proxy.
    pub fn new() -> (place: Self)
        ensures
            !place.is_set(),
    {
        Self { proxy: None }
    }

    /// Sets the proxy, in place of the one before, if any.
    pub fn set_proxy(&mut self, proxy: EventLoopProxy<GuiControlMessage>)
        ensures
            final(self).is_set(),
            final(self).proxy() == proxy,
    {
        self.proxy = Some(proxy);
    }

    /// Another handle to the same event loop, where a proxy is set.
    pub fn get_proxy(&self) -> (proxy: Option<EventLoopProxy<GuiControlMessage>>)
        ensures
            proxy is Some <==> self.is_set(),
    {
        match &self.proxy {
            Some(proxy) => Some(clone_proxy(proxy)),
            None => None,
        }
    }

    /// Sends `msg` to the user-interface loop.
    ///
    /// Without a proxy the result is the error `WinitOtherError` with the
    /// text "Proxy not set", and nothing is sent. With a proxy the message is
    /// sent through it; the only error is then `WinitEventLoopClosed` with
    /// `msg`, which says that the loop is gone.
    pub fn send(&self, msg: GuiControlMessage) -> (sent: Result<(), Error>)
        ensures
            !self.is_set() ==> (sent matches Err(Error::WinitOtherError(text)) && text
                == proxy_not_set()),
            self.is_set() ==> (sent matches Err(failure) ==> failure
                == Error::WinitEventLoopClosed(msg)),
    {
        match &self.proxy {
            None => Err(Error::WinitOtherError("Proxy not set")),
            Some(proxy) => match send_event(proxy, msg) {
                Ok(()) => Ok(()),
                Err(closed) => Err(Error::WinitEventLoopClosed(closed)),
            },
        }
    }
}

impl Default for EVProxy {
    fn default() -> (place: Self)
        ensures
            !place.is_set(),
    {
        EVProxy::new()
    }
}

/// Where the control task stands.
#[derive(Debug, Clone, Copy, PartialEq, Eq, Structural)]
pub enum ControlState {
    /// Consuming application-control messages.
    AwaitingEvents,
    /// Shutdown was asked for; the notification to the user-interface loop is
    /// under way.
    Draining,
    /// The notification was attempted; the task is over.
    Terminated,
}

/// One observation of the control task.
#[derive(Debug, Clone, Copy, PartialEq, Eq, Structural)]
pub enum ControlEvent {
    /// A message arrived on the application-control channel.
    Received(AppControlMessage),
    /// Every sender of the application-control channel is gone.
    Disconnected,
    /// The attempt to notify the user-interface loop is over; `delivered` is
    /// false when its receiver was already gone.
    NotifyAttempted { delivered: bool },
}

/// What the control task does next.
#[derive(Debug, Clone, Copy, PartialEq, Eq, Structural)]
pub enum ControlAction {
    /// Wait for the next application-control message.
    Receive,
    /// Send this message to the user-interface loop, then report the attempt
    /// as [`ControlEvent::NotifyAttempted`].
    Notify(GuiControlMessage),
    /// Nothing: the observation is dropped.
    Ignore,
    /// Leave the control loop.
    Exit,
}

/// Whether an observation ends the consuming phase of a control loop: a
/// shutdown request, or the loss of every sender.
pub open spec fn ends_consuming(event: ControlEvent) -> bool {
    event == ControlEvent::Received(AppControlMessage::RequestShutdown)
        || event == ControlEvent::Disconnected
}

/// The state after `event` was observed in `state`.
pub open spec fn next_state(state: ControlState, event: ControlEvent) -> ControlState {
    match state {
        ControlState::AwaitingEvents => if ends_consuming(event) {
            ControlState::Draining
        } else {
            ControlState::AwaitingEvents
        },
        ControlState::Draining => if event is NotifyAttempted {
            ControlState::Terminated
        } else {
            ControlState::Draining
        },
        ControlState::Terminated => ControlState::Terminated,
    }
}

/// The action that observing `event` in `state` calls for.
pub open spec fn action_for(state: ControlState, event: ControlEvent) -> ControlAction {
    match state {
        ControlState::AwaitingEvents => if ends_consuming(event) {
            ControlAction::Notify(GuiControlMessage::Shutdown)
        } else {
            ControlAction::Receive
        },
        ControlState::Draining => if event is NotifyAttempted {
            ControlAction::Exit
        } else {
            ControlAction::Ignore
        },
        ControlState::Terminated => ControlAction::Exit,
    }
}

/// One step of the control task: the next state and what to do.
///
/// While awaiting events, a shutdown request or a disconnected channel moves
/// the task to `Draining` and asks for the one notification of the
/// user-interface loop; every other observation keeps it receiving. While
/// draining, the end of the notification attempt, delivered or not, terminates
/// the task; anything else is ignored. A terminated task only exits.
pub fn control_step(state: ControlState, event: ControlEvent) -> (step: (
    ControlState,
    ControlAction,
))
    ensures
        step.0 == next_state(state, event),
        step.1 == action_for(state, event),
{
    match state {
        ControlState::AwaitingEvents => match event {
            ControlEvent::Received(AppControlMessage::RequestShutdown)
            | ControlEvent::Disconnected => (
                ControlState::Draining,
                ControlAction::Notify(GuiControlMessage::Shutdown),
            ),
            _ => (ControlState::AwaitingEvents, ControlAction::Receive),
        },
        ControlState::Draining => match event {
            ControlEvent::NotifyAttempted { .. } => (
                ControlState::Terminated,
                ControlAction::Exit,
            ),
            _ => (ControlState::Draining, ControlAction::Ignore),
        },
        ControlState::Terminated => (ControlState::Terminated, ControlAction::Exit),
    }
}

/// The control task: its state, advanced one observation at a time.
#[derive(Debug, Clone, Copy)]
pub struct ControlTask {
    state: ControlState,
}

impl ControlTask {
    /// The task's state.
    pub closed spec fn view(&self) -> ControlState {
        self.state
    }

    /// A task that awaits events.
    pub fn new() -> (task: Self)
        ensures
            task@ == ControlState::AwaitingEvents,
    {
        ControlTask { state: ControlState::AwaitingEvents }
    }

    /// The task's state.
    pub fn state(&self) -> (state: ControlState)
        ensures
            state == self@,
    {
        self.state
    }

    /// Whether the task is over.
    pub fn is_terminated(&self) -> (over: bool)
        ensures
            over == (self@ == ControlState::Terminated),
    {
        match self.state {
            ControlState::Terminated => true,
            _ => false,
        }
    }

    /// Whether the background scheduler may be torn down: only once the
    /// user-interface loop has exited and the control task has terminated.
    pub fn may_tear_down(&self, ui_loop_exited: bool) -> (may: bool)
        ensures
            may == (ui_loop_exited && self@ == ControlState::Terminated),
    {
        ui_loop_exited && self.is_terminated()
    }

    /// Takes one observation: moves to the next state and returns what to do.
    pub fn observe(&mut self, event: ControlEvent) -> (action: ControlAction)
        ensures
            final(self)@ == next_state(old(self)@, event),
            action == action_for(old(self)@, event),
    {
        let (next, action) = control_step(self.state, event);
        self.state = next;
        action
    }

    /// Runs the task over a recorded inbox, in order, and returns what it
    /// sends to the user-interface loop. Each notification attempt is taken
    /// as over before the next message is read.
    ///
    /// A task that awaits events sends one `Shutdown` and terminates if the
    /// inbox holds a shutdown request, and otherwise sends nothing and keeps
    /// awaiting events. A task in any other state sends nothing and stays
    /// where it is.
    pub fn run_inbox(&mut self, inbox: &Vec<AppControlMessage>) -> (outbox: Vec<
        GuiControlMessage,
    >)
        ensures
            outbox@ == outbox_for(old(self)@, inbox@),
            final(self)@ == state_after_inbox(old(self)@, inbox@),
    {
        let mut outbox: Vec<GuiControlMessage> = Vec::new();
        let mut i: usize = 0;
        while i < inbox.len()
            invariant
                i <= inbox.len(),
                outbox@ == outbox_for(old(self)@, inbox@.take(i as int)),
                self@ == state_after_inbox(old(self)@, inbox@.take(i as int)),
            decreases inbox.len() - i,
        {
            proof {
                assert(inbox@.take(i + 1).drop_last() == inbox@.take(i as int));
                lemma_requests_shutdown_by_last(inbox@.take(i + 1));
            }
            let action = self.observe(ControlEvent::Received(inbox[i]));
            if let ControlAction::Notify(message) = action {
                outbox.push(message);
                self.observe(ControlEvent::NotifyAttempted { delivered: true });
            }
            i += 1;
        }
        assert(inbox@.take(inbox.len() as int) == inbox@);
        outbox
    }
}

/// Whether `inbox` holds a shutdown request.
pub open spec fn requests_shutdown(inbox: Seq<AppControlMessage>) -> bool {
    exists|i: int|
        0 <= i < inbox.len() && #[trigger] inbox[i] == AppControlMessage::RequestShutdown
}

/// What a task in `state` sends to the user-interface loop while it runs over
/// `inbox`.
pub open spec fn outbox_for(state: ControlState, inbox: Seq<AppControlMessage>) -> Seq<
    GuiControlMessage,
> {
    if state == ControlState::AwaitingEvents && requests_shutdown(inbox) {
        seq![GuiControlMessage::Shutdown]
    } else {
        Seq::empty()
    }
}

/// Where a task in `state` stands after it ran over `inbox`.
pub open spec fn state_after_inbox(
    state: ControlState,
    inbox: Seq<AppControlMessage>,
) -> ControlState {
    if state == ControlState::AwaitingEvents && requests_shutdown(inbox) {
        ControlState::Terminated
    } else {
        state
    }
}

/// The state reached from `state` after the observations `events`, in order.
pub open spec fn state_after(state: ControlState, events: Seq<ControlEvent>) -> ControlState
    decreases events.len(),
{
    if events.len() == 0 {
        state
    } else {
        next_state(state_after(state, events.drop_last()), events.last())
    }
}

/// The actions that the observations `events` call for, in order, starting
/// from `state`.
pub open spec fn actions_of(state: ControlState, events: Seq<ControlEvent>) -> Seq<
    ControlAction,
>
    decreases events.len(),
{
    if events.len() == 0 {
        Seq::empty()
    } else {
        actions_of(state, events.drop_last()).push(
            action_for(state_after(state, events.drop_last()), events.last()),
        )
    }
}

/// How many of `actions` notify the user-interface loop.
pub open spec fn notify_count(actions: Seq<ControlAction>) -> nat
    decreases actions.len(),
{
    if actions.len() == 0 {
        0
    } else {
        notify_count(actions.drop_last()) + if actions.last() is Notify {
            1nat
        } else {
            0nat
        }
    }
}

/// Whether some observation in `events` ends the consuming phase.
pub open spec fn asks_shutdown(events: Seq<ControlEvent>) -> bool {
    exists|i: int| 0 <= i < events.len() && ends_consuming(#[trigger] events[i])
}

/// Some observation in a sequence ends the consuming phase exactly when the
/// last one does or one before it.
pub proof fn lemma_asks_shutdown_by_last(events: Seq<ControlEvent>)
    requires
        events.len() > 0,
    ensures
        asks_shutdown(events) <==> asks_shutdown(events.drop_last()) || ends_consuming(
            events.last(),
        ),
{
    let before = events.drop_last();
    if asks_shutdown(before) {
        let i = choose|i: int| 0 <= i < before.len() && ends_consuming(#[trigger] before[i]);
        assert(ends_consuming(events[i]));
    } else if ends_consuming(events.last()) {
        assert(ends_consuming(events[events.len() - 1]));
    } else {
        assert forall|i: int| 0 <= i < events.len() implies !ends_consuming(
            #[trigger] events[i],
        ) by {
            if i < before.len() {
                assert(events[i] == before[i]);
            }
        }
    }
}

/// An inbox holds a shutdown request exactly when its last message is one
/// or the messages before it hold one.
pub proof fn lemma_requests_shutdown_by_last(inbox: Seq<AppControlMessage>)
    requires
        inbox.len() > 0,
    ensures
        requests_shutdown(inbox) <==> requests_shutdown(inbox.drop_last()) || inbox.last()
            == AppControlMessage::RequestShutdown,
{
    let before = inbox.drop_last();
    if requests_shutdown(before) {
        let i = choose|i: int|
            0 <= i < before.len() && #[trigger] before[i] == AppControlMessage::RequestShutdown;
        assert(inbox[i] == AppControlMessage::RequestShutdown);
    } else if inbox.last() == AppControlMessage::RequestShutdown {
        assert(inbox[inbox.len() - 1] == AppControlMessage::RequestShutdown);
    } else {
        assert forall|i: int| 0 <= i < inbox.len() implies #[trigger] inbox[i]
            != AppControlMessage::RequestShutdown by {
            if i < before.len() {
                assert(inbox[i] == before[i]);
            }
        }
    }
}

/// A task that has left `AwaitingEvents` never returns to it, and a terminated
/// task stays terminated, whatever it observes.
pub proof fn lemma_no_way_back(state: ControlState, events: Seq<ControlEvent>)
    ensures
        state != ControlState::AwaitingEvents ==> state_after(state, events)
            != ControlState::AwaitingEvents,
        state == ControlState::Terminated ==> state_after(state, events)
            == ControlState::Terminated,
    decreases events.len(),
{
    if events.len() > 0 {
        lemma_no_way_back(state, events.drop_last());
    }
}

/// Once a task has left `AwaitingEvents`, no observation makes it notify the
/// user-interface loop again.
pub proof fn lemma_no_second_notification(state: ControlState, events: Seq<ControlEvent>)
    requires
        state != ControlState::AwaitingEvents,
    ensures
        notify_count(actions_of(state, events)) == 0,
    decreases events.len(),
{
    if events.len() > 0 {
        lemma_no_second_notification(state, events.drop_last());
        lemma_no_way_back(state, events.drop_last());
        assert(actions_of(state, events).drop_last() == actions_of(state, events.drop_last()));
    }
}

/// From `AwaitingEvents`, any sequence of observations leads to exactly one
/// notification of the user-interface loop if one of them is a shutdown
/// request or a disconnection, and to none otherwise; the task is still
/// awaiting events exactly when there was none.
pub proof fn lemma_notifies_exactly_once(events: Seq<ControlEvent>)
    ensures
        notify_count(actions_of(ControlState::AwaitingEvents, events)) == if asks_shutdown(
            events,
        ) {
            1nat
        } else {
            0nat
        },
        state_after(ControlState::AwaitingEvents, events) == ControlState::AwaitingEvents
            <==> !asks_shutdown(events),
    decreases events.len(),
{
    let start = ControlState::AwaitingEvents;
    if events.len() > 0 {
        let before = events.drop_last();
        lemma_notifies_exactly_once(before);
        assert(actions_of(start, events).drop_last() == actions_of(start, before));
        lemma_asks_shutdown_by_last(events);
    }
}

/// Observing one sequence and then another is observing the two in a row:
/// the same state is reached, the same actions are called for, and the
/// notifications add up.
pub proof fn lemma_observations_compose(
    state: ControlState,
    before: Seq<ControlEvent>,
    later: Seq<ControlEvent>,
)
    ensures
        state_after(state, before + later) == state_after(state_after(state, before), later),
        actions_of(state, before + later) == actions_of(state, before) + actions_of(
            state_after(state, before),
            later,
        ),
        notify_count(actions_of(state, before + later)) == notify_count(
            actions_of(state, before),
        ) + notify_count(actions_of(state_after(state, before), later)),
    decreases later.len(),
{
    let middle = state_after(state, before);
    if later.len() == 0 {
        assert(before + later == before);
        assert(actions_of(state, before) + actions_of(middle, later) == actions_of(
            state,
            before,
        ));
    } else {
        let shorter = later.drop_last();
        lemma_observations_compose(state, before, shorter);
        assert((before + later).drop_last() == before + shorter);
        assert((before + later).last() == later.last());
        let step = action_for(state_after(middle, shorter), later.last());
        assert(actions_of(state, before + later) == (actions_of(state, before) + actions_of(
            middle,
            shorter,
        )).push(step));
        assert(actions_of(state, before + later) == actions_of(state, before) + actions_of(
            middle,
            later,
        ));
        assert(actions_of(state, before + later).drop_last() == actions_of(
            state,
            before + shorter,
        ));
        assert(actions_of(middle, later).drop_last() == actions_of(middle, shorter));
    }
}

/// A task that has left `AwaitingEvents` calls for one action for each
/// observation, and none of these actions is a notification.
pub proof fn lemma_no_notification_at_all(state: ControlState, events: Seq<ControlEvent>)
    requires
        state != ControlState::AwaitingEvents,
    ensures
        actions_of(state, events).len() == events.len(),
        forall|i: int|
            0 <= i < events.len() ==> !(#[trigger] actions_of(state, events)[i] is Notify),
    decreases events.len(),
{
    if events.len() > 0 {
        let shorter = events.drop_last();
        lemma_no_notification_at_all(state, shorter);
        lemma_no_way_back(state, shorter);
        assert forall|i: int| 0 <= i < events.len() implies !(#[trigger] actions_of(
            state,
            events,
        )[i] is Notify) by {
            if i < shorter.len() {
                assert(actions_of(state, events)[i] == actions_of(state, shorter)[i]);
            }
        }
    }
}

/// The user-interface loop hears of shutdown once, and never again.
///
/// Let a task that awaited events observe `before`, in which shutdown is
/// asked for, and after that `later`, whatever it holds: further requests,
/// disconnections, anything. Up to the end of `before` the task has called
/// for exactly one notification. None of the actions that `later` calls for
/// is a notification, so at the end the count is still one. Once the
/// notification was attempted, delivered or not, the task is terminated and
/// stays so.
pub proof fn lemma_shutdown_is_notified_once(before: Seq<ControlEvent>, later: Seq<ControlEvent>)
    requires
        asks_shutdown(before),
    ensures
        notify_count(actions_of(ControlState::AwaitingEvents, before)) == 1,
        state_after(ControlState::AwaitingEvents, before) != ControlState::AwaitingEvents,
        forall|i: int|
            0 <= i < later.len() ==> !(#[trigger] actions_of(
                state_after(ControlState::AwaitingEvents, before),
                later,
            )[i] is Notify),
        notify_count(actions_of(ControlState::AwaitingEvents, before + later)) == 1,
        state_after(ControlState::AwaitingEvents, before) == ControlState::Terminated
            ==> state_after(ControlState::AwaitingEvents, before + later)
            == ControlState::Terminated,
{
    let start = ControlState::AwaitingEvents;
    let middle = state_after(start, before);
    lemma_notifies_exactly_once(before);
    lemma_observations_compose(start, before, later);
    lemma_no_second_notification(middle, later);
    lemma_no_way_back(middle, later);
    lemma_no_notification_at_all(middle, later);
}

/// Running a task over one inbox and then over another is running it over
/// the two in a row: the same messages go out and the same state is reached.
pub proof fn lemma_inboxes_compose(
    state: ControlState,
    first: Seq<AppControlMessage>,
    later: Seq<AppControlMessage>,
)
    ensures
        outbox_for(state, first + later) == outbox_for(state, first) + outbox_for(
            state_after_inbox(state, first),
            later,
        ),
        state_after_inbox(state, first + later) == state_after_inbox(
            state_after_inbox(state, first),
            later,
        ),
{
    lemma_requests_shutdown_in_either(first, later);
}

/// Two inboxes in a row hold a shutdown request exactly when one of them
/// does.
pub proof fn lemma_requests_shutdown_in_either(
    first: Seq<AppControlMessage>,
    later: Seq<AppControlMessage>,
)
    ensures
        requests_shutdown(first + later) <==> requests_shutdown(first) || requests_shutdown(
            later,
        ),
    decreases later.len(),
{
    if later.len() == 0 {
        assert(first + later == first);
    } else {
        let shorter = later.drop_last();
        lemma_requests_shutdown_in_either(first, shorter);
        assert((first + later).drop_last() == first + shorter);
        assert((first + later).last() == later.last());
        lemma_requests_shutdown_by_last(first + later);
        lemma_requests_shutdown_by_last(later);
    }
}

/// A task that ran over an inbox with a shutdown request has sent one
/// `Shutdown` and is terminated; whatever inbox it runs over afterwards, it
/// sends nothing more, so that one `Shutdown` is all that ever goes out.
pub proof fn lemma_shutdown_is_sent_once(
    first: Seq<AppControlMessage>,
    later: Seq<AppControlMessage>,
)
    requires
        requests_shutdown(first),
    ensures
        outbox_for(ControlState::AwaitingEvents, first) == seq![GuiControlMessage::Shutdown],
        state_after_inbox(ControlState::AwaitingEvents, first) == ControlState::Terminated,
        outbox_for(state_after_inbox(ControlState::AwaitingEvents, first), later)
            == Seq::<GuiControlMessage>::empty(),
        outbox_for(ControlState::AwaitingEvents, first + later)
            == seq![GuiControlMessage::Shutdown],
        state_after_inbox(ControlState::AwaitingEvents, first + later)
            == ControlState::Terminated,
{
    lemma_inboxes_compose(ControlState::AwaitingEvents, first, later);
}

} // verus!
