use brul::control::{
    control_step, AppControlMessage, ControlAction, ControlEvent, ControlState, ControlTask,
    EVProxy, GuiControlMessage,
};
use brul::error::Error;
use brul::state::StateManager;

#[derive(Debug, PartialEq)]
struct Counter(u32);

const ALL_STATES: [ControlState; 3] =
    [ControlState::AwaitingEvents, ControlState::Draining, ControlState::Terminated];

fn all_events() -> Vec<ControlEvent> {
    vec![
        ControlEvent::Received(AppControlMessage::AppStarted),
        ControlEvent::Received(AppControlMessage::RequestShutdown),
        ControlEvent::Disconnected,
        ControlEvent::NotifyAttempted { delivered: true },
        ControlEvent::NotifyAttempted { delivered: false },
    ]
}

#[test]
fn default_gui_message_is_shutdown() {
    assert_eq!(GuiControlMessage::default(), GuiControlMessage::Shutdown);
}

#[test]
fn awaiting_events_keeps_receiving_on_app_started() {
    let step = control_step(
        ControlState::AwaitingEvents,
        ControlEvent::Received(AppControlMessage::AppStarted),
    );
    assert_eq!(step, (ControlState::AwaitingEvents, ControlAction::Receive));
}

#[test]
fn shutdown_request_asks_for_one_notification() {
    let step = control_step(
        ControlState::AwaitingEvents,
        ControlEvent::Received(AppControlMessage::RequestShutdown),
    );
    assert_eq!(step, (ControlState::Draining, ControlAction::Notify(GuiControlMessage::Shutdown)));
}

#[test]
fn disconnection_asks_for_one_notification() {
    let step = control_step(ControlState::AwaitingEvents, ControlEvent::Disconnected);
    assert_eq!(step, (ControlState::Draining, ControlAction::Notify(GuiControlMessage::Shutdown)));
}

#[test]
fn draining_ends_when_the_notification_was_attempted() {
    for delivered in [true, false] {
        let step = control_step(ControlState::Draining, ControlEvent::NotifyAttempted { delivered });
        assert_eq!(step, (ControlState::Terminated, ControlAction::Exit));
    }
}

#[test]
fn draining_ignores_further_messages() {
    for event in [
        ControlEvent::Received(AppControlMessage::AppStarted),
        ControlEvent::Received(AppControlMessage::RequestShutdown),
        ControlEvent::Disconnected,
    ] {
        assert_eq!(
            control_step(ControlState::Draining, event),
            (ControlState::Draining, ControlAction::Ignore)
        );
    }
}

#[test]
fn terminated_only_exits() {
    for event in all_events() {
        assert_eq!(
            control_step(ControlState::Terminated, event),
            (ControlState::Terminated, ControlAction::Exit)
        );
    }
}

#[test]
fn only_awaiting_events_ever_notifies() {
    for state in ALL_STATES {
        for event in all_events() {
            let (next, action) = control_step(state, event);
            if matches!(action, ControlAction::Notify(_)) {
                assert_eq!(state, ControlState::AwaitingEvents);
                assert_eq!(next, ControlState::Draining);
            }
            if state != ControlState::AwaitingEvents {
                assert_ne!(next, ControlState::AwaitingEvents);
            }
        }
    }
}

#[test]
fn task_walks_through_its_states() {
    let mut task = ControlTask::new();
    assert_eq!(task.state(), ControlState::AwaitingEvents);
    assert_eq!(
        task.observe(ControlEvent::Received(AppControlMessage::AppStarted)),
        ControlAction::Receive
    );
    assert_eq!(
        task.observe(ControlEvent::Received(AppControlMessage::RequestShutdown)),
        ControlAction::Notify(GuiControlMessage::Shutdown)
    );
    assert_eq!(task.state(), ControlState::Draining);
    assert!(!task.is_terminated());
    assert_eq!(
        task.observe(ControlEvent::Received(AppControlMessage::RequestShutdown)),
        ControlAction::Ignore
    );
    assert_eq!(
        task.observe(ControlEvent::NotifyAttempted { delivered: false }),
        ControlAction::Exit
    );
    assert!(task.is_terminated());
    assert_eq!(task.observe(ControlEvent::Disconnected), ControlAction::Exit);
}

#[test]
fn inbox_with_shutdown_sends_exactly_one_message() {
    let mut task = ControlTask::new();
    let inbox = vec![
        AppControlMessage::AppStarted,
        AppControlMessage::RequestShutdown,
        AppControlMessage::RequestShutdown,
        AppControlMessage::AppStarted,
    ];
    let outbox = task.run_inbox(&inbox);
    assert_eq!(outbox, vec![GuiControlMessage::Shutdown]);
    assert!(task.is_terminated());
    assert!(task.run_inbox(&inbox).is_empty());
}

#[test]
fn inbox_without_shutdown_sends_nothing() {
    let mut task = ControlTask::new();
    let inbox = vec![AppControlMessage::AppStarted, AppControlMessage::AppStarted];
    assert!(task.run_inbox(&inbox).is_empty());
    assert!(task.run_inbox(&Vec::new()).is_empty());
    assert_eq!(task.state(), ControlState::AwaitingEvents);
}

#[test]
fn counter_task_requests_shutdown_and_the_gui_hears_it_once() {
    let mut state: StateManager<Counter> = StateManager::new();
    assert!(state.set(1, Counter(0)));

    let mut application_channel = vec![AppControlMessage::AppStarted];
    {
        let counter = state.get(1);
        assert_eq!(counter.inner(), &Counter(0));
        application_channel.push(AppControlMessage::RequestShutdown);
    }

    let mut task = ControlTask::new();
    let mut gui_channel = task.run_inbox(&application_channel);
    assert_eq!(gui_channel, vec![GuiControlMessage::Shutdown]);

    gui_channel.extend(task.run_inbox(&vec![
        AppControlMessage::RequestShutdown,
        AppControlMessage::AppStarted,
    ]));
    assert_eq!(gui_channel.len(), 1);
    assert!(task.is_terminated());
}

#[test]
fn send_without_a_proxy_reports_that_none_is_set() {
    let place = EVProxy::new();
    assert!(place.get_proxy().is_none());
    match place.send(GuiControlMessage::Shutdown) {
        Err(Error::WinitOtherError(text)) => assert_eq!(text, "Proxy not set"),
        other => panic!("unexpected result: {:?}", other),
    }
    assert!(EVProxy::default().get_proxy().is_none());
}

#[test]
fn scheduler_goes_only_after_the_loop_exited_and_the_task_terminated() {
    let mut task = ControlTask::new();
    assert!(!task.may_tear_down(false));
    assert!(!task.may_tear_down(true));
    task.observe(ControlEvent::Received(AppControlMessage::RequestShutdown));
    assert_eq!(task.state(), ControlState::Draining);
    assert!(!task.may_tear_down(true));
    task.observe(ControlEvent::NotifyAttempted { delivered: true });
    assert!(task.is_terminated());
    assert!(!task.may_tear_down(false));
    assert!(task.may_tear_down(true));
}
