use brul::brul::Brul;
use brul::builder::AppBuilder;
use brul::runtime::{scheduler_step, SchedulerState};
use brul::control::{AppControlMessage, ControlEvent};

#[derive(Debug, Clone, PartialEq, Default)]
struct Settings {
    title: String,
}

#[test]
fn brul_runs_without_error() {
    let app: Brul<String, u8> = Brul::new().state(1, String::from("a")).add_task(7);
    assert!(app.run().is_ok());
    let built: Brul<String, u8> = Brul::build();
    assert!(built.run().is_ok());
    let default: Brul<String, u8> = Brul::default();
    assert!(default.state(1, String::from("a")).state(1, String::from("b")).run().is_ok());
}

#[test]
fn builder_hands_over_what_it_gathered() {
    let builder: AppBuilder<Settings, String, &'static str, u32> = AppBuilder::new();
    let parts = builder
        .manage(1, String::from("one"))
        .setup(10)
        .add_task("first")
        .manage(2, String::from("two"))
        .add_task("second")
        .setup(20)
        .add_listener(|| ())
        .build();
    assert_eq!(parts.config, Settings::default());
    assert_eq!(parts.tasks, vec!["first", "second"]);
    assert_eq!(parts.setup_hooks, vec![10, 20]);
    assert_eq!(parts.state.get(1).inner(), "one");
    assert_eq!(parts.state.get(2).inner(), "two");
    assert!(parts.state.try_get(3).is_none());
}

#[test]
fn builder_keeps_the_last_value_managed_under_a_key() {
    let builder: AppBuilder<Settings, u32, u8, u8> = AppBuilder::new();
    let mut parts = builder
        .config(Settings { title: String::from("custom") })
        .manage(5, 1)
        .manage(5, 2)
        .build();
    assert_eq!(parts.config.title, "custom");
    assert_eq!(*parts.state.get(5).inner(), 2);
    assert!(!parts.state.set(5, 3));
    assert_eq!(*parts.state.get(5).inner(), 2);
    assert!(parts.tasks.is_empty());
    assert!(parts.setup_hooks.is_empty());
}

#[test]
fn scheduler_runs_until_asked_to_stop() {
    let started = ControlEvent::Received(AppControlMessage::AppStarted);
    let shutdown = ControlEvent::Received(AppControlMessage::RequestShutdown);
    assert_eq!(scheduler_step(SchedulerState::Running, started), SchedulerState::Running);
    assert_eq!(
        scheduler_step(SchedulerState::Running, ControlEvent::NotifyAttempted { delivered: true }),
        SchedulerState::Running
    );
    assert_eq!(scheduler_step(SchedulerState::Running, shutdown), SchedulerState::Stopped);
    assert_eq!(
        scheduler_step(SchedulerState::Running, ControlEvent::Disconnected),
        SchedulerState::Stopped
    );
    assert_eq!(scheduler_step(SchedulerState::Stopped, started), SchedulerState::Stopped);
    assert_eq!(scheduler_step(SchedulerState::Stopped, shutdown), SchedulerState::Stopped);
}
