use brul::control::{AppControlMessage, ControlEvent};
use brul::runtime::{scheduler_step, SchedulerState};
use std::sync::atomic::{AtomicBool, AtomicU32, Ordering};
use std::sync::{mpsc, Arc};
use std::time::Duration;

fn run_control_loop(rx: &mpsc::Receiver<AppControlMessage>) -> u32 {
    let mut state = SchedulerState::Running;
    let mut observed = 0;
    while state == SchedulerState::Running {
        let event = match rx.recv() {
            Ok(message) => ControlEvent::Received(message),
            Err(_) => ControlEvent::Disconnected,
        };
        observed += 1;
        state = scheduler_step(state, event);
    }
    observed
}

#[test]
fn control_loop_stops_at_the_first_shutdown_request() {
    let (tx, rx) = mpsc::channel();
    tx.send(AppControlMessage::AppStarted).unwrap();
    tx.send(AppControlMessage::AppStarted).unwrap();
    tx.send(AppControlMessage::RequestShutdown).unwrap();
    tx.send(AppControlMessage::AppStarted).unwrap();
    assert_eq!(run_control_loop(&rx), 3);
    assert_eq!(rx.try_recv(), Ok(AppControlMessage::AppStarted));
}

#[test]
fn control_loop_stops_when_every_sender_is_gone() {
    let (tx, rx) = mpsc::channel();
    tx.send(AppControlMessage::AppStarted).unwrap();
    drop(tx);
    assert_eq!(run_control_loop(&rx), 2);
}

#[test]
fn scheduler_takes_work_at_once_and_abandons_what_is_unfinished_when_stopped() {
    let runtime = tokio::runtime::Builder::new_multi_thread()
        .worker_threads(1)
        .enable_time()
        .build()
        .unwrap();
    let handle = runtime.handle().clone();

    let done = Arc::new(AtomicU32::new(0));
    let (finished_tx, finished_rx) = mpsc::channel();
    let counter = Arc::clone(&done);
    handle.spawn(async move {
        counter.fetch_add(1, Ordering::SeqCst);
        finished_tx.send(()).unwrap();
    });
    finished_rx.recv_timeout(Duration::from_secs(10)).unwrap();
    assert_eq!(done.load(Ordering::SeqCst), 1);

    let finished_late = Arc::new(AtomicBool::new(false));
    let flag = Arc::clone(&finished_late);
    handle.spawn(async move {
        tokio::time::sleep(Duration::from_secs(3600)).await;
        flag.store(true, Ordering::SeqCst);
    });

    let (tx, rx) = mpsc::channel();
    tx.send(AppControlMessage::RequestShutdown).unwrap();
    assert_eq!(run_control_loop(&rx), 1);
    drop(runtime);
    assert!(!finished_late.load(Ordering::SeqCst));
}
