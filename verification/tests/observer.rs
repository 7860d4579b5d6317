use app_forge_kit::service::error::Error;
use app_forge_kit::service::observer::{
    CatcherAction, ObservableState, SignalCatcher, TaskEnd, TaskResults, SIGNAL_LOOP_SLEEP_DURATION_MICROS,
};
use app_forge_kit::service::shutdown::take_on_terminate;
use app_forge_kit::service::signal::{Signal, SignalNumbers};
use app_forge_kit::service::{Observable, Observer};

struct Probe {
    fails: bool,
}

impl Observable for Probe {
    fn init(&self) -> Result<(), Error> {
        if self.fails {
            Err(Error::Unknown("probe failed".to_string()))
        } else {
            Ok(())
        }
    }
}

struct Quiet;

impl Observable for Quiet {}

fn states<O>(o: &Observer<O>) -> Vec<ObservableState> {
    (0..o.len()).map(|i| o.resource(i).state()).collect()
}

#[test]
fn new_observer_listens_to_int_and_term() {
    let o: Observer<Quiet> = Observer::new();
    assert_eq!(o.len(), 0);
    assert_eq!(o.signals(), &vec![Signal::SIGINT, Signal::SIGTERM]);
}

#[test]
fn register_appends_registered() {
    let mut o = Observer::new();
    assert!(o.register(Probe { fails: false }).is_ok());
    assert!(o.register(Probe { fails: true }).is_ok());
    assert_eq!(states(&o), vec![ObservableState::Registered, ObservableState::Registered]);
    assert!(o.resource(1).observable().fails);
}

#[test]
fn init_marks_all_initialized() {
    let mut o = Observer::new();
    o.register(Quiet).unwrap();
    o.register(Quiet).unwrap();
    assert!(o.init().is_ok());
    assert_eq!(states(&o), vec![ObservableState::Initialized, ObservableState::Initialized]);
}

#[test]
fn init_stops_at_first_failure() {
    let mut o = Observer::new();
    o.register(Probe { fails: false }).unwrap();
    o.register(Probe { fails: true }).unwrap();
    o.register(Probe { fails: false }).unwrap();
    match o.init() {
        Err(Error::Unknown(m)) => assert_eq!(m, "probe failed"),
        _ => panic!("the second observable fails"),
    }
    assert_eq!(
        states(&o),
        vec![ObservableState::Initialized, ObservableState::Registered, ObservableState::Registered]
    );
}

#[test]
fn mark_started_changes_one() {
    let mut o = Observer::new();
    o.register(Quiet).unwrap();
    o.register(Quiet).unwrap();
    o.init().unwrap();
    o.mark_started(1);
    assert_eq!(states(&o), vec![ObservableState::Initialized, ObservableState::Started]);
}

fn linux_numbers() -> SignalNumbers {
    SignalNumbers { interrupt: 2, terminate: 15, user1: 10, user2: 12 }
}

#[test]
fn catcher_waits_then_sleeps() {
    let mut c = SignalCatcher::with_numbers(linux_numbers());
    assert_eq!(c.sleep_micros(), 0);
    assert_eq!(c.step(0), CatcherAction::Wait);
    assert_eq!(c.sleep_micros(), SIGNAL_LOOP_SLEEP_DURATION_MICROS);
    assert_eq!(c.step(0), CatcherAction::Wait);
    assert_eq!(c.sleep_micros(), 10);
    assert_eq!(c.step(99), CatcherAction::Wait);
}

#[test]
fn catcher_delivers_and_stops() {
    let mut c = SignalCatcher::with_numbers(linux_numbers());
    assert_eq!(c.step(10), CatcherAction::Deliver(Signal::SIGUSR_1));
    assert_eq!(c.sleep_micros(), 0);
    assert_eq!(c.step(12), CatcherAction::Deliver(Signal::SIGUSR_2));
    assert_eq!(c.step(2), CatcherAction::DeliverAndStop(Signal::SIGINT));
    assert_eq!(c.step(15), CatcherAction::DeliverAndStop(Signal::SIGTERM));
}

#[test]
fn platform_catcher_stops_on_term() {
    let mut c = SignalCatcher::new();
    assert_eq!(
        c.step(signal_hook::consts::SIGTERM as usize),
        CatcherAction::DeliverAndStop(Signal::SIGTERM)
    );
}

#[test]
fn task_results_keep_ok_until_a_failure() {
    let mut r = TaskResults::new();
    assert!(!r.record(TaskEnd::Completed(Ok(()))));
    assert!(r.record(TaskEnd::Completed(Err(Error::Unknown("boom".to_string())))));
    match r.into_result() {
        Err(Error::Unknown(m)) => assert_eq!(m, "boom"),
        _ => panic!("the failure is the result"),
    }
}

#[test]
fn task_results_all_fine() {
    let mut r = TaskResults::new();
    assert!(!r.record(TaskEnd::Completed(Ok(()))));
    assert!(!r.record(TaskEnd::Completed(Ok(()))));
    assert!(r.into_result().is_ok());
}

#[test]
fn task_results_on_panics_and_cancels() {
    let rt = tokio::runtime::Builder::new_current_thread().build().unwrap();
    let panicked = rt.block_on(async { tokio::spawn(async { panic!("task panic") }).await });
    let end = TaskEnd::from_join(panicked.map(|_: ()| Ok(())));
    match &end {
        TaskEnd::Aborted { panicked, .. } => assert!(*panicked),
        _ => panic!("a panic aborts"),
    }
    let mut r = TaskResults::new();
    assert!(r.record(end));
    assert!(matches!(r.into_result(), Err(Error::JoinError(_))));

    let cancelled = rt.block_on(async {
        let handle = tokio::spawn(async {
            tokio::time::sleep(std::time::Duration::from_secs(60)).await;
        });
        handle.abort();
        handle.await
    });
    let end = TaskEnd::from_join(cancelled.map(|_| Ok(())));
    let mut r = TaskResults::new();
    assert!(r.record(end));
    assert!(r.into_result().is_ok());
}

#[test]
fn shutdown_sender_is_taken_once_on_terminate() {
    let mut slot = Some(7);
    assert_eq!(take_on_terminate(&mut slot, &Signal::SIGUSR_1), None);
    assert_eq!(slot, Some(7));
    assert_eq!(take_on_terminate(&mut slot, &Signal::SIGTERM), Some(7));
    assert_eq!(slot, None);
    assert_eq!(take_on_terminate(&mut slot, &Signal::SIGINT), None);
}

#[test]
fn default_init_succeeds() {
    assert!(Quiet.init().is_ok());
}

struct Counted<'a> {
    calls: &'a std::cell::Cell<u32>,
    fails: bool,
}

impl Observable for Counted<'_> {
    fn init(&self) -> Result<(), Error> {
        self.calls.set(self.calls.get() + 1);
        if self.fails {
            Err(Error::Unknown("counted".to_string()))
        } else {
            Ok(())
        }
    }
}

#[test]
fn init_calls_each_observable_up_to_the_first_failure() {
    let calls = [std::cell::Cell::new(0), std::cell::Cell::new(0), std::cell::Cell::new(0)];
    let mut o = Observer::new();
    o.register(Counted { calls: &calls[0], fails: false }).unwrap();
    o.register(Counted { calls: &calls[1], fails: true }).unwrap();
    o.register(Counted { calls: &calls[2], fails: false }).unwrap();
    assert!(o.init().is_err());
    assert_eq!([calls[0].get(), calls[1].get(), calls[2].get()], [1, 1, 0]);

    let all = [std::cell::Cell::new(0), std::cell::Cell::new(0)];
    let mut o = Observer::new();
    o.register(Counted { calls: &all[0], fails: false }).unwrap();
    o.register(Counted { calls: &all[1], fails: false }).unwrap();
    assert!(o.init().is_ok());
    assert_eq!([all[0].get(), all[1].get()], [1, 1]);
}
