use vstd::prelude::*;

use crate::service::error::{join_error_is_panic, join_error_panicked, Error};
use crate::service::signal::{Signal, SignalNumbers};

verus! {

/// Something the observer runs: it is initialised, then served, and told of signals.
/// Serving and signalling await, and are left to the runtime that drives the observer.
pub trait Observable {
    /// Prepares the observable; unless an observable says otherwise, there is nothing to
    /// prepare and it succeeds.
    fn init(&self) -> (r: Result<(), Error>)
        default_ensures
            r is Ok,
    {
        Ok(())
    }
}

/// Where an observable is in its life.
#[derive(Clone, Copy, Debug, PartialEq, Eq, Structural)]
pub enum ObservableState {
    Registered,
    Initialized,
    Started,
}

/// Each observable is at least as far along in `after` as in `before`, and none went away.
pub open spec fn states_advanced(before: Seq<ObservableState>, after: Seq<ObservableState>) -> bool {
    &&& before.len() <= after.len()
    &&& forall|i: int| 0 <= i < before.len() ==> before[i].rank() <= #[trigger] after[i].rank()
}

impl ObservableState {
    /// How far the state is along the life of an observable.
    pub open spec fn rank(self) -> nat {
        match self {
            ObservableState::Registered => 0,
            ObservableState::Initialized => 1,
            ObservableState::Started => 2,
        }
    }
}

/// An observable with its state.
pub struct Resource<O> {
    observable: O,
    state: ObservableState,
}

impl<O> Resource<O> {
    pub closed spec fn spec_observable(self) -> O {
        self.observable
    }

    pub closed spec fn spec_state(self) -> ObservableState {
        self.state
    }

    pub fn new(observable: O) -> (r: Resource<O>)
        ensures
            r.spec_observable() == observable,
            r.spec_state() == ObservableState::Registered,
    {
        Resource { observable, state: ObservableState::Registered }
    }

    pub fn observable(&self) -> (o: &O)
        ensures
            *o == self.spec_observable(),
    {
        &self.observable
    }

    pub fn state(&self) -> (s: ObservableState)
        ensures
            s == self.spec_state(),
    {
        self.state
    }
}

/// The room the list of observables starts with.
pub const OBSERVER_RESOURCES_CAPACITY: usize = 8;

/// The room the list of signals starts with.
pub const OBSERVER_SIGNALS_CAPACITY: usize = 4;

/// The observables of a service and the signals it listens to.
pub struct Observer<O> {
    resources: Vec<Resource<O>>,
    signals: Vec<Signal>,
}

impl<O> Observer<O> {
    pub closed spec fn spec_resources(self) -> Seq<Resource<O>> {
        self.resources@
    }

    pub closed spec fn spec_signals(self) -> Seq<Signal> {
        self.signals@
    }

    /// The states of the observables, in the order they were registered.
    pub open spec fn spec_states(self) -> Seq<ObservableState> {
        self.spec_resources().map_values(|r: Resource<O>| r.spec_state())
    }

    /// The observables, in the order they were registered.
    pub open spec fn spec_observables(self) -> Seq<O> {
        self.spec_resources().map_values(|r: Resource<O>| r.spec_observable())
    }

    /// No observable is further along than `state`.
    pub open spec fn states_no_further_than(self, state: ObservableState) -> bool {
        forall|i: int| 0 <= i < self.spec_states().len() ==> #[trigger] self.spec_states()[i].rank() <= state.rank()
    }

    /// An observer with no observable, listening to `SIGINT` and `SIGTERM`.
    pub fn new() -> (o: Observer<O>)
        ensures
            o.spec_states().len() == 0,
            o.spec_signals() == seq![Signal::SIGINT, Signal::SIGTERM],
    {
        let mut signals: Vec<Signal> = Vec::with_capacity(OBSERVER_SIGNALS_CAPACITY);
        signals.push(Signal::SIGINT);
        signals.push(Signal::SIGTERM);
        let o = Observer { resources: Vec::with_capacity(OBSERVER_RESOURCES_CAPACITY), signals };
        assert(o.spec_signals() =~= seq![Signal::SIGINT, Signal::SIGTERM]);
        o
    }

    /// Adds an observable, in the registered state, after those already there.
    pub fn register(&mut self, observable: O) -> (r: Result<(), Error>)
        ensures
            r is Ok,
            final(self).spec_states() == old(self).spec_states().push(ObservableState::Registered),
            states_advanced(old(self).spec_states(), final(self).spec_states()),
            final(self).spec_observables() == old(self).spec_observables().push(observable),
            final(self).spec_signals() == old(self).spec_signals(),
    {
        self.resources.push(Resource::new(observable));
        assert(self.spec_states() =~= old(self).spec_states().push(ObservableState::Registered));
        assert(self.spec_observables() =~= old(self).spec_observables().push(observable));
        Ok(())
    }

    pub fn len(&self) -> (n: usize)
        ensures
            n == self.spec_resources().len(),
    {
        self.resources.len()
    }

    pub fn resource(&self, i: usize) -> (r: &Resource<O>)
        requires
            i < self.spec_resources().len(),
        ensures
            r.spec_state() == self.spec_states()[i as int],
            r.spec_observable() == self.spec_observables()[i as int],
    {
        &self.resources[i]
    }

    pub fn signals(&self) -> (s: &Vec<Signal>)
        ensures
            s@ == self.spec_signals(),
    {
        &self.signals
    }

    /// Records that the observable at `i` has been started.
    pub fn mark_started(&mut self, i: usize)
        requires
            i < old(self).spec_resources().len(),
        ensures
            final(self).spec_states() == old(self).spec_states().update(i as int, ObservableState::Started),
            states_advanced(old(self).spec_states(), final(self).spec_states()),
            final(self).spec_observables() == old(self).spec_observables(),
            final(self).spec_signals() == old(self).spec_signals(),
    {
        self.resources[i].state = ObservableState::Started;
        assert(self.spec_states() =~= old(self).spec_states().update(i as int, ObservableState::Started));
        assert(self.spec_observables() =~= old(self).spec_observables());
    }
}

impl<O: Observable> Observer<O> {
    /// Initialises the observables in the order they were registered, and marks each
    /// initialised. The first one that fails stops the rest, and its error is returned:
    /// the observables before it are then initialised and the others are left as they were.
    pub fn init(&mut self) -> (r: Result<(), Error>)
        ensures
            final(self).spec_observables() == old(self).spec_observables(),
            final(self).spec_signals() == old(self).spec_signals(),
            final(self).spec_states().len() == old(self).spec_states().len(),
            old(self).states_no_further_than(ObservableState::Initialized) ==> states_advanced(
                old(self).spec_states(),
                final(self).spec_states(),
            ),
            r is Ok ==> forall|i: int|
                0 <= i < final(self).spec_states().len() ==> #[trigger] final(self).spec_states()[i]
                    == ObservableState::Initialized,
            r is Ok ==> forall|i: int|
                0 <= i < old(self).spec_states().len() ==> call_ensures(
                    O::init,
                    (&#[trigger] old(self).spec_observables()[i],),
                    Ok::<(), Error>(()),
                ),
            r is Err ==> exists|k: int|
                0 <= k < old(self).spec_states().len() && call_ensures(
                    O::init,
                    (&old(self).spec_observables()[k],),
                    r,
                ) && (forall|j: int|
                    0 <= j < k ==> call_ensures(
                        O::init,
                        (&#[trigger] old(self).spec_observables()[j],),
                        Ok::<(), Error>(()),
                    )) && final(self).spec_states() == Seq::new(k as nat, |i: int| ObservableState::Initialized)
                    + old(self).spec_states().skip(k),
    {
        let n = self.resources.len();
        let mut i: usize = 0;
        while i < n
            invariant
                n == old(self).spec_states().len(),
                n == self.spec_resources().len(),
                i <= n,
                self.spec_observables() == old(self).spec_observables(),
                self.spec_signals() == old(self).spec_signals(),
                self.spec_states() == Seq::new(i as nat, |j: int| ObservableState::Initialized) + old(self).spec_states().skip(i as int),
                forall|j: int|
                    0 <= j < i ==> call_ensures(
                        O::init,
                        (&#[trigger] old(self).spec_observables()[j],),
                        Ok::<(), Error>(()),
                    ),
            decreases n - i,
        {
            let outcome = self.resources[i].observable.init();
            match outcome {
                Ok(v) => {
                    assert(v == ());
                },
                Err(e) => {
                    assert(0 <= i < old(self).spec_states().len());
                    assert(call_ensures(O::init, (&old(self).spec_observables()[i as int],), Err::<(), Error>(e)));
                    return Err(e);
                },
            }
            let ghost before = self.spec_states();
            self.resources[i].state = ObservableState::Initialized;
            assert(self.spec_observables() =~= old(self).spec_observables());
            assert(self.spec_states() =~= before.update(i as int, ObservableState::Initialized));
            assert(self.spec_states() =~= Seq::new((i + 1) as nat, |j: int| ObservableState::Initialized) + old(self).spec_states().skip(i + 1));
            i = i + 1;
        }
        Ok(())
    }
}

/// How long the signal catcher sleeps between two reads once no signal was waiting.
pub const SIGNAL_LOOP_SLEEP_DURATION_MICROS: u64 = 10;

/// What the signal catcher does after a read of the caught signal.
#[derive(Clone, Copy, Debug, PartialEq, Eq, Structural)]
pub enum CatcherAction {
    /// No signal was caught: read again.
    Wait,
    /// Tell every observable of the signal, then read again.
    Deliver(Signal),
    /// Tell every observable of the signal, then stop.
    DeliverAndStop(Signal),
}

/// The state of the loop that watches for signals and hands them to the observables.
pub struct SignalCatcher {
    sleep_micros: u64,
    numbers: SignalNumbers,
}

impl SignalCatcher {
    pub closed spec fn spec_sleep_micros(self) -> u64 {
        self.sleep_micros
    }

    pub closed spec fn spec_numbers(self) -> SignalNumbers {
        self.numbers
    }

    /// A catcher that reads without sleeping first, under the platform's signal numbers.
    pub fn new() -> (c: SignalCatcher)
        ensures
            c.spec_sleep_micros() == 0,
            c.spec_numbers().platform_like(),
            c.spec_numbers().valid(),
    {
        SignalCatcher { sleep_micros: 0, numbers: SignalNumbers::platform() }
    }

    /// A catcher that reads under the given signal numbers.
    pub fn with_numbers(numbers: SignalNumbers) -> (c: SignalCatcher)
        ensures
            c.spec_sleep_micros() == 0,
            c.spec_numbers() == numbers,
    {
        SignalCatcher { sleep_micros: 0, numbers }
    }

    /// How long to sleep before the next read; 0 means not to sleep.
    pub fn sleep_micros(&self) -> (d: u64)
        ensures
            d == self.spec_sleep_micros(),
    {
        self.sleep_micros
    }

    /// The action for the value read from the caught-signal flag. A value of no signal
    /// makes the catcher wait, and sleep between reads from then on; a signal is handed
    /// on, and a terminating one ends the loop.
    pub fn step(&mut self, caught: usize) -> (a: CatcherAction)
        ensures
            final(self).spec_numbers() == old(self).spec_numbers(),
            ({
                let s = Signal::spec_from_number(caught as i32, old(self).spec_numbers());
                &&& s is UNKNOWN ==> a == CatcherAction::Wait && final(self).spec_sleep_micros() == (
                if old(self).spec_sleep_micros() == 0 {
                    SIGNAL_LOOP_SLEEP_DURATION_MICROS
                } else {
                    old(self).spec_sleep_micros()
                })
                &&& !(s is UNKNOWN) ==> final(self).spec_sleep_micros() == old(self).spec_sleep_micros()
                &&& (!(s is UNKNOWN) && s.spec_is_terminate()) ==> a == CatcherAction::DeliverAndStop(s)
                &&& (!(s is UNKNOWN) && !s.spec_is_terminate()) ==> a == CatcherAction::Deliver(s)
            }),
    {
        let signal = Signal::from_usize_number(caught, &self.numbers);
        if signal.is_unknown() {
            if self.sleep_micros == 0 {
                self.sleep_micros = SIGNAL_LOOP_SLEEP_DURATION_MICROS;
            }
            CatcherAction::Wait
        } else if signal.is_terminate() {
            CatcherAction::DeliverAndStop(signal)
        } else {
            CatcherAction::Deliver(signal)
        }
    }
}

/// How a task of the service ended.
#[derive(Debug)]
pub enum TaskEnd {
    /// The task ran to its end with this result.
    Completed(Result<(), Error>),
    /// The task did not run to its end: it panicked or was cancelled.
    Aborted { error: tokio::task::JoinError, panicked: bool },
}

impl TaskEnd {
    /// Reads what joining a task gave.
    pub fn from_join(joined: Result<Result<(), Error>, tokio::task::JoinError>) -> (e: TaskEnd)
        ensures
            joined is Ok ==> e == TaskEnd::Completed(joined->Ok_0),
            joined is Err ==> e is Aborted && e->error == joined->Err_0 && e->panicked
                == join_error_panicked(joined->Err_0),
    {
        match joined {
            Ok(result) => TaskEnd::Completed(result),
            Err(error) => {
                let panicked = join_error_is_panic(&error);
                TaskEnd::Aborted { error, panicked }
            },
        }
    }
}

/// The result of a service, gathered from its tasks as they end.
pub struct TaskResults {
    result: Result<(), Error>,
}

impl TaskResults {
    pub closed spec fn spec_result(self) -> Result<(), Error> {
        self.result
    }

    pub fn new() -> (t: TaskResults)
        ensures
            t.spec_result() is Ok,
    {
        TaskResults { result: Ok(()) }
    }

    /// Records how a task ended, and says whether the service must shut down. A task that
    /// completes well changes nothing; one that fails sets the result to its error; one
    /// that did not run to its end sets the result only when it panicked. Both of the
    /// latter shut the service down.
    pub fn record(&mut self, end: TaskEnd) -> (shutdown: bool)
        ensures
            end == TaskEnd::Completed(Ok(())) ==> !shutdown && final(self).spec_result()
                == old(self).spec_result(),
            end is Completed && end->Completed_0 is Err ==> shutdown && final(self).spec_result()
                == end->Completed_0,
            end is Aborted && end->panicked ==> shutdown && final(self).spec_result()
                == Err::<(), Error>(Error::JoinError(end->error)),
            end is Aborted && !end->panicked ==> shutdown && final(self).spec_result()
                == old(self).spec_result(),
    {
        match end {
            TaskEnd::Completed(Ok(())) => false,
            TaskEnd::Completed(Err(e)) => {
                self.result = Err(e);
                true
            },
            TaskEnd::Aborted { error, panicked } => {
                if panicked {
                    self.result = Err(Error::JoinError(error));
                }
                true
            },
        }
    }

    pub fn into_result(self) -> (r: Result<(), Error>)
        ensures
            r == self.spec_result(),
    {
        self.result
    }
}

} // verus!
