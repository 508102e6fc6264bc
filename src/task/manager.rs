use vstd::prelude::*;

use super::{Task, TaskView};
use crate::error::Error;

verus! {

/// Where the supervisor stands in a run.
#[derive(Debug, Clone, Copy, PartialEq, Eq, Structural)]
pub enum Phase {
    /// Built, not yet run.
    Idle,
    /// Waiting for the termination-signal handler to be installed.
    InstallingHandler,
    /// Spawning the tasks in order; the cursor names the one being spawned.
    Starting,
    /// Every task is spawned; waiting for the termination signal.
    Running,
    /// Killing every task in order after the signal; the cursor names the one
    /// being killed.
    ShuttingDown,
    /// A spawn failed; killing the tasks spawned before it, in order.
    RollingBack,
    /// The run is over.
    Stopped,
}

/// What the supervisor asks its driver to do next.
#[derive(Debug, PartialEq, Eq)]
pub enum Action {
    /// Install the process-wide termination-signal handler, once.
    InstallHandler,
    /// Start the process of the task at this index.
    Spawn(usize),
    /// Block until the termination signal arrives.
    AwaitSignal,
    /// Send a termination request to the process of the task at this index.
    Kill(usize),
    /// The run is over, with this result.
    Finish(Result<(), Error>),
}

/// What the driver reports back after performing an action.
#[derive(Debug, PartialEq, Eq)]
pub enum Event {
    /// The outcome of installing the termination-signal handler.
    HandlerInstalled(Result<(), Error>),
    /// The outcome of starting a process: its id, or the error.
    Spawned(Result<u32, Error>),
    /// The termination signal arrived.
    Signalled,
    /// The outcome of a termination request.
    Killed(Result<(), Error>),
}

/// The abstract state of the supervisor.
pub struct ManagerView {
    pub tasks: Seq<TaskView>,
    pub phase: Phase,
    /// The task being spawned or killed.
    pub cursor: nat,
    /// How many tasks, from the first, were started.
    pub spawned: nat,
    /// The error the run will end with: the spawn error while rolling back,
    /// the first kill error while shutting down. It is handed over in the
    /// final action.
    pub failure: Option<Error>,
}

impl ManagerView {
    /// A supervisor over `tasks` that has not run yet.
    pub open spec fn initial(tasks: Seq<TaskView>) -> ManagerView {
        ManagerView { tasks, phase: Phase::Idle, cursor: 0, spawned: 0, failure: None }
    }

    /// The tasks are in the state the phase promises: started exactly up to
    /// `spawned` while starting and running, and none started before.
    pub open spec fn wf(self) -> bool {
        &&& self.cursor <= self.tasks.len()
        &&& self.spawned <= self.tasks.len()
        &&& match self.phase {
            Phase::Idle | Phase::InstallingHandler => {
                &&& self.spawned == 0
                &&& self.failure is None
                &&& forall|i: int| 0 <= i < self.tasks.len() ==> #[trigger] self.tasks[i].handle is None
            },
            Phase::Starting => {
                &&& self.failure is None
                &&& self.cursor < self.tasks.len()
                &&& self.spawned == self.cursor
                &&& forall|i: int|
                    0 <= i < self.tasks.len() ==> (#[trigger] self.tasks[i].handle is Some <==> i
                        < self.cursor)
            },
            Phase::Running => {
                &&& self.failure is None
                &&& self.spawned == self.tasks.len()
                &&& forall|i: int| 0 <= i < self.tasks.len() ==> #[trigger] self.tasks[i].handle is Some
            },
            Phase::ShuttingDown => {
                &&& self.cursor < self.tasks.len()
                &&& self.spawned == self.tasks.len()
                &&& forall|i: int|
                    self.cursor <= i < self.tasks.len() ==> #[trigger] self.tasks[i].handle is Some
            },
            Phase::RollingBack => {
                &&& self.cursor < self.spawned
                &&& self.failure is Some
                &&& forall|i: int|
                    self.cursor <= i < self.spawned ==> #[trigger] self.tasks[i].handle is Some
                &&& forall|i: int|
                    self.spawned <= i < self.tasks.len() ==> #[trigger] self.tasks[i].handle is None
            },
            Phase::Stopped => self.failure is None,
        }
    }

    /// Whether the supervisor, in its present phase, expects this event.
    pub open spec fn accepts(self, e: Event) -> bool {
        match self.phase {
            Phase::InstallingHandler => e is HandlerInstalled,
            Phase::Starting => e is Spawned,
            Phase::Running => e is Signalled,
            Phase::ShuttingDown | Phase::RollingBack => e is Killed,
            _ => false,
        }
    }

    /// Beginning a run: the handler is installed first, before any task
    /// starts.
    pub open spec fn run_spec(self) -> (ManagerView, Action) {
        (ManagerView { phase: Phase::InstallingHandler, ..self }, Action::InstallHandler)
    }

    /// The next state once every task has started: wait for the signal.
    pub open spec fn await_signal(self) -> (ManagerView, Action) {
        (ManagerView { phase: Phase::Running, spawned: self.tasks.len(), ..self }, Action::AwaitSignal)
    }

    /// The next state and action after event `e`.
    pub open spec fn step_spec(self, e: Event) -> (ManagerView, Action) {
        let n = self.tasks.len();
        let c = self.cursor;
        match e {
            Event::HandlerInstalled(Err(err)) => (
                ManagerView { phase: Phase::Stopped, ..self },
                Action::Finish(Err(err)),
            ),
            Event::HandlerInstalled(Ok(())) => if n == 0 {
                self.await_signal()
            } else {
                (ManagerView { phase: Phase::Starting, cursor: 0, ..self }, Action::Spawn(0))
            },
            Event::Spawned(started) => {
                let (t, r) = self.tasks[c as int].spawn_spec(started);
                match r {
                    Ok(()) => {
                        let next = ManagerView {
                            tasks: self.tasks.update(c as int, t),
                            spawned: c + 1,
                            ..self
                        };
                        if c + 1 < n {
                            (ManagerView { cursor: c + 1, ..next }, Action::Spawn((c + 1) as usize))
                        } else {
                            next.await_signal()
                        }
                    },
                    Err(err) => if c == 0 {
                        (
                            ManagerView { phase: Phase::Stopped, spawned: 0, ..self },
                            Action::Finish(Err(err)),
                        )
                    } else {
                        (
                            ManagerView {
                                phase: Phase::RollingBack,
                                cursor: 0,
                                spawned: c,
                                failure: Some(err),
                                ..self
                            },
                            Action::Kill(0),
                        )
                    },
                }
            },
            Event::Signalled => if n == 0 {
                (ManagerView { phase: Phase::Stopped, ..self }, Action::Finish(Ok(())))
            } else {
                (ManagerView { phase: Phase::ShuttingDown, cursor: 0, ..self }, Action::Kill(0))
            },
            Event::Killed(delivered) => {
                let (t, r) = self.tasks[c as int].kill_spec(delivered);
                let tasks = self.tasks.update(c as int, t);
                if self.phase == Phase::RollingBack {
                    if c + 1 < self.spawned {
                        (ManagerView { tasks, cursor: c + 1, ..self }, Action::Kill((c + 1) as usize))
                    } else {
                        (
                            ManagerView { tasks, phase: Phase::Stopped, failure: None, ..self },
                            Action::Finish(Err(self.failure->0)),
                        )
                    }
                } else {
                    let failure = match (self.failure, r) {
                        (None, Err(err)) => Some(err),
                        _ => self.failure,
                    };
                    if c + 1 < n {
                        (
                            ManagerView { tasks, cursor: c + 1, failure, ..self },
                            Action::Kill((c + 1) as usize),
                        )
                    } else {
                        (
                            ManagerView { tasks, phase: Phase::Stopped, failure: None, ..self },
                            Action::Finish(
                                match failure {
                                    Some(err) => Err(err),
                                    None => Ok(()),
                                },
                            ),
                        )
                    }
                }
            },
        }
    }
}

/// The supervisor of one launch: it owns the tasks, starts them in order,
/// and stops them all.
///
/// It is a state machine. `run` begins and each `step` takes the outcome of
/// the previous action; the driver performs the actions (install the signal
/// handler, start or signal a process, wait for the signal). Tasks are spawned
/// in order; if one fails to spawn, those spawned before it are killed in
/// spawn order and the run ends with the spawn error. After the signal every
/// task is killed in spawn order. Killing is best effort: a failed kill does
/// not stop the others from being killed, and the run ends with the first
/// kill error.
#[derive(Debug)]
pub struct TaskManager {
    tasks: Vec<Task>,
    phase: Phase,
    cursor: usize,
    spawned: usize,
    failure: Option<Error>,
}

impl View for TaskManager {
    type V = ManagerView;

    closed spec fn view(&self) -> ManagerView {
        ManagerView {
            tasks: self.tasks@.map_values(|t: Task| t@),
            phase: self.phase,
            cursor: self.cursor as nat,
            spawned: self.spawned as nat,
            failure: self.failure,
        }
    }
}

impl TaskManager {
    /// A supervisor over `tasks`, in their order; nothing runs yet.
    pub fn new(tasks: Vec<Task>) -> (r: TaskManager)
        requires
            forall|i: int| 0 <= i < tasks@.len() ==> (#[trigger] tasks@[i])@.handle is None,
        ensures
            r@ == ManagerView::initial(tasks@.map_values(|t: Task| t@)),
            r@.wf(),
    {
        let r = TaskManager { tasks, phase: Phase::Idle, cursor: 0, spawned: 0, failure: None };
        assert(r@.tasks =~= tasks@.map_values(|t: Task| t@));
        r
    }

    /// The tasks, in spawn order.
    pub fn tasks(&self) -> (r: &Vec<Task>)
        ensures
            r@.map_values(|t: Task| t@) == self@.tasks,
    {
        &self.tasks
    }

    /// The phase of the run.
    pub fn phase(&self) -> (r: Phase)
        ensures
            r == self@.phase,
    {
        self.phase
    }

    /// Begins the run: the first action is to install the signal handler.
    pub fn run(&mut self) -> (r: Action)
        requires
            old(self)@.phase == Phase::Idle,
            old(self)@.wf(),
        ensures
            (final(self)@, r) == old(self)@.run_spec(),
            final(self)@.wf(),
    {
        self.phase = Phase::InstallingHandler;
        Action::InstallHandler
    }

    fn await_signal(&mut self) -> (r: Action)
        ensures
            (final(self)@, r) == old(self)@.await_signal(),
    {
        self.phase = Phase::Running;
        self.spawned = self.tasks.len();
        Action::AwaitSignal
    }

    /// Takes the outcome of the last action and returns the next one.
    pub fn step(&mut self, e: Event) -> (r: Action)
        requires
            old(self)@.wf(),
            old(self)@.accepts(e),
        ensures
            (final(self)@, r) == old(self)@.step_spec(e),
            final(self)@.wf(),
    {
        let ghost pre = self@;
        let n = self.tasks.len();
        let c = self.cursor;
        let r = match e {
            Event::HandlerInstalled(Err(err)) => {
                self.phase = Phase::Stopped;
                Action::Finish(Err(err))
            },
            Event::HandlerInstalled(Ok(())) => {
                if n == 0 {
                    self.await_signal()
                } else {
                    self.phase = Phase::Starting;
                    self.cursor = 0;
                    Action::Spawn(0)
                }
            },
            Event::Spawned(started) => {
                let r = self.tasks[c].spawn(started);
                match r {
                    Ok(()) => {
                        self.spawned = c + 1;
                        if c + 1 < n {
                            self.cursor = c + 1;
                            Action::Spawn(c + 1)
                        } else {
                            self.await_signal()
                        }
                    },
                    Err(err) => {
                        if c == 0 {
                            self.phase = Phase::Stopped;
                            self.spawned = 0;
                            Action::Finish(Err(err))
                        } else {
                            self.phase = Phase::RollingBack;
                            self.cursor = 0;
                            self.spawned = c;
                            self.failure = Some(err);
                            Action::Kill(0)
                        }
                    },
                }
            },
            Event::Signalled => {
                if n == 0 {
                    self.phase = Phase::Stopped;
                    Action::Finish(Ok(()))
                } else {
                    self.phase = Phase::ShuttingDown;
                    self.cursor = 0;
                    Action::Kill(0)
                }
            },
            Event::Killed(delivered) => {
                let r = self.tasks[c].kill(delivered);
                if self.phase == Phase::RollingBack {
                    if c + 1 < self.spawned {
                        self.cursor = c + 1;
                        Action::Kill(c + 1)
                    } else {
                        self.phase = Phase::Stopped;
                        Action::Finish(Err(self.failure.take().unwrap()))
                    }
                } else {
                    if self.failure.is_none() {
                        if let Err(err) = r {
                            self.failure = Some(err);
                        }
                    }
                    if c + 1 < n {
                        self.cursor = c + 1;
                        Action::Kill(c + 1)
                    } else {
                        self.phase = Phase::Stopped;
                        match self.failure.take() {
                            Some(err) => Action::Finish(Err(err)),
                            None => Action::Finish(Ok(())),
                        }
                    }
                }
            },
        };
        assert(self@.tasks =~= pre.step_spec(e).0.tasks);
        r
    }
}

/// The state reached and the actions returned when the events are fed to
/// the supervisor in order.
pub open spec fn run_events(m: ManagerView, events: Seq<Event>) -> (ManagerView, Seq<Action>)
    decreases events.len(),
{
    if events.len() == 0 {
        (m, seq![])
    } else {
        let (next, a) = m.step_spec(events[0]);
        let (end, rest) = run_events(next, events.drop_first());
        (end, seq![a] + rest)
    }
}

/// The events that report each process as started, with these ids.
pub open spec fn started(pids: Seq<u32>) -> Seq<Event> {
    pids.map_values(|p: u32| Event::Spawned(Ok(p)))
}

/// The events that report these outcomes of termination requests.
pub open spec fn killed(outcomes: Seq<Result<(), Error>>) -> Seq<Event> {
    outcomes.map_values(|o: Result<(), Error>| Event::Killed(o))
}

/// `count` spawn requests, for the tasks from index `from` on.
pub open spec fn spawns(from: nat, count: nat) -> Seq<Action> {
    Seq::new(count, |i: int| Action::Spawn((from + i) as usize))
}

/// `count` kill requests, for the tasks from index `from` on.
pub open spec fn kills(from: nat, count: nat) -> Seq<Action> {
    Seq::new(count, |i: int| Action::Kill((from + i) as usize))
}

/// The first failed outcome, or success.
pub open spec fn first_error(outcomes: Seq<Result<(), Error>>) -> Result<(), Error>
    decreases outcomes.len(),
{
    if outcomes.len() == 0 {
        Ok(())
    } else {
        match outcomes[0] {
            Err(e) => Err(e),
            Ok(()) => first_error(outcomes.drop_first()),
        }
    }
}

/// Feeding `a + b` is feeding `a`, then `b`.
pub proof fn lemma_run_events_concat(m: ManagerView, a: Seq<Event>, b: Seq<Event>)
    ensures
        run_events(m, a + b) == (
            run_events(run_events(m, a).0, b).0,
            run_events(m, a).1 + run_events(run_events(m, a).0, b).1,
        ),
    decreases a.len(),
{
    if a.len() == 0 {
        assert(a + b =~= b);
        assert(Seq::<Action>::empty() + run_events(m, b).1 =~= run_events(m, b).1);
    } else {
        let next = m.step_spec(a[0]).0;
        lemma_run_events_concat(next, a.drop_first(), b);
        assert((a + b).drop_first() =~= a.drop_first() + b);
        assert((a + b)[0] == a[0]);
        let x = m.step_spec(a[0]).1;
        let r1 = run_events(next, a.drop_first()).1;
        let r2 = run_events(run_events(next, a.drop_first()).0, b).1;
        assert(seq![x] + (r1 + r2) =~= (seq![x] + r1) + r2);
    }
}

/// While starting, each reported start records the process and asks for the
/// next task, as long as tasks remain.
proof fn lemma_start_loop(m: ManagerView, pids: Seq<u32>)
    requires
        m.phase == Phase::Starting,
        m.cursor + pids.len() < m.tasks.len(),
    ensures
        ({
            let (end, acts) = run_events(m, started(pids));
            &&& acts == spawns(m.cursor + 1, pids.len())
            &&& end.phase == Phase::Starting
            &&& end.cursor == m.cursor + pids.len()
            &&& end.failure == m.failure
            &&& pids.len() > 0 ==> end.spawned == m.cursor + pids.len()
            &&& pids.len() == 0 ==> end.spawned == m.spawned
            &&& end.tasks.len() == m.tasks.len()
            &&& forall|k: int|
                0 <= k < m.tasks.len() ==> #[trigger] end.tasks[k] == if m.cursor <= k < m.cursor
                    + pids.len() {
                    m.tasks[k].spawn_spec(Ok(pids[k - m.cursor])).0
                } else {
                    m.tasks[k]
                }
        }),
    decreases pids.len(),
{
    if pids.len() == 0 {
        assert(spawns(m.cursor + 1, 0) =~= Seq::<Action>::empty());
    } else {
        let next = m.step_spec(Event::Spawned(Ok(pids[0]))).0;
        assert(started(pids)[0] == Event::Spawned(Ok(pids[0])));
        assert(started(pids).drop_first() =~= started(pids.drop_first()));
        lemma_start_loop(next, pids.drop_first());
        let acts = run_events(m, started(pids)).1;
        assert(acts =~= spawns(m.cursor + 1, pids.len()));
        let end = run_events(m, started(pids)).0;
        assert forall|k: int| 0 <= k < m.tasks.len() implies #[trigger] end.tasks[k] == if m.cursor
            <= k < m.cursor + pids.len() {
            m.tasks[k].spawn_spec(Ok(pids[k - m.cursor])).0
        } else {
            m.tasks[k]
        } by {
            if m.cursor + 1 <= k < m.cursor + pids.len() {
                assert(pids.drop_first()[k - next.cursor] == pids[k - m.cursor]);
            }
        }
    }
}

/// While killing, each reported outcome is recorded on the task at the
/// cursor and the next task is asked for; after the last one the run ends.
proof fn lemma_kill_loop(m: ManagerView, outcomes: Seq<Result<(), Error>>, last: nat)
    requires
        m.phase == Phase::ShuttingDown || m.phase == Phase::RollingBack,
        m.phase == Phase::ShuttingDown ==> last == m.tasks.len(),
        m.phase == Phase::RollingBack ==> last == m.spawned && m.failure is Some,
        m.cursor < last <= m.tasks.len(),
        outcomes.len() == last - m.cursor,
        forall|k: int| m.cursor <= k < last ==> #[trigger] m.tasks[k].handle is Some,
    ensures
        ({
            let (end, acts) = run_events(m, killed(outcomes));
            &&& acts == kills(m.cursor + 1, (outcomes.len() - 1) as nat).push(
                Action::Finish(
                    if m.phase == Phase::RollingBack {
                        Err(m.failure->0)
                    } else {
                        match m.failure {
                            Some(e) => Err(e),
                            None => first_error(outcomes),
                        }
                    },
                ),
            )
            &&& end.phase == Phase::Stopped
            &&& end.tasks.len() == m.tasks.len()
            &&& forall|k: int|
                0 <= k < m.tasks.len() ==> #[trigger] end.tasks[k] == if m.cursor <= k < last {
                    m.tasks[k].kill_spec(outcomes[k - m.cursor]).0
                } else {
                    m.tasks[k]
                }
        }),
    decreases outcomes.len(),
{
    let next = m.step_spec(Event::Killed(outcomes[0])).0;
    let a = m.step_spec(Event::Killed(outcomes[0])).1;
    assert(killed(outcomes)[0] == Event::Killed(outcomes[0]));
    assert(killed(outcomes).drop_first() =~= killed(outcomes.drop_first()));
    assert(m.tasks[m.cursor as int].handle is Some);
    assert(m.tasks[m.cursor as int].kill_spec(outcomes[0]).1 == outcomes[0]) by {
        match outcomes[0] {
            Ok(u) => {
                assert(u == ());
            },
            Err(_) => {},
        }
    }
    if outcomes.len() == 1 {
        assert(outcomes.drop_first() =~= Seq::<Result<(), Error>>::empty());
        assert(killed(outcomes.drop_first()) =~= Seq::<Event>::empty());
        assert(run_events(next, killed(outcomes.drop_first())) == (next, Seq::<Action>::empty()));
        assert(first_error(outcomes.drop_first()) == Ok::<(), Error>(()));
        let acts = run_events(m, killed(outcomes)).1;
        assert(acts =~= seq![a]);
        assert(acts =~= kills(m.cursor + 1, 0).push(a));
    } else {
        lemma_kill_loop(next, outcomes.drop_first(), last);
        let rest = run_events(next, killed(outcomes.drop_first())).1;
        let acts = run_events(m, killed(outcomes)).1;
        assert(acts == seq![a] + rest);
        assert(acts =~= kills(m.cursor + 1, (outcomes.len() - 1) as nat).push(acts.last()));
        let end = run_events(m, killed(outcomes)).0;
        assert forall|k: int| 0 <= k < m.tasks.len() implies #[trigger] end.tasks[k] == if m.cursor
            <= k < last {
            m.tasks[k].kill_spec(outcomes[k - m.cursor]).0
        } else {
            m.tasks[k]
        } by {
            if m.cursor + 1 <= k < last {
                assert(outcomes.drop_first()[k - next.cursor] == outcomes[k - m.cursor]);
            }
        }
    }
}

/// Shutdown ordering: after the termination signal, every task is asked to
/// be killed, in spawn order, whatever the outcomes of the earlier requests;
/// then the run ends, with the first failed outcome or with success. Each
/// task ends as its own kill left it: without a process where the request was
/// delivered.
pub proof fn lemma_shutdown_kills_in_order(m: ManagerView, outcomes: Seq<Result<(), Error>>)
    requires
        m.wf(),
        m.phase == Phase::Running,
        outcomes.len() == m.tasks.len(),
    ensures
        ({
            let (end, acts) = run_events(m, seq![Event::Signalled] + killed(outcomes));
            &&& acts == kills(0, m.tasks.len()).push(Action::Finish(first_error(outcomes)))
            &&& end.phase == Phase::Stopped
            &&& end.tasks.len() == m.tasks.len()
            &&& forall|k: int|
                0 <= k < m.tasks.len() ==> #[trigger] end.tasks[k] == m.tasks[k].kill_spec(
                    outcomes[k],
                ).0
            &&& forall|k: int|
                0 <= k < m.tasks.len() ==> (outcomes[k] is Ok <==> #[trigger] end.tasks[k].handle is None)
        }),
{
    let n = m.tasks.len();
    let next = m.step_spec(Event::Signalled).0;
    let a = m.step_spec(Event::Signalled).1;
    lemma_run_events_concat(m, seq![Event::Signalled], killed(outcomes));
    assert(seq![Event::Signalled].drop_first() =~= Seq::<Event>::empty());
    assert(run_events(next, Seq::<Event>::empty()) == (next, Seq::<Action>::empty()));
    assert(run_events(m, seq![Event::Signalled]) == (next, seq![a]));
    let rest = run_events(next, killed(outcomes)).1;
    let acts = run_events(m, seq![Event::Signalled] + killed(outcomes)).1;
    assert(acts == seq![a] + rest);
    if n == 0 {
        assert(killed(outcomes) =~= Seq::<Event>::empty());
        assert(run_events(next, killed(outcomes)) == (next, Seq::<Action>::empty()));
        assert(outcomes =~= Seq::<Result<(), Error>>::empty());
        assert(acts =~= kills(0, n).push(Action::Finish(first_error(outcomes))));
    } else {
        lemma_kill_loop(next, outcomes, n);
        assert(acts =~= kills(0, n).push(Action::Finish(first_error(outcomes))));
    }
}

/// All-or-nothing startup: when the task at `pids.len()` fails to spawn after
/// the ones before it started, those are asked to be killed, in spawn order,
/// and the run ends with the spawn error. No task is asked to be started after
/// the failure, and none that never started is asked to be killed; every task
/// whose kill was delivered is left without a process, so with all of them
/// delivered no process of the run remains.
pub proof fn lemma_failed_start_rolls_back(
    m: ManagerView,
    pids: Seq<u32>,
    err: Error,
    outcomes: Seq<Result<(), Error>>,
)
    requires
        m.wf(),
        m.phase == Phase::InstallingHandler,
        pids.len() < m.tasks.len(),
        outcomes.len() == pids.len(),
    ensures
        ({
            let events = seq![Event::HandlerInstalled(Ok(()))] + started(pids) + seq![
                Event::Spawned(Err(err)),
            ] + killed(outcomes);
            let (end, acts) = run_events(m, events);
            &&& acts == spawns(0, pids.len() + 1) + kills(0, pids.len()) + seq![
                Action::Finish(Err(err)),
            ]
            &&& end.phase == Phase::Stopped
            &&& end.tasks.len() == m.tasks.len()
            &&& forall|k: int|
                0 <= k < pids.len() ==> #[trigger] end.tasks[k].handle == if outcomes[k] is Ok {
                    None
                } else {
                    Some(pids[k])
                }
            &&& forall|k: int| pids.len() <= k < m.tasks.len() ==> #[trigger] end.tasks[k] == m.tasks[k]
        }),
{
    let n = m.tasks.len();
    let kk = pids.len();
    let e0 = seq![Event::HandlerInstalled(Ok(()))];
    let e1 = started(pids);
    let e2 = seq![Event::Spawned(Err(err))];
    let e3 = killed(outcomes);
    let m1 = m.step_spec(Event::HandlerInstalled(Ok(()))).0;
    assert(e0.drop_first() =~= Seq::<Event>::empty());
    assert(run_events(m1, Seq::<Event>::empty()) == (m1, Seq::<Action>::empty()));
    assert(run_events(m, e0) == (m1, seq![Action::Spawn(0)]));
    lemma_start_loop(m1, pids);
    let m2 = run_events(m1, e1).0;
    let m3 = m2.step_spec(Event::Spawned(Err(err))).0;
    let a3 = m2.step_spec(Event::Spawned(Err(err))).1;
    assert(e2.drop_first() =~= Seq::<Event>::empty());
    assert(run_events(m3, Seq::<Event>::empty()) == (m3, Seq::<Action>::empty()));
    assert(run_events(m2, e2) == (m3, seq![a3]));
    lemma_run_events_concat(m, e0, e1);
    lemma_run_events_concat(m, e0 + e1, e2);
    lemma_run_events_concat(m, e0 + e1 + e2, e3);
    assert(m3.tasks =~= m2.tasks);
    assert forall|k: int| 0 <= k < kk implies #[trigger] m3.tasks[k].handle == Some(pids[k]) by {
        assert(m2.tasks[k] == m1.tasks[k].spawn_spec(Ok(pids[k])).0);
    }
    let acts = run_events(m, e0 + e1 + e2 + e3).1;
    let end = run_events(m, e0 + e1 + e2 + e3).0;
    assert(acts == seq![Action::Spawn(0)] + spawns(1, kk) + seq![a3] + run_events(m3, e3).1);
    if kk == 0 {
        assert(outcomes =~= Seq::<Result<(), Error>>::empty());
        assert(e3 =~= Seq::<Event>::empty());
        assert(run_events(m3, e3) == (m3, Seq::<Action>::empty()));
        assert(acts =~= spawns(0, 1) + kills(0, 0) + seq![Action::Finish(Err(err))]);
    } else {
        lemma_kill_loop(m3, outcomes, kk);
        assert(acts =~= spawns(0, kk + 1) + kills(0, kk) + seq![Action::Finish(Err(err))]);
        assert forall|k: int| 0 <= k < kk implies #[trigger] end.tasks[k].handle == if outcomes[k] is Ok {
            None
        } else {
            Some(pids[k])
        } by {
            assert(end.tasks[k] == m3.tasks[k].kill_spec(outcomes[k]).0);
        }
    }
}

} // verus!
