use crate::thread_state_space::ThreadStateSpace;
use std::time::{Duration, Instant};
use vstd::prelude::*;

verus! {

/// Why a receive gave up.
#[derive(PartialEq, Eq, Structural, Debug, Clone, Copy)]
pub enum RecvTimeoutError {
    Timeout,
    Disconnected,
}

/// What one execution of a pipeline step came to.
pub enum PipelineStepResult {
    SendError,
    RecvTimeoutError(RecvTimeoutError),
    ComputeError(String),
    Success,
}

/// Counts consecutive failures of a thread. Infrastructure failures (sending,
/// receiving) beyond their limit kill the thread; compute failures beyond
/// theirs pause it. A limit of 0 means no limit.
pub struct ThreadErrorCounter {
    max_infrastructure_errors: usize,
    infrastructure_errors_received: usize,
    max_compute_errors: usize,
    compute_errors_received: usize,
}

/// The counter as numbers.
pub struct ErrorCounterView {
    pub max_infrastructure_errors: nat,
    pub infrastructure_errors_received: nat,
    pub max_compute_errors: nat,
    pub compute_errors_received: nat,
}

/// Whether a count has gone beyond its limit; a limit of 0 is never reached.
pub open spec fn limit_exceeded(max: nat, received: nat) -> bool {
    max != 0 && received > max
}

impl View for ThreadErrorCounter {
    type V = ErrorCounterView;

    closed spec fn view(&self) -> ErrorCounterView {
        ErrorCounterView {
            max_infrastructure_errors: self.max_infrastructure_errors as nat,
            infrastructure_errors_received: self.infrastructure_errors_received as nat,
            max_compute_errors: self.max_compute_errors as nat,
            compute_errors_received: self.compute_errors_received as nat,
        }
    }
}

impl ThreadErrorCounter {
    /// A counter with the given limits and no failures counted.
    pub fn new(max_infrastructure_errors: usize, max_compute_errors: usize) -> (c: Self)
        ensures
            c@.max_infrastructure_errors == max_infrastructure_errors,
            c@.max_compute_errors == max_compute_errors,
            c@.infrastructure_errors_received == 0,
            c@.compute_errors_received == 0,
    {
        Self {
            max_compute_errors,
            max_infrastructure_errors,
            infrastructure_errors_received: 0,
            compute_errors_received: 0,
        }
    }

    /// Counts one more infrastructure failure.
    pub fn infrastructure_error(&mut self)
        requires
            old(self)@.infrastructure_errors_received < usize::MAX,
        ensures
            final(self)@ == (ErrorCounterView {
                infrastructure_errors_received: old(self)@.infrastructure_errors_received + 1,
                ..old(self)@
            }),
    {
        self.infrastructure_errors_received = self.infrastructure_errors_received + 1;
    }

    /// Counts one more compute failure.
    pub fn compute_error(&mut self)
        requires
            old(self)@.compute_errors_received < usize::MAX,
        ensures
            final(self)@ == (ErrorCounterView {
                compute_errors_received: old(self)@.compute_errors_received + 1,
                ..old(self)@
            }),
    {
        self.compute_errors_received = self.compute_errors_received + 1;
    }

    /// A success clears both counts.
    pub fn success(&mut self)
        ensures
            final(self)@ == (ErrorCounterView {
                infrastructure_errors_received: 0,
                compute_errors_received: 0,
                ..old(self)@
            }),
    {
        self.infrastructure_errors_received = 0;
        self.compute_errors_received = 0;
    }

    /// Whether compute failures have gone beyond their limit. The id names
    /// the thread in the report.
    pub fn compute_error_lim_check(&mut self, id: &String) -> (r: bool)
        ensures
            final(self)@ == old(self)@,
            r == limit_exceeded(old(self)@.max_compute_errors, old(self)@.compute_errors_received),
    {
        if self.max_compute_errors == 0 {
            false
        } else if self.compute_errors_received > self.max_compute_errors {
            true
        } else {
            false
        }
    }

    /// Whether infrastructure failures have gone beyond their limit. The id
    /// names the thread in the report.
    pub fn infrastructure_error_lim_check(&mut self, id: &String) -> (r: bool)
        ensures
            final(self)@ == old(self)@,
            r == limit_exceeded(
                old(self)@.max_infrastructure_errors,
                old(self)@.infrastructure_errors_received,
            ),
    {
        if self.max_infrastructure_errors == 0 {
            false
        } else if self.infrastructure_errors_received > self.max_infrastructure_errors {
            true
        } else {
            false
        }
    }
}

/// The step behavior that the thread running a state machine must invoke
/// after a transition, or a wait.
#[derive(PartialEq, Eq, Structural, Debug, Clone, Copy)]
pub enum StepHook {
    /// Nothing to do.
    NoAction,
    /// Run the step's kill behavior.
    Kill,
    /// Run the step's pause behavior.
    Pause,
    /// Run the step's start behavior.
    Start,
    /// The request changed nothing: wait the given number of milliseconds.
    Sleep(u64),
}

/// Decides in which state a pipeline thread is and how it reacts to the
/// results of its step and to requests for another state.
pub struct ThreadStateMachine {
    state: ThreadStateSpace,
    error_counter: ThreadErrorCounter,
    no_change_timer: u64,
    id: String,
}

/// The kind of a step result, without its message.
pub enum StepResultKind {
    Send,
    Recv,
    Compute,
    Success,
}

pub open spec fn result_kind(r: PipelineStepResult) -> StepResultKind {
    match r {
        PipelineStepResult::SendError => StepResultKind::Send,
        PipelineStepResult::RecvTimeoutError(_) => StepResultKind::Recv,
        PipelineStepResult::ComputeError(_) => StepResultKind::Compute,
        PipelineStepResult::Success => StepResultKind::Success,
    }
}

/// The machine as plain values.
pub struct StateMachineView {
    pub state: ThreadStateSpace,
    pub counter: ErrorCounterView,
    pub no_change_timer: u64,
}

/// The counter after a result has been counted.
pub open spec fn counted(c: ErrorCounterView, k: StepResultKind) -> ErrorCounterView {
    match k {
        StepResultKind::Send | StepResultKind::Recv => ErrorCounterView {
            infrastructure_errors_received: c.infrastructure_errors_received + 1,
            ..c
        },
        StepResultKind::Compute => ErrorCounterView {
            compute_errors_received: c.compute_errors_received + 1,
            ..c
        },
        StepResultKind::Success => ErrorCounterView {
            infrastructure_errors_received: 0,
            compute_errors_received: 0,
            ..c
        },
    }
}

/// The state after a counted result: infrastructure failures beyond their
/// limit kill, compute failures beyond theirs pause.
pub open spec fn state_after_result(
    s: ThreadStateSpace,
    c: ErrorCounterView,
    k: StepResultKind,
) -> ThreadStateSpace {
    match k {
        StepResultKind::Send | StepResultKind::Recv => if limit_exceeded(
            c.max_infrastructure_errors,
            c.infrastructure_errors_received,
        ) {
            ThreadStateSpace::KILLED
        } else {
            s
        },
        StepResultKind::Compute => if limit_exceeded(c.max_compute_errors, c.compute_errors_received) {
            ThreadStateSpace::PAUSED
        } else {
            s
        },
        StepResultKind::Success => s,
    }
}

/// The hook that goes with a counted result.
pub open spec fn hook_after_result(c: ErrorCounterView, k: StepResultKind) -> StepHook {
    match k {
        StepResultKind::Send | StepResultKind::Recv => if limit_exceeded(
            c.max_infrastructure_errors,
            c.infrastructure_errors_received,
        ) {
            StepHook::Kill
        } else {
            StepHook::NoAction
        },
        StepResultKind::Compute => if limit_exceeded(c.max_compute_errors, c.compute_errors_received) {
            StepHook::Pause
        } else {
            StepHook::NoAction
        },
        StepResultKind::Success => StepHook::NoAction,
    }
}

/// The state after a request for `requested` in state `s`.
pub open spec fn state_after_request(
    s: ThreadStateSpace,
    requested: ThreadStateSpace,
) -> ThreadStateSpace {
    match requested {
        ThreadStateSpace::KILLED => ThreadStateSpace::KILLED,
        ThreadStateSpace::PAUSED => match s {
            ThreadStateSpace::RUNNING => ThreadStateSpace::PAUSED,
            _ => s,
        },
        ThreadStateSpace::RUNNING => match s {
            ThreadStateSpace::PAUSED => ThreadStateSpace::RUNNING,
            _ => s,
        },
    }
}

/// The hook that goes with a request for `requested` in state `s`: the
/// behavior of the state entered, or a wait where nothing changes (but a run
/// request while running, which asks for nothing).
pub open spec fn hook_after_request(
    s: ThreadStateSpace,
    requested: ThreadStateSpace,
    timer: u64,
) -> StepHook {
    match requested {
        ThreadStateSpace::KILLED => match s {
            ThreadStateSpace::KILLED => StepHook::Sleep(timer),
            _ => StepHook::Kill,
        },
        ThreadStateSpace::PAUSED => match s {
            ThreadStateSpace::RUNNING => StepHook::Pause,
            _ => StepHook::Sleep(timer),
        },
        ThreadStateSpace::RUNNING => match s {
            ThreadStateSpace::RUNNING => StepHook::NoAction,
            ThreadStateSpace::PAUSED => StepHook::Start,
            ThreadStateSpace::KILLED => StepHook::Sleep(timer),
        },
    }
}

impl View for ThreadStateMachine {
    type V = StateMachineView;

    closed spec fn view(&self) -> StateMachineView {
        StateMachineView {
            state: self.state,
            counter: self.error_counter@,
            no_change_timer: self.no_change_timer,
        }
    }
}

/// The counts a result can raise are below the machine limit.
pub open spec fn can_count(c: ErrorCounterView) -> bool {
    &&& c.infrastructure_errors_received < usize::MAX
    &&& c.compute_errors_received < usize::MAX
}

impl ThreadStateMachine {
    /// The name of the thread.
    pub closed spec fn spec_id(&self) -> Seq<char> {
        self.id@
    }

    /// A machine in the paused state with no failures counted.
    pub fn new(
        max_infrastructure_errors: usize,
        max_compute_errors: usize,
        unchanged_state_time: u64,
        id: String,
    ) -> (m: Self)
        ensures
            m@.state == ThreadStateSpace::PAUSED,
            m@.counter == (ErrorCounterView {
                max_infrastructure_errors: max_infrastructure_errors as nat,
                infrastructure_errors_received: 0,
                max_compute_errors: max_compute_errors as nat,
                compute_errors_received: 0,
            }),
            m@.no_change_timer == unchanged_state_time,
            m.spec_id() == id@,
    {
        let error_counter = ThreadErrorCounter::new(max_infrastructure_errors, max_compute_errors);
        Self { error_counter, state: ThreadStateSpace::PAUSED, id, no_change_timer: unchanged_state_time }
    }

    /// Counts the result of one execution of the step and, where a limit is
    /// passed, leaves the running state: the returned hook names the step
    /// behavior to invoke.
    pub fn evaluate_step_result(&mut self, output: &PipelineStepResult) -> (hook: StepHook)
        requires
            can_count(old(self)@.counter),
        ensures
            final(self)@.counter == counted(old(self)@.counter, result_kind(*output)),
            final(self)@.state == state_after_result(
                old(self)@.state,
                final(self)@.counter,
                result_kind(*output),
            ),
            hook == hook_after_result(final(self)@.counter, result_kind(*output)),
            final(self)@.no_change_timer == old(self)@.no_change_timer,
            final(self).spec_id() == old(self).spec_id(),
    {
        match output {
            PipelineStepResult::SendError => {
                self.error_counter.infrastructure_error();
                if self.error_counter.infrastructure_error_lim_check(&self.id) {
                    self.set_kill_state()
                } else {
                    StepHook::NoAction
                }
            },
            PipelineStepResult::RecvTimeoutError(_) => {
                self.error_counter.infrastructure_error();
                if self.error_counter.infrastructure_error_lim_check(&self.id) {
                    self.set_kill_state()
                } else {
                    StepHook::NoAction
                }
            },
            PipelineStepResult::ComputeError(_) => {
                self.error_counter.compute_error();
                if self.error_counter.compute_error_lim_check(&self.id) {
                    self.set_pause_state()
                } else {
                    StepHook::NoAction
                }
            },
            PipelineStepResult::Success => {
                self.error_counter.success();
                StepHook::NoAction
            },
        }
    }

    /// Enters the killed state.
    pub fn set_kill_state(&mut self) -> (hook: StepHook)
        ensures
            final(self)@ == (StateMachineView { state: ThreadStateSpace::KILLED, ..old(self)@ }),
            final(self).spec_id() == old(self).spec_id(),
            hook == StepHook::Kill,
    {
        self.state = ThreadStateSpace::KILLED;
        StepHook::Kill
    }

    /// Enters the paused state.
    pub fn set_pause_state(&mut self) -> (hook: StepHook)
        ensures
            final(self)@ == (StateMachineView { state: ThreadStateSpace::PAUSED, ..old(self)@ }),
            final(self).spec_id() == old(self).spec_id(),
            hook == StepHook::Pause,
    {
        self.state = ThreadStateSpace::PAUSED;
        StepHook::Pause
    }

    /// Enters the running state.
    pub fn set_running_state(&mut self) -> (hook: StepHook)
        ensures
            final(self)@ == (StateMachineView { state: ThreadStateSpace::RUNNING, ..old(self)@ }),
            final(self).spec_id() == old(self).spec_id(),
            hook == StepHook::Start,
    {
        self.state = ThreadStateSpace::RUNNING;
        StepHook::Start
    }

    fn kill_request_handler(&mut self) -> (hook: StepHook)
        ensures
            final(self)@ == (StateMachineView {
                state: state_after_request(old(self)@.state, ThreadStateSpace::KILLED),
                ..old(self)@
            }),
            final(self).spec_id() == old(self).spec_id(),
            hook == hook_after_request(
                old(self)@.state,
                ThreadStateSpace::KILLED,
                old(self)@.no_change_timer,
            ),
    {
        if self.state != ThreadStateSpace::KILLED {
            self.set_kill_state()
        } else {
            StepHook::Sleep(self.no_change_timer)
        }
    }

    fn pause_request_handler(&mut self) -> (hook: StepHook)
        ensures
            final(self)@ == (StateMachineView {
                state: state_after_request(old(self)@.state, ThreadStateSpace::PAUSED),
                ..old(self)@
            }),
            final(self).spec_id() == old(self).spec_id(),
            hook == hook_after_request(
                old(self)@.state,
                ThreadStateSpace::PAUSED,
                old(self)@.no_change_timer,
            ),
    {
        match self.state {
            ThreadStateSpace::PAUSED => StepHook::Sleep(self.no_change_timer),
            ThreadStateSpace::RUNNING => self.set_pause_state(),
            ThreadStateSpace::KILLED => StepHook::Sleep(self.no_change_timer),
        }
    }

    fn running_request_handler(&mut self) -> (hook: StepHook)
        ensures
            final(self)@ == (StateMachineView {
                state: state_after_request(old(self)@.state, ThreadStateSpace::RUNNING),
                ..old(self)@
            }),
            final(self).spec_id() == old(self).spec_id(),
            hook == hook_after_request(
                old(self)@.state,
                ThreadStateSpace::RUNNING,
                old(self)@.no_change_timer,
            ),
    {
        match self.state {
            ThreadStateSpace::RUNNING => StepHook::NoAction,
            ThreadStateSpace::PAUSED => self.set_running_state(),
            ThreadStateSpace::KILLED => StepHook::Sleep(self.no_change_timer),
        }
    }

    /// Runs `body` (one execution of the step) only in the running state,
    /// and counts its result. Outside the running state nothing runs and
    /// `Err(())` comes back.
    pub fn call<F: FnOnce() -> PipelineStepResult>(&mut self, body: F) -> (res: (
        Result<PipelineStepResult, ()>,
        StepHook,
    ))
        requires
            old(self)@.state == ThreadStateSpace::RUNNING ==> call_requires(body, ()),
            can_count(old(self)@.counter),
        ensures
            old(self)@.state != ThreadStateSpace::RUNNING ==> {
                &&& res.0 is Err
                &&& res.1 == StepHook::NoAction
                &&& final(self)@ == old(self)@
            },
            old(self)@.state == ThreadStateSpace::RUNNING ==> {
                &&& res.0 is Ok
                &&& call_ensures(body, (), res.0->Ok_0)
                &&& final(self)@.counter == counted(
                    old(self)@.counter,
                    result_kind(res.0->Ok_0),
                )
                &&& final(self)@.state == state_after_result(
                    old(self)@.state,
                    final(self)@.counter,
                    result_kind(res.0->Ok_0),
                )
                &&& res.1 == hook_after_result(final(self)@.counter, result_kind(res.0->Ok_0))
                &&& final(self)@.no_change_timer == old(self)@.no_change_timer
            },
            final(self).spec_id() == old(self).spec_id(),
    {
        match self.state {
            ThreadStateSpace::RUNNING => {
                let res = body();
                let hook = self.evaluate_step_result(&res);
                (Ok(res), hook)
            },
            _ => (Err(()), StepHook::NoAction),
        }
    }

    /// Reacts to a request for another state: a kill request always kills,
    /// a pause request pauses a running thread, a run request restarts a
    /// paused one; a killed thread stays killed.
    pub fn state_transition(&mut self, requested_state: ThreadStateSpace) -> (hook: StepHook)
        ensures
            final(self)@ == (StateMachineView {
                state: state_after_request(old(self)@.state, requested_state),
                ..old(self)@
            }),
            final(self).spec_id() == old(self).spec_id(),
            hook == hook_after_request(old(self)@.state, requested_state, old(self)@.no_change_timer),
    {
        if requested_state == ThreadStateSpace::KILLED {
            self.kill_request_handler()
        } else {
            match requested_state {
                ThreadStateSpace::PAUSED => self.pause_request_handler(),
                ThreadStateSpace::RUNNING => self.running_request_handler(),
                ThreadStateSpace::KILLED => StepHook::NoAction,
            }
        }
    }

    /// The current state.
    pub fn get_current_state(&self) -> (s: ThreadStateSpace)
        ensures
            s == self@.state,
    {
        self.state
    }
}

/// The current point of the monotonic clock (`Instant::now`).
#[verifier::external_body]
fn clock_now() -> Instant {
    Instant::now()
}

/// The time passed since `start` (`Instant::elapsed`). It depends on the
/// clock, so nothing is stated of it.
#[verifier::external_body]
fn elapsed_since(start: &Instant) -> Duration {
    start.elapsed()
}

/// The whole microseconds of `d` (`Duration::as_micros`). A `Duration` is
/// opaque here, so nothing is stated of the number.
#[verifier::external_body]
fn whole_micros(d: &Duration) -> u128 {
    d.as_micros()
}

/// A thread of the thread-per-node model: its state machine, the result of
/// its last step and how long that step took.
pub struct PipelineThread {
    pub execution_time: u64,
    pub return_code: PipelineStepResult,
    pub id: String,
    pub thread_state_machine: ThreadStateMachine,
}

impl PipelineThread {
    /// The thread's state machine.
    pub closed spec fn machine(&self) -> StateMachineView {
        self.thread_state_machine@
    }

    /// A paused thread named `id` whose last result counts as a success.
    pub fn new(
        id: String,
        max_infrastructure_errors: usize,
        max_compute_errors: usize,
        unchanged_state_time: u64,
    ) -> (t: Self)
        ensures
            t.execution_time == 0,
            t.return_code == PipelineStepResult::Success,
            t.id@ == id@,
            t.machine().state == ThreadStateSpace::PAUSED,
            t.machine().counter == (ErrorCounterView {
                max_infrastructure_errors: max_infrastructure_errors as nat,
                infrastructure_errors_received: 0,
                max_compute_errors: max_compute_errors as nat,
                compute_errors_received: 0,
            }),
            t.machine().no_change_timer == unchanged_state_time,
    {
        let machine_id = id.clone();
        PipelineThread {
            execution_time: 0,
            return_code: PipelineStepResult::Success,
            id,
            thread_state_machine: ThreadStateMachine::new(
                max_infrastructure_errors,
                max_compute_errors,
                unchanged_state_time,
                machine_id,
            ),
        }
    }

    /// Passes a request for another state to the state machine; the hook
    /// names the step behavior to invoke.
    pub fn request_state_change(&mut self, requested_state: ThreadStateSpace) -> (hook: StepHook)
        ensures
            final(self).machine() == (StateMachineView {
                state: state_after_request(old(self).machine().state, requested_state),
                ..old(self).machine()
            }),
            hook == hook_after_request(
                old(self).machine().state,
                requested_state,
                old(self).machine().no_change_timer,
            ),
            final(self).return_code == old(self).return_code,
            final(self).execution_time == old(self).execution_time,
            final(self).id == old(self).id,
    {
        self.thread_state_machine.state_transition(requested_state)
    }

    /// One turn of the thread's loop. A killed thread does nothing. Else the
    /// step (`body`) runs where the thread is running, its result is counted
    /// and kept as the last result, and the time the turn took is recorded;
    /// a thread that is not running keeps its last result.
    pub fn call_thread<F: FnOnce() -> PipelineStepResult>(&mut self, body: F) -> (hook: StepHook)
        requires
            old(self).machine().state == ThreadStateSpace::RUNNING ==> call_requires(body, ()),
            can_count(old(self).machine().counter),
        ensures
            final(self).id == old(self).id,
            old(self).machine().state != ThreadStateSpace::RUNNING ==> {
                &&& final(self).machine() == old(self).machine()
                &&& final(self).return_code == old(self).return_code
                &&& hook == StepHook::NoAction
            },
            old(self).machine().state == ThreadStateSpace::KILLED ==> final(self).execution_time
                == old(self).execution_time,
            old(self).machine().state == ThreadStateSpace::RUNNING ==> {
                &&& call_ensures(body, (), final(self).return_code)
                &&& final(self).machine().counter == counted(
                    old(self).machine().counter,
                    result_kind(final(self).return_code),
                )
                &&& final(self).machine().state == state_after_result(
                    ThreadStateSpace::RUNNING,
                    final(self).machine().counter,
                    result_kind(final(self).return_code),
                )
                &&& hook == hook_after_result(
                    final(self).machine().counter,
                    result_kind(final(self).return_code),
                )
                &&& final(self).machine().no_change_timer == old(self).machine().no_change_timer
            },
    {
        if self.thread_state_machine.get_current_state() == ThreadStateSpace::KILLED {
            return StepHook::NoAction;
        }
        let start_time = clock_now();
        let (outcome, hook) = self.thread_state_machine.call(body);
        match outcome {
            Ok(code) => self.return_code = code,
            Err(_) => {},
        }
        let micros = whole_micros(&elapsed_since(&start_time));
        self.execution_time = #[verifier::truncate] (micros as u64);
        hook
    }
}

/// Once killed, a thread stays killed whatever state is requested.
pub proof fn lemma_killed_is_final(requested: ThreadStateSpace)
    ensures
        state_after_request(ThreadStateSpace::KILLED, requested) == ThreadStateSpace::KILLED,
{
}

/// A kill request kills from every state.
pub proof fn lemma_kill_request_kills(s: ThreadStateSpace)
    ensures
        state_after_request(s, ThreadStateSpace::KILLED) == ThreadStateSpace::KILLED,
{
}

/// Requesting the state a thread is already in changes nothing.
pub proof fn lemma_request_current_state_is_identity(s: ThreadStateSpace)
    ensures
        state_after_request(s, s) == s,
{
}

/// Pausing a running thread and then requesting it to run brings it back to
/// running; running a paused thread and then pausing it brings it back to
/// paused.
pub proof fn lemma_pause_then_run_round_trip()
    ensures
        state_after_request(
            state_after_request(ThreadStateSpace::RUNNING, ThreadStateSpace::PAUSED),
            ThreadStateSpace::RUNNING,
        ) == ThreadStateSpace::RUNNING,
        state_after_request(
            state_after_request(ThreadStateSpace::PAUSED, ThreadStateSpace::RUNNING),
            ThreadStateSpace::PAUSED,
        ) == ThreadStateSpace::PAUSED,
{
}

/// A success clears both failure counts and never changes the state.
pub proof fn lemma_success_resets(s: ThreadStateSpace, c: ErrorCounterView)
    ensures
        counted(c, StepResultKind::Success).infrastructure_errors_received == 0,
        counted(c, StepResultKind::Success).compute_errors_received == 0,
        state_after_result(s, counted(c, StepResultKind::Success), StepResultKind::Success) == s,
{
}

/// With a limit of 0, failures never kill nor pause the thread.
pub proof fn lemma_zero_limits_never_stop(s: ThreadStateSpace, c: ErrorCounterView, k: StepResultKind)
    requires
        c.max_infrastructure_errors == 0,
        c.max_compute_errors == 0,
    ensures
        state_after_result(s, counted(c, k), k) == s,
{
}

/// With a positive limit `m`, a running thread is killed by the infrastructure
/// failure that makes `m + 1` consecutive ones, and not before.
pub proof fn lemma_infrastructure_limit(c: ErrorCounterView, k: StepResultKind)
    requires
        c.max_infrastructure_errors > 0,
        k == StepResultKind::Send || k == StepResultKind::Recv,
    ensures
        state_after_result(ThreadStateSpace::RUNNING, counted(c, k), k) == ThreadStateSpace::KILLED
            <==> c.infrastructure_errors_received >= c.max_infrastructure_errors,
{
}

/// With a positive limit `m`, a running thread is paused by the compute
/// failure that makes `m + 1` consecutive ones, and not before.
pub proof fn lemma_compute_limit(c: ErrorCounterView)
    requires
        c.max_compute_errors > 0,
    ensures
        state_after_result(ThreadStateSpace::RUNNING, counted(c, StepResultKind::Compute), StepResultKind::Compute)
            == ThreadStateSpace::PAUSED <==> c.compute_errors_received >= c.max_compute_errors,
{
}

} // verus!
