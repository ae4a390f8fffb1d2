use zubr_pipeline::pipeline_thread::{
    PipelineStepResult, PipelineThread, RecvTimeoutError, StepHook, ThreadErrorCounter,
    ThreadStateMachine,
};
use zubr_pipeline::thread_state_space::ThreadStateSpace;

fn id() -> String {
    "t0".to_string()
}

#[test]
fn error_counter_limits() {
    let name = id();
    let mut counter = ThreadErrorCounter::new(2, 1);
    counter.infrastructure_error();
    counter.infrastructure_error();
    assert!(!counter.infrastructure_error_lim_check(&name));
    counter.infrastructure_error();
    assert!(counter.infrastructure_error_lim_check(&name));
    counter.compute_error();
    assert!(!counter.compute_error_lim_check(&name));
    counter.compute_error();
    assert!(counter.compute_error_lim_check(&name));
    counter.success();
    assert!(!counter.infrastructure_error_lim_check(&name));
    assert!(!counter.compute_error_lim_check(&name));
}

#[test]
fn zero_limit_is_never_reached() {
    let name = id();
    let mut counter = ThreadErrorCounter::new(0, 0);
    for _ in 0..100 {
        counter.infrastructure_error();
        counter.compute_error();
    }
    assert!(!counter.infrastructure_error_lim_check(&name));
    assert!(!counter.compute_error_lim_check(&name));
}

#[test]
fn machine_starts_paused_and_answers_requests() {
    let mut m = ThreadStateMachine::new(1, 1, 25, id());
    assert_eq!(m.get_current_state(), ThreadStateSpace::PAUSED);
    assert_eq!(m.state_transition(ThreadStateSpace::PAUSED), StepHook::Sleep(25));
    assert_eq!(m.state_transition(ThreadStateSpace::RUNNING), StepHook::Start);
    assert_eq!(m.get_current_state(), ThreadStateSpace::RUNNING);
    assert_eq!(m.state_transition(ThreadStateSpace::RUNNING), StepHook::NoAction);
    assert_eq!(m.state_transition(ThreadStateSpace::PAUSED), StepHook::Pause);
    assert_eq!(m.get_current_state(), ThreadStateSpace::PAUSED);
    assert_eq!(m.state_transition(ThreadStateSpace::KILLED), StepHook::Kill);
    assert_eq!(m.get_current_state(), ThreadStateSpace::KILLED);
    assert_eq!(m.state_transition(ThreadStateSpace::RUNNING), StepHook::Sleep(25));
    assert_eq!(m.state_transition(ThreadStateSpace::PAUSED), StepHook::Sleep(25));
    assert_eq!(m.state_transition(ThreadStateSpace::KILLED), StepHook::Sleep(25));
    assert_eq!(m.get_current_state(), ThreadStateSpace::KILLED);
}

#[test]
fn infrastructure_errors_beyond_the_limit_kill() {
    let mut m = ThreadStateMachine::new(1, 0, 5, id());
    m.set_running_state();
    assert_eq!(m.evaluate_step_result(&PipelineStepResult::SendError), StepHook::NoAction);
    assert_eq!(m.get_current_state(), ThreadStateSpace::RUNNING);
    assert_eq!(
        m.evaluate_step_result(&PipelineStepResult::RecvTimeoutError(RecvTimeoutError::Timeout)),
        StepHook::Kill
    );
    assert_eq!(m.get_current_state(), ThreadStateSpace::KILLED);
}

#[test]
fn compute_errors_beyond_the_limit_pause() {
    let mut m = ThreadStateMachine::new(0, 2, 5, id());
    m.set_running_state();
    let err = || PipelineStepResult::ComputeError("bad".to_string());
    assert_eq!(m.evaluate_step_result(&err()), StepHook::NoAction);
    assert_eq!(m.evaluate_step_result(&err()), StepHook::NoAction);
    assert_eq!(m.evaluate_step_result(&err()), StepHook::Pause);
    assert_eq!(m.get_current_state(), ThreadStateSpace::PAUSED);
}

#[test]
fn success_clears_the_failure_counts() {
    let mut m = ThreadStateMachine::new(1, 0, 5, id());
    m.set_running_state();
    m.evaluate_step_result(&PipelineStepResult::SendError);
    assert_eq!(m.evaluate_step_result(&PipelineStepResult::Success), StepHook::NoAction);
    assert_eq!(m.evaluate_step_result(&PipelineStepResult::SendError), StepHook::NoAction);
    assert_eq!(m.get_current_state(), ThreadStateSpace::RUNNING);
}

#[test]
fn step_runs_only_in_the_running_state() {
    let mut m = ThreadStateMachine::new(0, 0, 5, id());
    let (res, hook) = m.call(|| PipelineStepResult::Success);
    assert!(res.is_err());
    assert_eq!(hook, StepHook::NoAction);
    m.set_running_state();
    let (res, hook) = m.call(|| PipelineStepResult::SendError);
    assert!(matches!(res, Ok(PipelineStepResult::SendError)));
    assert_eq!(hook, StepHook::NoAction);
}

#[test]
fn pipeline_thread_keeps_the_last_result() {
    let mut t = PipelineThread::new(id(), 1, 1, 10);
    assert_eq!(t.id, "t0");
    assert_eq!(t.execution_time, 0);
    assert!(matches!(t.return_code, PipelineStepResult::Success));

    // paused: the step does not run and the last result stays
    let hook = t.call_thread(|| panic!("a paused thread must not run its step"));
    assert_eq!(hook, StepHook::NoAction);
    assert!(matches!(t.return_code, PipelineStepResult::Success));

    assert_eq!(t.request_state_change(ThreadStateSpace::RUNNING), StepHook::Start);
    let hook = t.call_thread(|| PipelineStepResult::ComputeError("x".to_string()));
    assert_eq!(hook, StepHook::NoAction);
    assert!(matches!(t.return_code, PipelineStepResult::ComputeError(ref m) if m == "x"));
    let hook = t.call_thread(|| PipelineStepResult::ComputeError("y".to_string()));
    assert_eq!(hook, StepHook::Pause);
    assert_eq!(t.thread_state_machine.get_current_state(), ThreadStateSpace::PAUSED);
}

#[test]
fn killed_thread_does_nothing() {
    let mut t = PipelineThread::new(id(), 0, 0, 10);
    assert_eq!(t.request_state_change(ThreadStateSpace::KILLED), StepHook::Kill);
    let hook = t.call_thread(|| panic!("a killed thread must not run its step"));
    assert_eq!(hook, StepHook::NoAction);
    assert_eq!(t.execution_time, 0);
}
