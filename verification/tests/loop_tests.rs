use fetchloop::fetch_loop::LoopEvent;
use fetchloop::fetch_loop::begin_loop;
use fetchloop::fetch_loop::benchmark_report;
use fetchloop::fetch_loop::run_scripted_loop;
use fetchloop::state::FetchState;

fn ok() -> LoopEvent {
    LoopEvent { stop_requested: false, fetch_ok: true }
}

fn failed() -> LoopEvent {
    LoopEvent { stop_requested: false, fetch_ok: false }
}

fn stop() -> LoopEvent {
    LoopEvent { stop_requested: true, fetch_ok: true }
}

#[test]
fn begin_loop_starts_once() {
    let mut state = FetchState::new();
    assert!(begin_loop(&mut state));
    assert!(state.is_running());
    assert_eq!(state.get_task_count(), 1);
    assert!(!begin_loop(&mut state));
    assert_eq!(state.get_task_count(), 1);
}

#[test]
fn window_counts_successes_and_exits_cleanly() {
    let mut state = FetchState::new();
    assert!(begin_loop(&mut state));
    let events = vec![ok(), ok(), failed(), stop()];
    let fetches = run_scripted_loop(&mut state, &events);
    assert_eq!(fetches, 3);
    assert!(state.get_benchmark_result() >= 1);
    assert_eq!(state.get_benchmark_result(), 2);
    assert_eq!(state.get_task_count(), 0);
    assert!(!state.is_running());
}

#[test]
fn stop_before_the_first_iteration_fetches_nothing() {
    let mut state = FetchState::new();
    assert!(begin_loop(&mut state));
    let events = vec![stop(), ok(), ok()];
    let fetches = run_scripted_loop(&mut state, &events);
    assert_eq!(fetches, 0);
    assert_eq!(state.get_benchmark_result(), 0);
    assert_eq!(state.get_task_count(), 0);
}

#[test]
fn no_fetch_after_a_stop_request() {
    let mut state = FetchState::new();
    assert!(begin_loop(&mut state));
    let events = vec![ok(), stop(), ok(), ok()];
    let fetches = run_scripted_loop(&mut state, &events);
    assert_eq!(fetches, 1);
    assert_eq!(state.get_benchmark_result(), 1);
    assert!(!state.is_running());
}

#[test]
fn a_loop_never_started_fetches_nothing() {
    let mut state = FetchState::new();
    let events = vec![ok(), ok()];
    let fetches = run_scripted_loop(&mut state, &events);
    assert_eq!(fetches, 0);
    assert_eq!(state.get_benchmark_result(), 0);
    assert_eq!(state.get_task_count(), 0);
}

#[test]
fn an_exhausted_script_still_reports_the_exit() {
    let mut state = FetchState::new();
    assert!(begin_loop(&mut state));
    let events = vec![ok()];
    let fetches = run_scripted_loop(&mut state, &events);
    assert_eq!(fetches, 1);
    assert!(state.is_running());
    assert_eq!(state.get_task_count(), 0);
}

#[test]
fn benchmark_report_names_the_count() {
    assert_eq!(benchmark_report(42), "Benchmark result: 42 images downloaded in 1 minute.");
    assert_eq!(benchmark_report(0), "Benchmark result: 0 images downloaded in 1 minute.");
}
