use fetchloop::state::FetchState;

#[test]
fn fresh_state_is_idle() {
    let s = FetchState::new();
    assert!(!s.is_running());
    assert_eq!(s.get_task_count(), 0);
    assert_eq!(s.get_benchmark_result(), 0);
}

#[test]
fn start_sets_running_and_counts_a_task() {
    let mut s = FetchState::new();
    s.start();
    assert!(s.is_running());
    assert_eq!(s.get_task_count(), 1);
}

#[test]
fn stop_is_idempotent() {
    let mut s = FetchState::new();
    s.start();
    s.stop();
    assert!(!s.is_running());
    assert_eq!(s.get_task_count(), 1);
    s.stop();
    assert!(!s.is_running());
    assert_eq!(s.get_task_count(), 1);
}

#[test]
fn active_tasks_equal_unmatched_starts() {
    let mut s = FetchState::new();
    s.start();
    s.start();
    assert_eq!(s.get_task_count(), 2);
    s.decrement_task_count();
    assert_eq!(s.get_task_count(), 1);
    s.decrement_task_count();
    assert_eq!(s.get_task_count(), 0);
}

#[test]
fn unmatched_exit_never_goes_negative() {
    let mut s = FetchState::new();
    s.decrement_task_count();
    assert_eq!(s.get_task_count(), 0);
    s.start();
    s.decrement_task_count();
    s.decrement_task_count();
    assert_eq!(s.get_task_count(), 0);
}

#[test]
fn success_counter_increments_and_resets() {
    let mut s = FetchState::new();
    s.increment_image_count();
    s.increment_image_count();
    s.increment_image_count();
    assert_eq!(s.get_benchmark_result(), 3);
    s.reset_benchmark();
    assert_eq!(s.get_benchmark_result(), 0);
}
