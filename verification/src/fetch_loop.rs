//! The controllable fetch loop.
//!
//! A loop task repeatedly fetches while the shared state says it is running,
//! counts each success, and on its way out — on every exit path — reports
//! itself exited. Stopping is level-triggered: a stop request flips the flag,
//! the next iteration observes it and exits before fetching again; an attempt
//! already under way is allowed to finish.
//!
//! The transport performs the fetches; [`run_scripted_loop`] runs a whole
//! session against a script of iteration events, so that what the loop does
//! to the shared state is stated for every possible session. The law at the
//! bottom pins the stop semantics: after the event that carries a stop
//! request, the loop starts no further fetch.

use vstd::prelude::*;

use crate::digits::dec_digits;
use crate::digits::decimal_string;
use crate::state::FetchState;
use crate::state::StateModel;
use crate::state::StateOp;
use crate::state::state_step;

verus! {

/// What one loop iteration observes: whether a stop request arrived since
/// the last iteration, and whether the fetch attempt, if one is made,
/// succeeds.
#[derive(Clone, Copy, Debug)]
pub struct LoopEvent {
    /// A stop request arrived before this iteration's running check.
    pub stop_requested: bool,
    /// The fetch attempt of this iteration succeeds.
    pub fetch_ok: bool,
}

/// The index of the first event that carries a stop request, or the length
/// of the script when none does.
pub open spec fn first_stop(events: Seq<LoopEvent>) -> nat
    decreases events.len(),
{
    if events.len() == 0 {
        0
    } else if events[0].stop_requested {
        0
    } else {
        1 + first_stop(events.drop_first())
    }
}

/// How many of the events record a successful fetch.
pub open spec fn count_ok(events: Seq<LoopEvent>) -> int
    decreases events.len(),
{
    if events.len() == 0 {
        0
    } else {
        count_ok(events.drop_last()) + (if events.last().fetch_ok {
            1int
        } else {
            0int
        })
    }
}

/// How many fetch attempts a session makes: none when the loop is not
/// running to begin with, otherwise one per event until the first stop
/// request or the end of the script.
pub open spec fn spec_fetch_count(running: bool, events: Seq<LoopEvent>) -> int {
    if !running {
        0
    } else if first_stop(events) < events.len() {
        first_stop(events) as int
    } else {
        events.len() as int
    }
}

/// The start transition of the loop: reset the success counter, set the
/// running flag and count the new loop task — unless a loop is already
/// running, in which case nothing changes and no task may start.
pub fn begin_loop(state: &mut FetchState) -> (started: bool)
    requires
        old(state)@.active < usize::MAX,
    ensures
        started == !old(state)@.running,
        !started ==> final(state)@ == old(state)@,
        started ==> final(state)@ == state_step(
            state_step(old(state)@, StateOp::ResetCount),
            StateOp::Start,
        ),
{
    if state.is_running() {
        return false;
    }
    state.reset_benchmark();
    state.start();
    true
}

/// Run one whole loop session against a script of iteration events. Each
/// iteration first applies a pending stop request, then checks the running
/// flag and exits if it is clear, and otherwise makes one fetch attempt,
/// counting a success. Whatever ends the session — a stop request, the state
/// not running to begin with, or the script running out — the task reports
/// itself exited exactly once.
pub fn run_scripted_loop(state: &mut FetchState, events: &Vec<LoopEvent>) -> (fetches: usize)
    requires
        old(state)@.successes + events@.len() <= usize::MAX,
    ensures
        fetches == spec_fetch_count(old(state)@.running, events@),
        final(state)@.successes == old(state)@.successes + count_ok(
            events@.take(fetches as int),
        ),
        final(state)@.active == (if old(state)@.active > 0 {
            old(state)@.active - 1
        } else {
            0
        }),
        final(state)@.running == (old(state)@.running && first_stop(events@) >= events@.len()),
{
    let ghost m0: StateModel = state@;
    let mut i: usize = 0;
    loop
        invariant_except_break
            i <= events@.len(),
            i <= first_stop(events@),
            m0.successes + events@.len() <= usize::MAX,
            state@.running == m0.running,
            state@.active == m0.active,
            state@.successes == m0.successes + count_ok(events@.take(i as int)),
            0 <= count_ok(events@.take(i as int)) <= i,
            !m0.running ==> i == 0,
        ensures
            i == spec_fetch_count(m0.running, events@),
            state@.active == m0.active,
            state@.successes == m0.successes + count_ok(events@.take(i as int)),
            state@.running == (m0.running && first_stop(events@) >= events@.len()),
        decreases events@.len() - i,
    {
        if i >= events.len() {
            break;
        }
        let ev = events[i];
        if ev.stop_requested {
            state.stop();
            proof {
                lemma_first_stop_found(events@, i as int);
            }
            break;
        }
        if !state.is_running() {
            break;
        }
        proof {
            lemma_first_stop_past(events@, i as int);
            assert(events@.take(i as int + 1).drop_last() =~= events@.take(i as int));
            assert(events@.take(i as int + 1).last() == events@[i as int]);
        }
        if ev.fetch_ok {
            state.increment_image_count();
        }
        i = i + 1;
    }
    state.decrement_task_count();
    i
}

/// When the first stop is at `i` or later and the event at `i` requests a
/// stop, the first stop is exactly `i`.
proof fn lemma_first_stop_found(events: Seq<LoopEvent>, i: int)
    requires
        0 <= i < events.len(),
        first_stop(events) >= i,
        events[i].stop_requested,
    ensures
        first_stop(events) == i,
    decreases events.len(),
{
    if i > 0 {
        lemma_first_stop_found(events.drop_first(), i - 1);
    }
}

/// When the first stop is at `i` or later and the event at `i` requests no
/// stop, the first stop is past `i`.
proof fn lemma_first_stop_past(events: Seq<LoopEvent>, i: int)
    requires
        0 <= i < events.len(),
        first_stop(events) >= i,
        !events[i].stop_requested,
    ensures
        first_stop(events) >= i + 1,
    decreases events.len(),
{
    if i > 0 {
        lemma_first_stop_past(events.drop_first(), i - 1);
    }
}

/// Law: once the event at index `i` of a session carries a stop request, the
/// session makes at most `i` fetch attempts — no new fetch is started after
/// the stop, whatever the state and the rest of the script.
pub proof fn lemma_no_fetch_after_stop(running: bool, events: Seq<LoopEvent>, i: int)
    requires
        0 <= i < events.len(),
        events[i].stop_requested,
    ensures
        spec_fetch_count(running, events) <= i,
    decreases events.len(),
{
    if !running {
    } else if events[0].stop_requested {
    } else {
        lemma_no_fetch_after_stop(running, events.drop_first(), i - 1);
    }
}

/// The benchmark report line for `count` successful fetches in the fixed
/// benchmark window.
pub open spec fn report_text(count: nat) -> Seq<char> {
    "Benchmark result: "@ + dec_digits(count) + " images downloaded in 1 minute."@
}

/// Render the benchmark report for `count` successful fetches.
pub fn benchmark_report(count: u64) -> (r: String)
    ensures
        r@ == report_text(count as nat),
{
    let mut s = String::from_str("Benchmark result: ");
    let num = decimal_string(count);
    s.append(num.as_str());
    s.append(" images downloaded in 1 minute.");
    proof {
        assert(s@ =~= report_text(count as nat));
    }
    s
}

} // verus!
