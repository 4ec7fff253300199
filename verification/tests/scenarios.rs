use stress_harness::errors::HarnessError;
use stress_harness::machine::{advance, start_run, Action, Event, State};
use stress_harness::workspace::WorkspaceModel;

/// Drives a whole run against scripted collaborator doubles and returns the
/// final state together with every action the machine asked for, in order.
///
/// `fetch` is the outcome of the one archive fetch; the three closures give
/// the outcome of the reset, extraction and link call of each iteration,
/// by zero-based index.
fn drive(
    url: &str,
    rounds: u64,
    fetch: Event,
    reset_ok: &mut dyn FnMut(u64) -> bool,
    extract_ok: &mut dyn FnMut(u64) -> bool,
    link_ok: &mut dyn FnMut(u64) -> bool,
) -> (State, Vec<Action>) {
    let (mut state, mut pending) = start_run(url, rounds);
    let mut trace: Vec<Action> = Vec::new();
    let mut resets_done: u64 = 0;
    let mut extracts_done: u64 = 0;
    let mut links_done: u64 = 0;
    while !pending.is_empty() {
        let action = pending.remove(0);
        trace.push(action);
        let event = match action {
            Action::FetchArchive => Some(fetch),
            Action::ResetWorkspace => {
                let i = resets_done;
                resets_done += 1;
                Some(if reset_ok(i) { Event::ResetSucceeded } else { Event::ResetFailed })
            }
            Action::ExtractArchive { .. } => {
                let i = extracts_done;
                extracts_done += 1;
                Some(if extract_ok(i) { Event::ExtractSucceeded } else { Event::ExtractFailed })
            }
            Action::LinkPackage => {
                let i = links_done;
                links_done += 1;
                Some(if link_ok(i) { Event::LinkSucceeded } else { Event::LinkFailed })
            }
            Action::PrintBanner { .. } | Action::PrintBlank => None,
        };
        if let Some(e) = event {
            let (next, more) = advance(state, e);
            state = next;
            pending.extend(more);
        }
    }
    (state, trace)
}

fn banner_rounds(trace: &[Action]) -> Vec<u64> {
    trace
        .iter()
        .filter_map(|a| match a {
            Action::PrintBanner { round } => Some(*round),
            _ => None,
        })
        .collect()
}

fn count_resets(trace: &[Action]) -> usize {
    trace.iter().filter(|a| matches!(a, Action::ResetWorkspace)).count()
}

fn count_extracts(trace: &[Action]) -> usize {
    trace.iter().filter(|a| matches!(a, Action::ExtractArchive { .. })).count()
}

fn count_links(trace: &[Action]) -> usize {
    trace.iter().filter(|a| matches!(a, Action::LinkPackage)).count()
}

fn count_fetches(trace: &[Action]) -> usize {
    trace.iter().filter(|a| matches!(a, Action::FetchArchive)).count()
}

const TARBZ2_URL: &str =
    "https://conda.anaconda.org/conda-forge/linux-64/libgfortran-3.0.0-1.tar.bz2";

#[test]
fn scenario_all_success_hundred_rounds() {
    let (state, trace) = drive(
        TARBZ2_URL,
        100,
        Event::FetchSucceeded,
        &mut |_| true,
        &mut |_| true,
        &mut |_| true,
    );
    assert_eq!(state, State::Completed);
    let expected: Vec<u64> = (1..=100).collect();
    assert_eq!(banner_rounds(&trace), expected);
    assert_eq!(count_resets(&trace), 100);
    assert_eq!(count_extracts(&trace), 100);
    assert_eq!(count_links(&trace), 100);
    assert_eq!(count_fetches(&trace), 1);
}

#[test]
fn scenario_zero_rounds_completes_without_iterating() {
    let (state, trace) = drive(
        TARBZ2_URL,
        0,
        Event::FetchSucceeded,
        &mut |_| panic!("no reset expected"),
        &mut |_| panic!("no extraction expected"),
        &mut |_| panic!("no link expected"),
    );
    assert_eq!(state, State::Completed);
    assert_eq!(trace, vec![Action::FetchArchive]);
}

#[test]
fn scenario_leftover_state_aborts_at_first_dirty_round() {
    // The workspace double turns non-idempotent from iteration 3 on: its
    // reset leaves an entry behind.  The extraction double fails exactly
    // when it is invoked on a workspace holding leftover state.
    let workspace = std::cell::RefCell::new(WorkspaceModel::absent());
    let leftovers_from: u64 = 3;
    let (state, trace) = {
        let mut dirty_reset = |i: u64| {
            let mut w = workspace.borrow_mut();
            w.reset();
            if i >= leftovers_from {
                w.deposit(1);
            }
            true
        };
        let mut extract_if_empty = |_i: u64| {
            let mut w = workspace.borrow_mut();
            let clean = w.check_empty();
            if clean {
                w.deposit(5);
            }
            clean
        };
        drive(
            TARBZ2_URL,
            100,
            Event::FetchSucceeded,
            &mut dirty_reset,
            &mut extract_if_empty,
            &mut |_| true,
        )
    };
    assert_eq!(
        state,
        State::Aborted { error: HarnessError::ExtractionError { iteration: 3 } }
    );
    assert_eq!(banner_rounds(&trace), vec![1, 2, 3, 4]);
    assert_eq!(count_extracts(&trace), 4);
    assert_eq!(count_links(&trace), 3);
    assert_eq!(trace.last(), Some(&Action::ExtractArchive { format: stress_harness::format::FormatTag::TarBz2 }));
}

#[test]
fn scenario_unsupported_suffix_aborts_before_any_action() {
    let (state, actions) = start_run("https://example.invalid/archive/package.zip", 100);
    assert_eq!(state, State::Aborted { error: HarnessError::UnsupportedFormat });
    assert!(actions.is_empty());
    let (state, trace) = drive(
        "https://example.invalid/archive/package.zip",
        100,
        Event::FetchSucceeded,
        &mut |_| true,
        &mut |_| true,
        &mut |_| true,
    );
    assert_eq!(state, State::Aborted { error: HarnessError::UnsupportedFormat });
    assert!(trace.is_empty());
}

#[test]
fn scenario_workspace_failure_aborts_first_iteration() {
    let (state, trace) = drive(
        TARBZ2_URL,
        100,
        Event::FetchSucceeded,
        &mut |_| false,
        &mut |_| panic!("extraction must not run after a failed reset"),
        &mut |_| panic!("linking must not run after a failed reset"),
    );
    assert_eq!(
        state,
        State::Aborted { error: HarnessError::WorkspaceError { iteration: 0 } }
    );
    assert_eq!(banner_rounds(&trace), vec![1]);
    assert_eq!(count_extracts(&trace), 0);
    assert_eq!(count_links(&trace), 0);
}

#[test]
fn extraction_failure_skips_link_and_later_rounds() {
    let (state, trace) = drive(
        TARBZ2_URL,
        10,
        Event::FetchSucceeded,
        &mut |_| true,
        &mut |i| i != 2,
        &mut |_| true,
    );
    assert_eq!(
        state,
        State::Aborted { error: HarnessError::ExtractionError { iteration: 2 } }
    );
    assert_eq!(banner_rounds(&trace), vec![1, 2, 3]);
    assert_eq!(count_links(&trace), 2);
    assert!(matches!(trace.last(), Some(Action::ExtractArchive { .. })));
}

#[test]
fn link_failure_aborts_with_its_index() {
    let (state, trace) = drive(
        TARBZ2_URL,
        10,
        Event::FetchSucceeded,
        &mut |_| true,
        &mut |_| true,
        &mut |i| i != 4,
    );
    assert_eq!(state, State::Aborted { error: HarnessError::LinkError { iteration: 4 } });
    assert_eq!(banner_rounds(&trace), vec![1, 2, 3, 4, 5]);
    assert_eq!(count_extracts(&trace), 5);
    assert_eq!(count_links(&trace), 5);
}

#[test]
fn fetch_request_failure_aborts_before_any_round() {
    let (state, trace) = drive(
        TARBZ2_URL,
        100,
        Event::FetchRequestFailed,
        &mut |_| panic!("no reset expected"),
        &mut |_| panic!("no extraction expected"),
        &mut |_| panic!("no link expected"),
    );
    assert_eq!(state, State::Aborted { error: HarnessError::NetworkError });
    assert_eq!(trace, vec![Action::FetchArchive]);
}

#[test]
fn fetch_body_failure_aborts_before_any_round() {
    let (state, trace) = drive(
        TARBZ2_URL,
        100,
        Event::FetchBodyFailed,
        &mut |_| panic!("no reset expected"),
        &mut |_| panic!("no extraction expected"),
        &mut |_| panic!("no link expected"),
    );
    assert_eq!(state, State::Aborted { error: HarnessError::BodyReadError });
    assert_eq!(trace, vec![Action::FetchArchive]);
}

#[test]
fn every_extraction_follows_a_reset_in_a_mixed_run() {
    let (_state, trace) = drive(
        TARBZ2_URL,
        7,
        Event::FetchSucceeded,
        &mut |_| true,
        &mut |_| true,
        &mut |i| i != 6,
    );
    for (i, a) in trace.iter().enumerate() {
        if matches!(a, Action::ExtractArchive { .. }) {
            assert!(i >= 1);
            assert_eq!(trace[i - 1], Action::ResetWorkspace);
        }
    }
}
