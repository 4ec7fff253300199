//! The harness state machine.
//!
//! A run alternates decisions with outside work: the network fetch, the
//! workspace reset, and the two collaborator calls all happen outside this
//! library.  The machine below makes every decision of the run — which step
//! comes next, which error a failing step yields, when the run is over — as a
//! pure function from the current state and the outcome of the last outside
//! step.  The surrounding process starts a run with [`start_run`], performs
//! the returned actions in order, and reports each fallible action's outcome
//! back through [`advance`] until the state is [`State::Completed`] or
//! [`State::Aborted`].

use crate::errors::HarnessError;
use crate::format::{spec_classify, classify_url, FormatTag};
use vstd::prelude::*;

verus! {

/// One step the surrounding process performs on the harness's behalf.
///
/// The two print actions cannot fail and report no outcome; each of the other
/// four is answered by the matching [`Event`].
#[derive(Clone, Copy, Debug, PartialEq, Eq, Structural)]
pub enum Action {
    /// Issue the single network request for the archive and read its whole
    /// body into memory.
    FetchArchive,
    /// Print the banner pair announcing the given 1-based round number.
    PrintBanner { round: u64 },
    /// Remove the working root if present (best effort) and recreate it
    /// empty.
    ResetWorkspace,
    /// Decode the archive bytes, fetched once at run start, into the
    /// extraction destination.
    ExtractArchive { format: FormatTag },
    /// Install the extracted package tree into the real prefix.
    LinkPackage,
    /// Print the blank line that closes a completed iteration.
    PrintBlank,
}

/// The outcome of the last fallible action, reported back to the machine.
#[derive(Clone, Copy, Debug, PartialEq, Eq, Structural)]
pub enum Event {
    /// The archive was fetched and its body read to the end.
    FetchSucceeded,
    /// The network request itself failed.
    FetchRequestFailed,
    /// The request went out but the body could not be read to the end.
    FetchBodyFailed,
    /// The working root was recreated empty.
    ResetSucceeded,
    /// The working root could not be recreated.
    ResetFailed,
    /// The extraction collaborator populated the destination.
    ExtractSucceeded,
    /// The extraction collaborator reported a decode failure.
    ExtractFailed,
    /// The linking collaborator installed the extracted tree.
    LinkSucceeded,
    /// The linking collaborator reported an install failure.
    LinkFailed,
}

/// Where a run stands.
///
/// `rounds` is the configured iteration count; `index` is the zero-based
/// index of the iteration whose step is in flight.
#[derive(Clone, Copy, Debug, PartialEq, Eq, Structural)]
pub enum State {
    /// The archive fetch is in flight.
    Fetching { format: FormatTag, rounds: u64 },
    /// The workspace reset of iteration `index` is in flight.
    Resetting { format: FormatTag, rounds: u64, index: u64 },
    /// The extraction of iteration `index` is in flight.
    Extracting { format: FormatTag, rounds: u64, index: u64 },
    /// The linking of iteration `index` is in flight.
    Linking { format: FormatTag, rounds: u64, index: u64 },
    /// Every configured iteration completed.
    Completed,
    /// The run ended on its first failure; no further action is ever taken.
    Aborted { error: HarnessError },
}

impl State {
    /// The run is over: no action is outstanding and no event is expected.
    pub open spec fn is_terminal(self) -> bool {
        self is Completed || self is Aborted
    }

    /// An iteration index in flight never reaches the configured count.
    pub open spec fn wf(self) -> bool {
        match self {
            State::Resetting { rounds, index, .. } => index < rounds,
            State::Extracting { rounds, index, .. } => index < rounds,
            State::Linking { rounds, index, .. } => index < rounds,
            _ => true,
        }
    }
}

/// The start of a run: classify the source URL, then — if the format is
/// supported — ask for the one archive fetch.  An unsupported suffix aborts
/// the run before any action, so no progress line is printed and no workspace
/// reset occurs.
pub open spec fn spec_start(url: Seq<char>, rounds: u64) -> (State, Seq<Action>) {
    match spec_classify(url) {
        Some(format) => (
            State::Fetching { format, rounds },
            seq![Action::FetchArchive],
        ),
        None => (
            State::Aborted { error: HarnessError::UnsupportedFormat },
            Seq::<Action>::empty(),
        ),
    }
}

/// One decision of the run: from the current state and the outcome of the
/// last fallible action, the next state and the actions to perform next.
///
/// Every failure aborts the run at once, carrying the failed step and — for
/// steps inside the loop — the iteration index.  An event that the state does
/// not expect (in particular, any event in a terminal state) changes nothing
/// and asks for nothing.
pub open spec fn spec_step(s: State, e: Event) -> (State, Seq<Action>) {
    match (s, e) {
        (State::Fetching { format, rounds }, Event::FetchSucceeded) => {
            if rounds == 0 {
                (State::Completed, Seq::<Action>::empty())
            } else {
                (
                    State::Resetting { format, rounds, index: 0 },
                    seq![Action::PrintBanner { round: 1 }, Action::ResetWorkspace],
                )
            }
        },
        (State::Fetching { .. }, Event::FetchRequestFailed) => (
            State::Aborted { error: HarnessError::NetworkError },
            Seq::<Action>::empty(),
        ),
        (State::Fetching { .. }, Event::FetchBodyFailed) => (
            State::Aborted { error: HarnessError::BodyReadError },
            Seq::<Action>::empty(),
        ),
        (State::Resetting { format, rounds, index }, Event::ResetSucceeded) => (
            State::Extracting { format, rounds, index },
            seq![Action::ExtractArchive { format }],
        ),
        (State::Resetting { index, .. }, Event::ResetFailed) => (
            State::Aborted { error: HarnessError::WorkspaceError { iteration: index } },
            Seq::<Action>::empty(),
        ),
        (State::Extracting { format, rounds, index }, Event::ExtractSucceeded) => (
            State::Linking { format, rounds, index },
            seq![Action::LinkPackage],
        ),
        (State::Extracting { index, .. }, Event::ExtractFailed) => (
            State::Aborted { error: HarnessError::ExtractionError { iteration: index } },
            Seq::<Action>::empty(),
        ),
        (State::Linking { format, rounds, index }, Event::LinkSucceeded) => {
            if index < rounds && rounds - index > 1 {
                (
                    State::Resetting { format, rounds, index: (index + 1) as u64 },
                    seq![
                        Action::PrintBlank,
                        Action::PrintBanner { round: (index + 2) as u64 },
                        Action::ResetWorkspace,
                    ],
                )
            } else {
                (State::Completed, seq![Action::PrintBlank])
            }
        },
        (State::Linking { index, .. }, Event::LinkFailed) => (
            State::Aborted { error: HarnessError::LinkError { iteration: index } },
            Seq::<Action>::empty(),
        ),
        _ => (s, Seq::<Action>::empty()),
    }
}

/// Starts a run against the given source URL and iteration count.
pub fn start_run(url: &str, rounds: u64) -> (r: (State, Vec<Action>))
    ensures
        r.0 == spec_start(url@, rounds).0,
        r.1@ == spec_start(url@, rounds).1,
{
    match classify_url(url) {
        Ok(format) => {
            let mut actions: Vec<Action> = Vec::new();
            actions.push(Action::FetchArchive);
            proof {
                assert(actions@ =~= seq![Action::FetchArchive]);
            }
            (State::Fetching { format, rounds }, actions)
        },
        Err(error) => {
            let actions: Vec<Action> = Vec::new();
            proof {
                assert(actions@ =~= Seq::<Action>::empty());
            }
            (State::Aborted { error }, actions)
        },
    }
}

/// Feeds the outcome of the last fallible action to the machine.
pub fn advance(s: State, e: Event) -> (r: (State, Vec<Action>))
    ensures
        r.0 == spec_step(s, e).0,
        r.1@ == spec_step(s, e).1,
{
    match (s, e) {
        (State::Fetching { format, rounds }, Event::FetchSucceeded) => {
            if rounds == 0 {
                (State::Completed, Vec::new())
            } else {
                let mut actions: Vec<Action> = Vec::new();
                actions.push(Action::PrintBanner { round: 1 });
                actions.push(Action::ResetWorkspace);
                proof {
                    assert(actions@ =~= seq![
                        Action::PrintBanner { round: 1 },
                        Action::ResetWorkspace,
                    ]);
                }
                (State::Resetting { format, rounds, index: 0 }, actions)
            }
        },
        (State::Fetching { .. }, Event::FetchRequestFailed) => (
            State::Aborted { error: HarnessError::NetworkError },
            Vec::new(),
        ),
        (State::Fetching { .. }, Event::FetchBodyFailed) => (
            State::Aborted { error: HarnessError::BodyReadError },
            Vec::new(),
        ),
        (State::Resetting { format, rounds, index }, Event::ResetSucceeded) => {
            let mut actions: Vec<Action> = Vec::new();
            actions.push(Action::ExtractArchive { format });
            proof {
                assert(actions@ =~= seq![Action::ExtractArchive { format }]);
            }
            (State::Extracting { format, rounds, index }, actions)
        },
        (State::Resetting { index, .. }, Event::ResetFailed) => (
            State::Aborted { error: HarnessError::WorkspaceError { iteration: index } },
            Vec::new(),
        ),
        (State::Extracting { format, rounds, index }, Event::ExtractSucceeded) => {
            let mut actions: Vec<Action> = Vec::new();
            actions.push(Action::LinkPackage);
            proof {
                assert(actions@ =~= seq![Action::LinkPackage]);
            }
            (State::Linking { format, rounds, index }, actions)
        },
        (State::Extracting { index, .. }, Event::ExtractFailed) => (
            State::Aborted { error: HarnessError::ExtractionError { iteration: index } },
            Vec::new(),
        ),
        (State::Linking { format, rounds, index }, Event::LinkSucceeded) => {
            if index < rounds && rounds - index > 1 {
                let mut actions: Vec<Action> = Vec::new();
                actions.push(Action::PrintBlank);
                actions.push(Action::PrintBanner { round: index + 2 });
                actions.push(Action::ResetWorkspace);
                proof {
                    assert(actions@ =~= seq![
                        Action::PrintBlank,
                        Action::PrintBanner { round: (index + 2) as u64 },
                        Action::ResetWorkspace,
                    ]);
                }
                (State::Resetting { format, rounds, index: index + 1 }, actions)
            } else {
                let mut actions: Vec<Action> = Vec::new();
                actions.push(Action::PrintBlank);
                proof {
                    assert(actions@ =~= seq![Action::PrintBlank]);
                }
                (State::Completed, actions)
            }
        },
        (State::Linking { index, .. }, Event::LinkFailed) => (
            State::Aborted { error: HarnessError::LinkError { iteration: index } },
            Vec::new(),
        ),
        _ => (s, Vec::new()),
    }
}

/// Law: a run starts well-formed, and every decision preserves
/// well-formedness — an in-flight iteration index never reaches the
/// configured count, so the indices a run visits are exactly the consecutive
/// values below it.
pub proof fn lemma_wf_preserved(s: State, e: Event)
    requires
        s.wf(),
    ensures
        spec_step(s, e).0.wf(),
{
}

/// The starting state of every run is well-formed.
pub proof fn lemma_start_wf(url: Seq<char>, rounds: u64)
    ensures
        spec_start(url, rounds).0.wf(),
{
}

} // verus!
