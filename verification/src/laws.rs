//! The laws of a harness run.
//!
//! [`run_from`] folds [`spec_step`] over a sequence of outcome events and
//! collects every action the machine asks for along the way; [`run_trace`]
//! does the same for a whole run, classification included.  The public proof
//! functions at the end of this module state what holds of those traces: an
//! all-success run performs each step exactly once per round and completes, a
//! run fetches the archive exactly once, extraction only ever follows a fresh
//! workspace reset, a failed extraction ends the run on the spot, and an
//! unsupported URL produces no action at all.

use crate::errors::HarnessError;
use crate::format::{spec_classify, FormatTag};
use crate::machine::{spec_start, spec_step, Action, Event, State};
use vstd::prelude::*;

verus! {

/// The final state and the accumulated action trace after feeding `events`
/// to the machine one by one, starting from `s`.
pub open spec fn run_from(s: State, events: Seq<Event>) -> (State, Seq<Action>)
    decreases events.len(),
{
    if events.len() == 0 {
        (s, Seq::<Action>::empty())
    } else {
        let first = spec_step(s, events[0]);
        let rest = run_from(first.0, events.drop_first());
        (rest.0, first.1 + rest.1)
    }
}

/// A whole run: classify the URL, then feed the outcome events.
pub open spec fn run_trace(url: Seq<char>, rounds: u64, events: Seq<Event>) -> (
    State,
    Seq<Action>,
) {
    let started = spec_start(url, rounds);
    let rest = run_from(started.0, events);
    (rest.0, started.1 + rest.1)
}

/// Unfolds one event off the front of a run.
proof fn lemma_run_from_cons(s: State, e: Event, tail: Seq<Event>)
    ensures
        ({
            let first = spec_step(s, e);
            let rest = run_from(first.0, tail);
            run_from(s, seq![e] + tail) == (rest.0, first.1 + rest.1)
        }),
{
    let events = seq![e] + tail;
    assert(events[0] == e);
    assert(events.drop_first() =~= tail);
}

/// A finished run ignores every further event and emits nothing.
pub proof fn lemma_terminal_absorbs(s: State, events: Seq<Event>)
    requires
        s.is_terminal(),
    ensures
        run_from(s, events) == (s, Seq::<Action>::empty()),
    decreases events.len(),
{
    if events.len() > 0 {
        assert(spec_step(s, events[0]) == (s, Seq::<Action>::empty()));
        lemma_terminal_absorbs(s, events.drop_first());
        assert(Seq::<Action>::empty() + Seq::<Action>::empty() =~= Seq::<Action>::empty());
    }
}

/// How many actions of a trace satisfy `p`.
pub open spec fn count_matching(tr: Seq<Action>, p: spec_fn(Action) -> bool) -> nat
    decreases tr.len(),
{
    if tr.len() == 0 {
        0
    } else {
        (if p(tr[0]) {
            1nat
        } else {
            0nat
        }) + count_matching(tr.drop_first(), p)
    }
}

proof fn lemma_count_concat(a: Seq<Action>, b: Seq<Action>, p: spec_fn(Action) -> bool)
    ensures
        count_matching(a + b, p) == count_matching(a, p) + count_matching(b, p),
    decreases a.len(),
{
    if a.len() == 0 {
        assert(a + b =~= b);
    } else {
        assert((a + b)[0] == a[0]);
        assert((a + b).drop_first() =~= a.drop_first() + b);
        lemma_count_concat(a.drop_first(), b, p);
    }
}

proof fn lemma_count_cons(a: Action, tail: Seq<Action>, p: spec_fn(Action) -> bool)
    ensures
        count_matching(seq![a] + tail, p) == (if p(a) {
            1nat
        } else {
            0nat
        }) + count_matching(tail, p),
{
    assert((seq![a] + tail)[0] == a);
    assert((seq![a] + tail).drop_first() =~= tail);
}

proof fn lemma_count_zero(tr: Seq<Action>, p: spec_fn(Action) -> bool)
    requires
        forall|i: int| 0 <= i < tr.len() ==> !p(tr[i]),
    ensures
        count_matching(tr, p) == 0,
    decreases tr.len(),
{
    if tr.len() > 0 {
        lemma_count_zero(tr.drop_first(), p);
    }
}

/// The events of `n` fully successful iterations: a reset, an extraction and
/// a link outcome per round, all successful.
pub open spec fn all_success_events(n: nat) -> Seq<Event>
    decreases n,
{
    if n == 0 {
        Seq::<Event>::empty()
    } else {
        seq![Event::ResetSucceeded, Event::ExtractSucceeded, Event::LinkSucceeded]
            + all_success_events((n - 1) as nat)
    }
}

proof fn lemma_all_success_events_add(a: nat, b: nat)
    ensures
        all_success_events(a + b) == all_success_events(a) + all_success_events(b),
    decreases a,
{
    if a == 0 {
        assert(all_success_events(0) + all_success_events(b) =~= all_success_events(b));
    } else {
        lemma_all_success_events_add((a - 1) as nat, b);
        assert(seq![Event::ResetSucceeded, Event::ExtractSucceeded, Event::LinkSucceeded]
            + (all_success_events((a - 1) as nat) + all_success_events(b))
            =~= (seq![Event::ResetSucceeded, Event::ExtractSucceeded, Event::LinkSucceeded]
                + all_success_events((a - 1) as nat)) + all_success_events(b));
    }
}

/// The actions of the successful iterations `index .. k`, as the machine
/// emits them: each round's extraction, link and closing blank line, followed
/// by the banner and reset that open the next round.
pub open spec fn success_rounds_trace(format: FormatTag, index: u64, k: u64) -> Seq<Action>
    decreases k - index,
{
    if index < k {
        seq![
            Action::ExtractArchive { format },
            Action::LinkPackage,
            Action::PrintBlank,
            Action::PrintBanner { round: (index + 2) as u64 },
            Action::ResetWorkspace,
        ] + success_rounds_trace(format, (index + 1) as u64, k)
    } else {
        Seq::<Action>::empty()
    }
}

/// Folding the successful outcomes of iterations `index .. k` runs the
/// machine from the reset of iteration `index` to the reset of iteration
/// `k`, emits exactly the per-round actions, and leaves `rest` to follow.
proof fn lemma_success_rounds(format: FormatTag, rounds: u64, index: u64, k: u64, rest: Seq<Event>)
    requires
        index <= k,
        k < rounds,
    ensures
        ({
            let r = run_from(
                State::Resetting { format, rounds, index },
                all_success_events((k - index) as nat) + rest,
            );
            let rr = run_from(State::Resetting { format, rounds, index: k }, rest);
            r.0 == rr.0 && r.1 == success_rounds_trace(format, index, k) + rr.1
        }),
    decreases k - index,
{
    let s0 = State::Resetting { format, rounds, index };
    if index == k {
        assert(all_success_events(0) + rest =~= rest);
        let rr = run_from(s0, rest);
        assert(success_rounds_trace(format, index, k) + rr.1 =~= rr.1);
    } else {
        let tail3 = all_success_events((k - index - 1) as nat) + rest;
        let tail2 = seq![Event::LinkSucceeded] + tail3;
        let tail1 = seq![Event::ExtractSucceeded] + tail2;
        assert(all_success_events((k - index) as nat) + rest =~= seq![Event::ResetSucceeded]
            + tail1);
        lemma_run_from_cons(s0, Event::ResetSucceeded, tail1);
        let s1 = State::Extracting { format, rounds, index };
        lemma_run_from_cons(s1, Event::ExtractSucceeded, tail2);
        let s2 = State::Linking { format, rounds, index };
        lemma_run_from_cons(s2, Event::LinkSucceeded, tail3);
        let s3 = State::Resetting { format, rounds, index: (index + 1) as u64 };
        lemma_success_rounds(format, rounds, (index + 1) as u64, k, rest);
        let rr = run_from(State::Resetting { format, rounds, index: k }, rest);
        assert(run_from(s0, all_success_events((k - index) as nat) + rest).1 =~= success_rounds_trace(
            format,
            index,
            k,
        ) + rr.1);
    }
}

/// The action trace of a run in which every collaborator call succeeds.
pub open spec fn all_success_trace(format: FormatTag, rounds: u64) -> Seq<Action> {
    if rounds == 0 {
        seq![Action::FetchArchive]
    } else {
        seq![Action::FetchArchive, Action::PrintBanner { round: 1 }, Action::ResetWorkspace]
            + success_rounds_trace(format, 0, (rounds - 1) as u64)
            + seq![Action::ExtractArchive { format }, Action::LinkPackage, Action::PrintBlank]
    }
}

/// Law: for every configured iteration count, a run whose collaborator calls
/// all succeed performs one reset, one extraction and one link call per
/// round, in increasing round order — the trace is exactly
/// [`all_success_trace`] — and completes successfully.
pub proof fn lemma_all_success_run(url: Seq<char>, format: FormatTag, rounds: u64)
    requires
        spec_classify(url) == Some(format),
    ensures
        ({
            let r = run_trace(
                url,
                rounds,
                seq![Event::FetchSucceeded] + all_success_events(rounds as nat),
            );
            r.0 == State::Completed && r.1 == all_success_trace(format, rounds)
        }),
{
    let s0 = State::Fetching { format, rounds };
    lemma_run_from_cons(s0, Event::FetchSucceeded, all_success_events(rounds as nat));
    if rounds == 0 {
        let r = run_trace(
            url,
            rounds,
            seq![Event::FetchSucceeded] + all_success_events(rounds as nat),
        );
        assert(r.1 =~= seq![Action::FetchArchive]);
    } else {
        let k = (rounds - 1) as u64;
        let last_block = seq![Event::ResetSucceeded, Event::ExtractSucceeded, Event::LinkSucceeded];
        lemma_all_success_events_add(k as nat, 1);
        assert(all_success_events(1) =~= last_block);
        assert(all_success_events(rounds as nat) == all_success_events(k as nat)
            + all_success_events(1));
        lemma_success_rounds(format, rounds, 0, k, last_block);
        let sk = State::Resetting { format, rounds, index: k };
        let t2 = seq![Event::LinkSucceeded] + Seq::<Event>::empty();
        let t1 = seq![Event::ExtractSucceeded] + t2;
        assert(last_block =~= seq![Event::ResetSucceeded] + t1);
        lemma_run_from_cons(sk, Event::ResetSucceeded, t1);
        lemma_run_from_cons(State::Extracting { format, rounds, index: k }, Event::ExtractSucceeded, t2);
        lemma_run_from_cons(
            State::Linking { format, rounds, index: k },
            Event::LinkSucceeded,
            Seq::<Event>::empty(),
        );
        assert(run_from(sk, last_block).1 =~= seq![
            Action::ExtractArchive { format },
            Action::LinkPackage,
            Action::PrintBlank,
        ]);
        let r = run_trace(
            url,
            rounds,
            seq![Event::FetchSucceeded] + all_success_events(rounds as nat),
        );
        assert(r.1 =~= all_success_trace(format, rounds));
    }
}

proof fn lemma_count_three(
    a0: Action,
    a1: Action,
    a2: Action,
    tail: Seq<Action>,
    p: spec_fn(Action) -> bool,
)
    ensures
        count_matching(seq![a0, a1, a2] + tail, p) == (if p(a0) {
            1nat
        } else {
            0nat
        }) + (if p(a1) {
            1nat
        } else {
            0nat
        }) + (if p(a2) {
            1nat
        } else {
            0nat
        }) + count_matching(tail, p),
{
    assert(seq![a0, a1, a2] + tail =~= seq![a0] + (seq![a1] + (seq![a2] + tail)));
    lemma_count_cons(a2, tail, p);
    lemma_count_cons(a1, seq![a2] + tail, p);
    lemma_count_cons(a0, seq![a1] + (seq![a2] + tail), p);
}

proof fn lemma_count_five(
    a0: Action,
    a1: Action,
    a2: Action,
    a3: Action,
    a4: Action,
    tail: Seq<Action>,
    p: spec_fn(Action) -> bool,
)
    ensures
        count_matching(seq![a0, a1, a2, a3, a4] + tail, p) == (if p(a0) {
            1nat
        } else {
            0nat
        }) + (if p(a1) {
            1nat
        } else {
            0nat
        }) + (if p(a2) {
            1nat
        } else {
            0nat
        }) + (if p(a3) {
            1nat
        } else {
            0nat
        }) + (if p(a4) {
            1nat
        } else {
            0nat
        }) + count_matching(tail, p),
{
    assert(seq![a0, a1, a2, a3, a4] + tail =~= seq![a0] + (seq![a1] + (seq![a2] + (seq![a3]
        + (seq![a4] + tail)))));
    lemma_count_cons(a4, tail, p);
    lemma_count_cons(a3, seq![a4] + tail, p);
    lemma_count_cons(a2, seq![a3] + (seq![a4] + tail), p);
    lemma_count_cons(a1, seq![a2] + (seq![a3] + (seq![a4] + tail)), p);
    lemma_count_cons(a0, seq![a1] + (seq![a2] + (seq![a3] + (seq![a4] + tail))), p);
}

proof fn lemma_srt_counts(format: FormatTag, index: u64, k: u64)
    requires
        index <= k,
    ensures
        count_matching(success_rounds_trace(format, index, k), |a: Action| a is ResetWorkspace)
            == k - index,
        count_matching(success_rounds_trace(format, index, k), |a: Action| a is ExtractArchive)
            == k - index,
        count_matching(success_rounds_trace(format, index, k), |a: Action| a is LinkPackage)
            == k - index,
    decreases k - index,
{
    if index < k {
        let tail = success_rounds_trace(format, (index + 1) as u64, k);
        lemma_srt_counts(format, (index + 1) as u64, k);
        lemma_count_five(
            Action::ExtractArchive { format },
            Action::LinkPackage,
            Action::PrintBlank,
            Action::PrintBanner { round: (index + 2) as u64 },
            Action::ResetWorkspace,
            tail,
            |a: Action| a is ResetWorkspace,
        );
        lemma_count_five(
            Action::ExtractArchive { format },
            Action::LinkPackage,
            Action::PrintBlank,
            Action::PrintBanner { round: (index + 2) as u64 },
            Action::ResetWorkspace,
            tail,
            |a: Action| a is ExtractArchive,
        );
        lemma_count_five(
            Action::ExtractArchive { format },
            Action::LinkPackage,
            Action::PrintBlank,
            Action::PrintBanner { round: (index + 2) as u64 },
            Action::ResetWorkspace,
            tail,
            |a: Action| a is LinkPackage,
        );
    }
}

/// Law: the all-success trace holds exactly one workspace reset, one
/// extraction and one link call per configured round.
pub proof fn lemma_all_success_counts(format: FormatTag, rounds: u64)
    ensures
        count_matching(all_success_trace(format, rounds), |a: Action| a is ResetWorkspace)
            == rounds,
        count_matching(all_success_trace(format, rounds), |a: Action| a is ExtractArchive)
            == rounds,
        count_matching(all_success_trace(format, rounds), |a: Action| a is LinkPackage) == rounds,
{
    if rounds == 0 {
        assert(seq![Action::FetchArchive] =~= seq![Action::FetchArchive]
            + Seq::<Action>::empty());
        lemma_count_cons(Action::FetchArchive, Seq::<Action>::empty(), |a: Action| a
            is ResetWorkspace);
        lemma_count_cons(Action::FetchArchive, Seq::<Action>::empty(), |a: Action| a
            is ExtractArchive);
        lemma_count_cons(Action::FetchArchive, Seq::<Action>::empty(), |a: Action| a
            is LinkPackage);
    } else {
        let k = (rounds - 1) as u64;
        let head = seq![
            Action::FetchArchive,
            Action::PrintBanner { round: 1 },
            Action::ResetWorkspace,
        ];
        let mid = success_rounds_trace(format, 0, k);
        let last = seq![Action::ExtractArchive { format }, Action::LinkPackage, Action::PrintBlank];
        lemma_srt_counts(format, 0, k);
        lemma_count_three(
            Action::FetchArchive,
            Action::PrintBanner { round: 1 },
            Action::ResetWorkspace,
            mid,
            |a: Action| a is ResetWorkspace,
        );
        lemma_count_three(
            Action::FetchArchive,
            Action::PrintBanner { round: 1 },
            Action::ResetWorkspace,
            mid,
            |a: Action| a is ExtractArchive,
        );
        lemma_count_three(
            Action::FetchArchive,
            Action::PrintBanner { round: 1 },
            Action::ResetWorkspace,
            mid,
            |a: Action| a is LinkPackage,
        );
        lemma_count_concat(head + mid, last, |a: Action| a is ResetWorkspace);
        lemma_count_concat(head + mid, last, |a: Action| a is ExtractArchive);
        lemma_count_concat(head + mid, last, |a: Action| a is LinkPackage);
        assert(last =~= seq![Action::ExtractArchive { format }, Action::LinkPackage,
            Action::PrintBlank] + Seq::<Action>::empty());
        lemma_count_three(
            Action::ExtractArchive { format },
            Action::LinkPackage,
            Action::PrintBlank,
            Seq::<Action>::empty(),
            |a: Action| a is ResetWorkspace,
        );
        lemma_count_three(
            Action::ExtractArchive { format },
            Action::LinkPackage,
            Action::PrintBlank,
            Seq::<Action>::empty(),
            |a: Action| a is ExtractArchive,
        );
        lemma_count_three(
            Action::ExtractArchive { format },
            Action::LinkPackage,
            Action::PrintBlank,
            Seq::<Action>::empty(),
            |a: Action| a is LinkPackage,
        );
    }
}

/// The round numbers of the banners in a trace, in printing order.
pub open spec fn banner_rounds_of(tr: Seq<Action>) -> Seq<u64>
    decreases tr.len(),
{
    if tr.len() == 0 {
        Seq::<u64>::empty()
    } else {
        let rest = banner_rounds_of(tr.drop_first());
        match tr[0] {
            Action::PrintBanner { round } => seq![round] + rest,
            _ => rest,
        }
    }
}

proof fn lemma_banners_concat(a: Seq<Action>, b: Seq<Action>)
    ensures
        banner_rounds_of(a + b) == banner_rounds_of(a) + banner_rounds_of(b),
    decreases a.len(),
{
    if a.len() == 0 {
        assert(a + b =~= b);
        assert(banner_rounds_of(a) + banner_rounds_of(b) =~= banner_rounds_of(b));
    } else {
        assert((a + b)[0] == a[0]);
        assert((a + b).drop_first() =~= a.drop_first() + b);
        lemma_banners_concat(a.drop_first(), b);
        match a[0] {
            Action::PrintBanner { round } => {
                assert(seq![round] + (banner_rounds_of(a.drop_first()) + banner_rounds_of(b))
                    =~= (seq![round] + banner_rounds_of(a.drop_first())) + banner_rounds_of(b));
            },
            _ => {},
        }
    }
}

proof fn lemma_banners_cons(a: Action, tail: Seq<Action>)
    ensures
        banner_rounds_of(seq![a] + tail) == (match a {
            Action::PrintBanner { round } => seq![round],
            _ => Seq::<u64>::empty(),
        }) + banner_rounds_of(tail),
{
    assert((seq![a] + tail)[0] == a);
    assert((seq![a] + tail).drop_first() =~= tail);
    match a {
        Action::PrintBanner { round } => {},
        _ => {
            assert(Seq::<u64>::empty() + banner_rounds_of(tail) =~= banner_rounds_of(tail));
        },
    }
}

proof fn lemma_srt_banners(format: FormatTag, index: u64, k: u64)
    requires
        index <= k,
    ensures
        banner_rounds_of(success_rounds_trace(format, index, k)) == Seq::new(
            (k - index) as nat,
            |i: int| (index + 2 + i) as u64,
        ),
    decreases k - index,
{
    if index == k {
        assert(banner_rounds_of(success_rounds_trace(format, index, k)) =~= Seq::new(
            0,
            |i: int| (index + 2 + i) as u64,
        ));
    } else {
        let tail = success_rounds_trace(format, (index + 1) as u64, k);
        lemma_srt_banners(format, (index + 1) as u64, k);
        let blk = seq![
            Action::ExtractArchive { format },
            Action::LinkPackage,
            Action::PrintBlank,
            Action::PrintBanner { round: (index + 2) as u64 },
            Action::ResetWorkspace,
        ];
        lemma_banners_concat(blk, tail);
        assert(blk =~= seq![Action::ExtractArchive { format }] + (seq![Action::LinkPackage]
            + (seq![Action::PrintBlank] + (seq![Action::PrintBanner { round: (index + 2) as u64 }]
                + (seq![Action::ResetWorkspace] + Seq::<Action>::empty())))));
        lemma_banners_cons(Action::ResetWorkspace, Seq::<Action>::empty());
        lemma_banners_cons(
            Action::PrintBanner { round: (index + 2) as u64 },
            seq![Action::ResetWorkspace] + Seq::<Action>::empty(),
        );
        lemma_banners_cons(
            Action::PrintBlank,
            seq![Action::PrintBanner { round: (index + 2) as u64 }] + (seq![
                Action::ResetWorkspace,
            ] + Seq::<Action>::empty()),
        );
        lemma_banners_cons(
            Action::LinkPackage,
            seq![Action::PrintBlank] + (seq![Action::PrintBanner { round: (index + 2) as u64 }]
                + (seq![Action::ResetWorkspace] + Seq::<Action>::empty())),
        );
        lemma_banners_cons(
            Action::ExtractArchive { format },
            seq![Action::LinkPackage] + (seq![Action::PrintBlank] + (seq![
                Action::PrintBanner { round: (index + 2) as u64 },
            ] + (seq![Action::ResetWorkspace] + Seq::<Action>::empty()))),
        );
        assert(banner_rounds_of(blk) =~= seq![(index + 2) as u64]);
        assert(seq![(index + 2) as u64] + Seq::new((k - index - 1) as nat, |i: int| (index + 3 + i) as u64)
            =~= Seq::new((k - index) as nat, |i: int| (index + 2 + i) as u64));
    }
}

/// Law: the all-success trace prints its banners in strictly increasing
/// round order, one per round: exactly the rounds `1 ..= rounds`.
pub proof fn lemma_all_success_banners(format: FormatTag, rounds: u64)
    ensures
        banner_rounds_of(all_success_trace(format, rounds)) == Seq::new(
            rounds as nat,
            |i: int| (i + 1) as u64,
        ),
{
    if rounds == 0 {
        lemma_banners_cons(Action::FetchArchive, Seq::<Action>::empty());
        assert(seq![Action::FetchArchive] =~= seq![Action::FetchArchive] + Seq::<Action>::empty());
        assert(banner_rounds_of(all_success_trace(format, rounds)) =~= Seq::new(
            0,
            |i: int| (i + 1) as u64,
        ));
    } else {
        let k = (rounds - 1) as u64;
        let head = seq![
            Action::FetchArchive,
            Action::PrintBanner { round: 1 },
            Action::ResetWorkspace,
        ];
        let mid = success_rounds_trace(format, 0, k);
        let last = seq![Action::ExtractArchive { format }, Action::LinkPackage, Action::PrintBlank];
        lemma_srt_banners(format, 0, k);
        lemma_banners_concat(head, mid);
        lemma_banners_concat(head + mid, last);
        assert(head =~= seq![Action::FetchArchive] + (seq![Action::PrintBanner { round: 1 }]
            + (seq![Action::ResetWorkspace] + Seq::<Action>::empty())));
        lemma_banners_cons(Action::ResetWorkspace, Seq::<Action>::empty());
        lemma_banners_cons(
            Action::PrintBanner { round: 1 },
            seq![Action::ResetWorkspace] + Seq::<Action>::empty(),
        );
        lemma_banners_cons(
            Action::FetchArchive,
            seq![Action::PrintBanner { round: 1 }] + (seq![Action::ResetWorkspace]
                + Seq::<Action>::empty()),
        );
        assert(banner_rounds_of(head) =~= seq![1u64]);
        assert(last =~= seq![Action::ExtractArchive { format }] + (seq![Action::LinkPackage]
            + (seq![Action::PrintBlank] + Seq::<Action>::empty())));
        lemma_banners_cons(Action::PrintBlank, Seq::<Action>::empty());
        lemma_banners_cons(
            Action::LinkPackage,
            seq![Action::PrintBlank] + Seq::<Action>::empty(),
        );
        lemma_banners_cons(
            Action::ExtractArchive { format },
            seq![Action::LinkPackage] + (seq![Action::PrintBlank] + Seq::<Action>::empty()),
        );
        assert(banner_rounds_of(last) =~= Seq::<u64>::empty());
        assert(seq![1u64] + Seq::new(k as nat, |i: int| (2 + i) as u64) + Seq::<u64>::empty()
            =~= Seq::new(rounds as nat, |i: int| (i + 1) as u64));
    }
}

proof fn lemma_step_no_fetch(s: State, e: Event)
    ensures
        count_matching(spec_step(s, e).1, |a: Action| a is FetchArchive) == 0,
{
    let acts = spec_step(s, e).1;
    assert forall|i: int| 0 <= i < acts.len() implies !(acts[i] is FetchArchive) by {}
    lemma_count_zero(acts, |a: Action| a is FetchArchive);
}

proof fn lemma_run_from_no_fetch(s: State, events: Seq<Event>)
    ensures
        count_matching(run_from(s, events).1, |a: Action| a is FetchArchive) == 0,
    decreases events.len(),
{
    if events.len() > 0 {
        let first = spec_step(s, events[0]);
        lemma_step_no_fetch(s, events[0]);
        lemma_run_from_no_fetch(first.0, events.drop_first());
        lemma_count_concat(first.1, run_from(first.0, events.drop_first()).1, |a: Action| a
            is FetchArchive);
    }
}

/// Law: the archive is fetched exactly once per run of a supported URL —
/// once at the start, and never again by any later decision, whatever the
/// collaborators' outcomes.  Every iteration therefore works on the bytes of
/// that single fetch.
pub proof fn lemma_fetch_exactly_once(
    url: Seq<char>,
    format: FormatTag,
    rounds: u64,
    events: Seq<Event>,
)
    requires
        spec_classify(url) == Some(format),
    ensures
        count_matching(run_trace(url, rounds, events).1, |a: Action| a is FetchArchive) == 1,
{
    let s0 = State::Fetching { format, rounds };
    lemma_run_from_no_fetch(s0, events);
    lemma_count_cons(Action::FetchArchive, run_from(s0, events).1, |a: Action| a is FetchArchive);
}

/// Law: with a source URL whose suffix is unsupported, the run aborts before
/// anything happens — no banner is printed, no workspace reset occurs and no
/// fetch is issued, whatever events may arrive: the trace stays empty.
pub proof fn lemma_unsupported_url_no_actions(url: Seq<char>, rounds: u64, events: Seq<Event>)
    requires
        spec_classify(url) is None,
    ensures
        run_trace(url, rounds, events).0 == (State::Aborted {
            error: HarnessError::UnsupportedFormat,
        }),
        run_trace(url, rounds, events).1 == Seq::<Action>::empty(),
{
    lemma_terminal_absorbs(State::Aborted { error: HarnessError::UnsupportedFormat }, events);
    assert(Seq::<Action>::empty() + Seq::<Action>::empty() =~= Seq::<Action>::empty());
}

/// Every extraction in the trace happens immediately after a workspace
/// reset: the destination was freshly recreated empty when decoding began.
pub open spec fn extract_follows_reset(tr: Seq<Action>) -> bool {
    forall|i: int|
        0 <= i < tr.len() && (#[trigger] tr[i]) is ExtractArchive ==> i >= 1 && tr[i - 1]
            is ResetWorkspace
}

proof fn lemma_efr_append_no_extract(acc: Seq<Action>, add: Seq<Action>)
    requires
        extract_follows_reset(acc),
        forall|j: int| 0 <= j < add.len() ==> !(add[j] is ExtractArchive),
    ensures
        extract_follows_reset(acc + add),
{
    let t = acc + add;
    assert forall|i: int| 0 <= i < t.len() && (#[trigger] t[i]) is ExtractArchive implies i >= 1
        && t[i - 1] is ResetWorkspace by {
        if i < acc.len() {
            assert(acc[i] is ExtractArchive);
            assert(t[i - 1] == acc[i - 1]);
        } else {
            assert(t[i] == add[i - acc.len()]);
        }
    }
}

proof fn lemma_efr_append_extract(acc: Seq<Action>, format: FormatTag)
    requires
        extract_follows_reset(acc),
        acc.len() >= 1,
        acc.last() is ResetWorkspace,
    ensures
        extract_follows_reset(acc + seq![Action::ExtractArchive { format }]),
{
    let t = acc + seq![Action::ExtractArchive { format }];
    assert forall|i: int| 0 <= i < t.len() && (#[trigger] t[i]) is ExtractArchive implies i >= 1
        && t[i - 1] is ResetWorkspace by {
        if i < acc.len() {
            assert(acc[i] is ExtractArchive);
            assert(t[i - 1] == acc[i - 1]);
        } else {
            assert(i == acc.len());
            assert(t[i - 1] == acc[acc.len() - 1]);
        }
    }
}

proof fn lemma_run_from_efr(s: State, events: Seq<Event>, acc: Seq<Action>)
    requires
        extract_follows_reset(acc),
        s is Resetting ==> acc.len() >= 1 && acc.last() is ResetWorkspace,
    ensures
        extract_follows_reset(acc + run_from(s, events).1),
    decreases events.len(),
{
    if events.len() == 0 {
        assert(acc + run_from(s, events).1 =~= acc);
    } else {
        let e = events[0];
        let first = spec_step(s, e);
        let acc1 = acc + first.1;
        match (s, e) {
            (State::Fetching { format, rounds }, Event::FetchSucceeded) => {
                if rounds == 0 {
                    assert(acc1 =~= acc);
                } else {
                    assert(forall|j: int|
                        0 <= j < first.1.len() ==> !(first.1[j] is ExtractArchive));
                    lemma_efr_append_no_extract(acc, first.1);
                    assert(acc1.last() == first.1[1]);
                }
            },
            (State::Resetting { format, rounds, index }, Event::ResetSucceeded) => {
                lemma_efr_append_extract(acc, format);
            },
            (State::Extracting { format, rounds, index }, Event::ExtractSucceeded) => {
                assert(forall|j: int| 0 <= j < first.1.len() ==> !(first.1[j] is ExtractArchive));
                lemma_efr_append_no_extract(acc, first.1);
            },
            (State::Linking { format, rounds, index }, Event::LinkSucceeded) => {
                assert(forall|j: int| 0 <= j < first.1.len() ==> !(first.1[j] is ExtractArchive));
                lemma_efr_append_no_extract(acc, first.1);
                if index < rounds && rounds - index > 1 {
                    assert(acc1.last() == first.1[2]);
                }
            },
            _ => {
                assert(first.1 =~= Seq::<Action>::empty());
                assert(acc1 =~= acc);
            },
        }
        lemma_run_from_efr(first.0, events.drop_first(), acc1);
        assert(acc1 + run_from(first.0, events.drop_first()).1 =~= acc + run_from(s, events).1);
    }
}

/// Law: in every run — whatever the outcome events — an extraction is
/// invoked only immediately after a successful workspace reset, so the
/// extraction destination is empty when decoding begins.
pub proof fn lemma_extract_only_after_reset(url: Seq<char>, rounds: u64, events: Seq<Event>)
    ensures
        extract_follows_reset(run_trace(url, rounds, events).1),
{
    let started = spec_start(url, rounds);
    assert(forall|j: int| 0 <= j < started.1.len() ==> !(started.1[j] is ExtractArchive));
    assert(extract_follows_reset(Seq::<Action>::empty() + started.1)) by {
        lemma_efr_append_no_extract(Seq::<Action>::empty(), started.1);
    }
    assert(extract_follows_reset(started.1)) by {
        assert(Seq::<Action>::empty() + started.1 =~= started.1);
    }
    lemma_run_from_efr(started.0, events, started.1);
}

/// Law: if extraction fails at iteration `index` (zero-based), linking is
/// never invoked for that iteration and no later iteration starts: the run
/// aborts at once with `ExtractionError` carrying that index, the trace ends
/// with the failing extraction, and further events change nothing.
pub proof fn lemma_extraction_failure_aborts(
    url: Seq<char>,
    format: FormatTag,
    rounds: u64,
    index: u64,
    trailing: Seq<Event>,
)
    requires
        spec_classify(url) == Some(format),
        index < rounds,
    ensures
        ({
            let events = seq![Event::FetchSucceeded] + all_success_events(index as nat) + seq![
                Event::ResetSucceeded,
                Event::ExtractFailed,
            ] + trailing;
            let r = run_trace(url, rounds, events);
            &&& r.0 == (State::Aborted {
                error: HarnessError::ExtractionError { iteration: index },
            })
            &&& r.1 == seq![
                Action::FetchArchive,
                Action::PrintBanner { round: 1 },
                Action::ResetWorkspace,
            ] + success_rounds_trace(format, 0, index) + seq![Action::ExtractArchive { format }]
            &&& count_matching(r.1, |a: Action| a is LinkPackage) == index
            &&& count_matching(r.1, |a: Action| a is ExtractArchive) == index + 1
        }),
{
    let s0 = State::Fetching { format, rounds };
    let t1 = seq![Event::ExtractFailed] + trailing;
    let rest = seq![Event::ResetSucceeded] + t1;
    let after_fetch = all_success_events(index as nat) + rest;
    let events = seq![Event::FetchSucceeded] + all_success_events(index as nat) + seq![
        Event::ResetSucceeded,
        Event::ExtractFailed,
    ] + trailing;
    assert(events =~= seq![Event::FetchSucceeded] + after_fetch);
    lemma_run_from_cons(s0, Event::FetchSucceeded, after_fetch);
    lemma_success_rounds(format, rounds, 0, index, rest);
    let si = State::Resetting { format, rounds, index };
    lemma_run_from_cons(si, Event::ResetSucceeded, t1);
    lemma_run_from_cons(
        State::Extracting { format, rounds, index },
        Event::ExtractFailed,
        trailing,
    );
    lemma_terminal_absorbs(
        State::Aborted { error: HarnessError::ExtractionError { iteration: index } },
        trailing,
    );
    assert(run_trace(url, rounds, events).1 =~= seq![
        Action::FetchArchive,
        Action::PrintBanner { round: 1 },
        Action::ResetWorkspace,
    ] + success_rounds_trace(format, 0, index) + seq![Action::ExtractArchive { format }]);
    let mid = success_rounds_trace(format, 0, index);
    let tail = seq![Action::ExtractArchive { format }];
    lemma_srt_counts(format, 0, index);
    lemma_count_three(
        Action::FetchArchive,
        Action::PrintBanner { round: 1 },
        Action::ResetWorkspace,
        mid,
        |a: Action| a is LinkPackage,
    );
    lemma_count_three(
        Action::FetchArchive,
        Action::PrintBanner { round: 1 },
        Action::ResetWorkspace,
        mid,
        |a: Action| a is ExtractArchive,
    );
    let head_mid = seq![
        Action::FetchArchive,
        Action::PrintBanner { round: 1 },
        Action::ResetWorkspace,
    ] + mid;
    lemma_count_concat(head_mid, tail, |a: Action| a is LinkPackage);
    lemma_count_concat(head_mid, tail, |a: Action| a is ExtractArchive);
    assert(tail =~= seq![Action::ExtractArchive { format }] + Seq::<Action>::empty());
    lemma_count_cons(
        Action::ExtractArchive { format },
        Seq::<Action>::empty(),
        |a: Action| a is LinkPackage,
    );
    lemma_count_cons(
        Action::ExtractArchive { format },
        Seq::<Action>::empty(),
        |a: Action| a is ExtractArchive,
    );
}

} // verus!
