//! Whole redirect chains: what a resolver does with a sequence of probe outcomes,
//! and the laws on how long a chain may grow.

use vstd::prelude::*;

use crate::resolver::{
    redirect_target, step_spec, FailureView, HopView, ProbeOutcome, ResolverView, StepView,
};
use crate::status::{class_of, StatusClass};

verus! {

/// The redirects followed along a chain and, once it is over, its result.
pub struct RunView {
    pub hops: Seq<HopView>,
    pub result: Option<Result<Seq<char>, FailureView>>,
}

/// Steps a resolver in state `s` through `outcomes`, one per probe, until the
/// chain is over or the outcomes run out (then `result` is `None`).
pub open spec fn run(s: ResolverView, outcomes: Seq<ProbeOutcome>) -> RunView
    decreases outcomes.len(),
{
    if outcomes.len() == 0 {
        RunView { hops: seq![], result: None }
    } else {
        let (next, st) = step_spec(s, outcomes[0]);
        match st {
            StepView::Finished(res) => RunView { hops: seq![], result: Some(res) },
            StepView::Redirect(h) => {
                let rest = run(next, outcomes.drop_first());
                RunView { hops: seq![h] + rest.hops, result: rest.result }
            },
        }
    }
}

/// A fresh chain from `url` that may follow `max_redirects` redirects.
pub open spec fn fresh(url: Seq<char>, max_redirects: nat) -> ResolverView {
    ResolverView { url, depth: 0, max_redirects }
}

/// A 3xx response whose `location` is an absolute URL.
pub open spec fn is_valid_redirect(o: ProbeOutcome) -> bool {
    match o {
        ProbeOutcome::Response { status, location, .. } => class_of(status)
            == StatusClass::Redirection && redirect_target(location) is Some,
        ProbeOutcome::Transport(_) => false,
    }
}

/// A 2xx response.
pub open spec fn is_arrival(o: ProbeOutcome) -> bool {
    match o {
        ProbeOutcome::Response { status, .. } => class_of(status) == StatusClass::Success,
        ProbeOutcome::Transport(_) => false,
    }
}

/// The URL that a response reached, or nothing for a transport failure.
pub open spec fn reached_of(o: ProbeOutcome) -> Seq<char> {
    match o {
        ProbeOutcome::Response { reached, .. } => reached@,
        ProbeOutcome::Transport(_) => Seq::empty(),
    }
}

/// The status of a response, or 0 for a transport failure.
pub open spec fn status_of(o: ProbeOutcome) -> u16 {
    match o {
        ProbeOutcome::Response { status, .. } => status,
        ProbeOutcome::Transport(_) => 0,
    }
}

proof fn lemma_chain_resolves_from(s: ResolverView, outcomes: Seq<ProbeOutcome>, d: nat)
    requires
        s.depth + d <= s.max_redirects,
        outcomes.len() == d + 1,
        forall|i: int| 0 <= i < d ==> is_valid_redirect(#[trigger] outcomes[i]),
        is_arrival(outcomes[d as int]),
    ensures
        run(s, outcomes).hops.len() == d,
        forall|i: int| 0 <= i < d ==> (#[trigger] run(s, outcomes).hops[i]).depth == s.depth + i,
        run(s, outcomes).result == Some(Ok::<Seq<char>, FailureView>(reached_of(outcomes[d as int]))),
    decreases d,
{
    if d > 0 {
        assert(is_valid_redirect(outcomes[0]));
        let (next, st) = step_spec(s, outcomes[0]);
        let tail = outcomes.drop_first();
        assert forall|i: int| 0 <= i < d - 1 implies is_valid_redirect(#[trigger] tail[i]) by {
            assert(tail[i] == outcomes[i + 1]);
        }
        assert(tail[d - 1] == outcomes[d as int]);
        lemma_chain_resolves_from(next, tail, (d - 1) as nat);
        let hops = run(s, outcomes).hops;
        assert forall|i: int| 0 <= i < d implies (#[trigger] hops[i]).depth == s.depth + i by {
            if i > 0 {
                assert(hops[i] == run(next, tail).hops[i - 1]);
            }
        }
    }
}

/// A chain of `d` valid redirects and then a 2xx response, with `d` within the
/// limit, resolves to the URL that the 2xx response reached, after exactly `d`
/// hops, whose depths count up from 0 by one.
pub proof fn lemma_chain_within_limit_resolves(
    url: Seq<char>,
    max_redirects: nat,
    outcomes: Seq<ProbeOutcome>,
    d: nat,
)
    requires
        d <= max_redirects,
        outcomes.len() == d + 1,
        forall|i: int| 0 <= i < d ==> is_valid_redirect(#[trigger] outcomes[i]),
        is_arrival(outcomes[d as int]),
    ensures
        run(fresh(url, max_redirects), outcomes).hops.len() == d,
        forall|i: int|
            0 <= i < d ==> (#[trigger] run(fresh(url, max_redirects), outcomes).hops[i]).depth
                == i,
        run(fresh(url, max_redirects), outcomes).result == Some(
            Ok::<Seq<char>, FailureView>(reached_of(outcomes[d as int])),
        ),
{
    lemma_chain_resolves_from(fresh(url, max_redirects), outcomes, d);
}

proof fn lemma_chain_stops_from(s: ResolverView, outcomes: Seq<ProbeOutcome>, k: nat)
    requires
        s.depth + k == s.max_redirects,
        outcomes.len() > k,
        forall|i: int| 0 <= i <= k ==> is_valid_redirect(#[trigger] outcomes[i]),
    ensures
        run(s, outcomes).hops.len() == k,
        run(s, outcomes).result == Some(
            Err::<Seq<char>, FailureView>(FailureView::TooManyRedirects(status_of(outcomes[k as int]))),
        ),
    decreases k,
{
    assert(is_valid_redirect(outcomes[0]));
    if k > 0 {
        let (next, st) = step_spec(s, outcomes[0]);
        let tail = outcomes.drop_first();
        assert forall|i: int| 0 <= i <= k - 1 implies is_valid_redirect(#[trigger] tail[i]) by {
            assert(tail[i] == outcomes[i + 1]);
        }
        assert(tail[k - 1] == outcomes[k as int]);
        lemma_chain_stops_from(next, tail, (k - 1) as nat);
    }
}

/// However many valid redirects a server hands out, a chain follows exactly
/// `max_redirects` of them and fails with `TooManyRedirects` at the next one,
/// carrying that redirect's status.
pub proof fn lemma_chain_over_limit_fails(
    url: Seq<char>,
    max_redirects: nat,
    outcomes: Seq<ProbeOutcome>,
)
    requires
        outcomes.len() > max_redirects,
        forall|i: int| 0 <= i <= max_redirects ==> is_valid_redirect(#[trigger] outcomes[i]),
    ensures
        run(fresh(url, max_redirects), outcomes).hops.len() == max_redirects,
        run(fresh(url, max_redirects), outcomes).result == Some(
            Err::<Seq<char>, FailureView>(
                FailureView::TooManyRedirects(status_of(outcomes[max_redirects as int])),
            ),
        ),
{
    lemma_chain_stops_from(fresh(url, max_redirects), outcomes, max_redirects);
}

} // verus!
