//! What the user is told about a source URL, and how the fast path for known
//! shortening services is combined with the resolver.
//!
//! The caller first asks [`plan`] whether the source is one that the fast path
//! knows. If so it runs the fast path and hands its outcome to
//! [`fast_path_verdict`]; when that gives no verdict, or the fast path was not
//! tried, the source goes to a [`crate::resolver::Resolver`] from depth 0, and
//! its result goes to [`verdict`].

use vstd::prelude::*;

use crate::chain::{fresh, is_arrival, reached_of, run};
use crate::resolver::{FailureView, ProbeOutcome, ResolveError};

verus! {

/// What is reported for a source URL.
#[derive(Debug, PartialEq, Eq)]
pub enum Verdict {
    /// The source leads to itself.
    NotShortened,
    /// The source leads to this other URL.
    Expanded(String),
    /// The chain could not be resolved.
    Failed(ResolveError),
}

/// The verdict on a source, given the result of resolving it.
pub open spec fn verdict_of(source: Seq<char>, result: Result<String, ResolveError>) -> Verdict {
    match result {
        Ok(d) => if d@ == source {
            Verdict::NotShortened
        } else {
            Verdict::Expanded(d)
        },
        Err(e) => Verdict::Failed(e),
    }
}

/// Reports on `source` from the result of resolving it: not shortened when the
/// destination is the source itself.
pub fn verdict(source: &str, result: Result<String, ResolveError>) -> (r: Verdict)
    ensures
        r == verdict_of(source@, result),
{
    match result {
        Ok(d) => {
            let s = source.to_owned();
            if d == s {
                Verdict::NotShortened
            } else {
                Verdict::Expanded(d)
            }
        },
        Err(e) => Verdict::Failed(e),
    }
}

/// Whether the known-shortener list of `urlexpand` claims `url`.
pub uninterp spec fn listed_shortener(url: Seq<char>) -> bool;

/// Relies on `urlexpand::is_shortened`: a lookup of the URL's text in the
/// crate's fixed list of shortening services, with no I/O.
#[verifier::external_body]
fn is_listed_shortener(url: &str) -> (r: bool)
    ensures
        r == listed_shortener(url@),
{
    urlexpand::is_shortened(url)
}

/// Which resolution is tried first.
#[derive(Debug, Clone, Copy, PartialEq, Eq, Structural)]
pub enum Plan {
    /// Ask the fast path of the known shortening service first.
    FastPath,
    /// Go straight to the redirect-chain resolver.
    Generic,
}

/// The fast path is tried first exactly for sources on the known-shortener list.
pub fn plan(source: &str) -> (r: Plan)
    ensures
        r == (if listed_shortener(source@) {
            Plan::FastPath
        } else {
            Plan::Generic
        }),
{
    if is_listed_shortener(source) {
        Plan::FastPath
    } else {
        Plan::Generic
    }
}

/// What came of the fast path.
#[derive(Debug, Clone, PartialEq, Eq)]
pub enum FastPathOutcome {
    /// It resolved the source to this URL.
    Resolved(String),
    /// It failed; the description of the failure.
    Failed(String),
}

/// The verdict when the fast path has settled the source, or `None` when the
/// redirect-chain resolver must take over. A fast-path failure is never a
/// verdict of its own: it only hands the source on.
pub fn fast_path_verdict(source: &str, outcome: FastPathOutcome) -> (r: Option<Verdict>)
    ensures
        match outcome {
            FastPathOutcome::Resolved(d) => r == Some(verdict_of(source@, Ok(d))),
            FastPathOutcome::Failed(_) => r is None,
        },
{
    match outcome {
        FastPathOutcome::Resolved(d) => Some(verdict(source, Ok(d))),
        FastPathOutcome::Failed(_) => None,
    }
}

/// When the first probe of a source gets a 2xx response that reached the source
/// itself, the chain ends there with no hop, at the source, and the source is
/// reported as not shortened.
pub proof fn lemma_direct_arrival_not_shortened(source: String, max_redirects: nat, o: ProbeOutcome)
    requires
        is_arrival(o),
        reached_of(o) == source@,
    ensures
        run(fresh(source@, max_redirects), seq![o]).hops.len() == 0,
        run(fresh(source@, max_redirects), seq![o]).result == Some(
            Ok::<Seq<char>, FailureView>(source@),
        ),
        verdict_of(source@, Ok(source)) == Verdict::NotShortened,
{
}

} // verus!
