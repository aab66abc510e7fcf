//! The redirect-chain resolver.
//!
//! A [`Resolver`] holds the cursor of one chain: the URL to probe next and how
//! many redirects have been followed to reach it. The caller probes that URL
//! without following redirects itself, and hands the outcome to
//! [`Resolver::step`], which either moves the cursor to the next hop or ends the
//! chain with a final URL or a [`ResolveError`].

use vstd::prelude::*;

use crate::location::{parse_absolute, parsed_url};
use crate::status::{class_of, classify, StatusClass};

verus! {

/// How many redirects a chain may follow unless told otherwise.
pub const MAX_REDIRECTS: u32 = 10;

/// Why a chain ended without a destination.
#[derive(Debug, Clone, PartialEq, Eq)]
pub enum ResolveError {
    /// The probe failed below HTTP (connection, DNS, TLS, timeout); carries the
    /// transport's description of the failure.
    TransportError(String),
    /// The server answered with a status that is neither 2xx nor 3xx.
    UnreachableServer(u16),
    /// A 3xx response had no `location`, or one that is not an absolute URL.
    MalformedRedirect(u16),
    /// A 3xx response came when the chain had already followed its limit of
    /// redirects; carries the status of the redirect that was refused.
    TooManyRedirects(u16),
}

/// [`ResolveError`] with its description as a sequence of characters.
pub enum FailureView {
    TransportError(Seq<char>),
    UnreachableServer(u16),
    MalformedRedirect(u16),
    TooManyRedirects(u16),
}

impl View for ResolveError {
    type V = FailureView;

    open spec fn view(&self) -> FailureView {
        match self {
            ResolveError::TransportError(d) => FailureView::TransportError(d@),
            ResolveError::UnreachableServer(s) => FailureView::UnreachableServer(*s),
            ResolveError::MalformedRedirect(s) => FailureView::MalformedRedirect(*s),
            ResolveError::TooManyRedirects(s) => FailureView::TooManyRedirects(*s),
        }
    }
}

/// The final result of a chain, over views.
pub open spec fn result_view(r: Result<String, ResolveError>) -> Result<Seq<char>, FailureView> {
    match r {
        Ok(u) => Ok(u@),
        Err(e) => Err(e@),
    }
}

/// What came of probing one URL.
#[derive(Debug, Clone, PartialEq, Eq)]
pub enum ProbeOutcome {
    /// The round trip failed below HTTP; the description of the failure.
    Transport(String),
    /// The server answered.
    Response {
        /// The status code of the response.
        status: u16,
        /// The `location` header as text, if the response has one that is text.
        location: Option<String>,
        /// The URL that the transport actually reached.
        reached: String,
    },
}

/// One redirect that was followed.
#[derive(Debug, Clone, PartialEq, Eq)]
pub struct Hop {
    /// The URL that was probed.
    pub url: String,
    /// The 3xx status it answered with.
    pub status: u16,
    /// The URL it redirected to, which is probed next.
    pub next: String,
    /// How many redirects had been followed before this one.
    pub depth: u32,
}

pub struct HopView {
    pub url: Seq<char>,
    pub status: u16,
    pub next: Seq<char>,
    pub depth: nat,
}

impl View for Hop {
    type V = HopView;

    open spec fn view(&self) -> HopView {
        HopView { url: self.url@, status: self.status, next: self.next@, depth: self.depth as nat }
    }
}

/// What the caller does after a probe.
#[derive(Debug, PartialEq, Eq)]
pub enum Step {
    /// Follow this redirect: probe `next` of the hop.
    Redirect(Hop),
    /// The chain is over.
    Finished(Result<String, ResolveError>),
}

pub enum StepView {
    Redirect(HopView),
    Finished(Result<Seq<char>, FailureView>),
}

impl View for Step {
    type V = StepView;

    open spec fn view(&self) -> StepView {
        match self {
            Step::Redirect(h) => StepView::Redirect(h@),
            Step::Finished(r) => StepView::Finished(result_view(*r)),
        }
    }
}

/// The cursor of one redirect chain.
pub struct Resolver {
    url: String,
    depth: u32,
    max_redirects: u32,
}

pub struct ResolverView {
    /// The URL to probe next.
    pub url: Seq<char>,
    /// How many redirects have been followed.
    pub depth: nat,
    /// How many redirects may be followed in all.
    pub max_redirects: nat,
}

impl View for Resolver {
    type V = ResolverView;

    closed spec fn view(&self) -> ResolverView {
        ResolverView {
            url: self.url@,
            depth: self.depth as nat,
            max_redirects: self.max_redirects as nat,
        }
    }
}

/// The absolute URL that a redirect's `location` names, if it names one.
pub open spec fn redirect_target(location: Option<String>) -> Option<Seq<char>> {
    match location {
        Some(l) => parsed_url(l@),
        None => None,
    }
}

/// The cursor after a probe, and what the caller is told to do.
///
/// A 2xx ends the chain at the URL reached, any status but 2xx and 3xx ends it
/// as unreachable. A 3xx is checked first for a usable `location`, then against
/// the limit: it is followed only while fewer than `max_redirects` redirects
/// have been followed.
pub open spec fn step_spec(s: ResolverView, o: ProbeOutcome) -> (ResolverView, StepView) {
    match o {
        ProbeOutcome::Transport(e) => (s, StepView::Finished(Err(FailureView::TransportError(e@)))),
        ProbeOutcome::Response { status, location, reached } => match class_of(status) {
            StatusClass::Success => (s, StepView::Finished(Ok(reached@))),
            StatusClass::Other => (
                s,
                StepView::Finished(Err(FailureView::UnreachableServer(status))),
            ),
            StatusClass::Redirection => match redirect_target(location) {
                None => (s, StepView::Finished(Err(FailureView::MalformedRedirect(status)))),
                Some(next) => if s.depth >= s.max_redirects {
                    (s, StepView::Finished(Err(FailureView::TooManyRedirects(status))))
                } else {
                    (
                        ResolverView { url: next, depth: s.depth + 1, ..s },
                        StepView::Redirect(
                            HopView { url: s.url, status, next, depth: s.depth },
                        ),
                    )
                },
            },
        },
    }
}

impl Resolver {
    /// A chain that starts at `url` and may follow [`MAX_REDIRECTS`] redirects.
    pub fn new(url: String) -> (r: Resolver)
        ensures
            r@ == (ResolverView { url: url@, depth: 0, max_redirects: MAX_REDIRECTS as nat }),
    {
        Resolver { url, depth: 0, max_redirects: MAX_REDIRECTS }
    }

    /// A chain that starts at `url` and may follow `max_redirects` redirects.
    pub fn with_limit(url: String, max_redirects: u32) -> (r: Resolver)
        ensures
            r@ == (ResolverView { url: url@, depth: 0, max_redirects: max_redirects as nat }),
    {
        Resolver { url, depth: 0, max_redirects }
    }

    /// The URL to probe next.
    pub fn url(&self) -> (r: &str)
        ensures
            r@ == self@.url,
    {
        self.url.as_str()
    }

    /// How many redirects have been followed.
    pub fn depth(&self) -> (r: u32)
        ensures
            r == self@.depth,
    {
        self.depth
    }

    /// How many redirects may be followed in all.
    pub fn max_redirects(&self) -> (r: u32)
        ensures
            r == self@.max_redirects,
    {
        self.max_redirects
    }

    /// Takes the outcome of probing [`Resolver::url`] and says what to do next.
    pub fn step(&mut self, outcome: ProbeOutcome) -> (r: Step)
        ensures
            (final(self)@, r@) == step_spec(old(self)@, outcome),
    {
        match outcome {
            ProbeOutcome::Transport(e) => Step::Finished(Err(ResolveError::TransportError(e))),
            ProbeOutcome::Response { status, location, reached } => match classify(status) {
                StatusClass::Success => Step::Finished(Ok(reached)),
                StatusClass::Other => Step::Finished(Err(ResolveError::UnreachableServer(status))),
                StatusClass::Redirection => {
                    let next = match location {
                        Some(l) => parse_absolute(l.as_str()),
                        None => None,
                    };
                    match next {
                        None => Step::Finished(Err(ResolveError::MalformedRedirect(status))),
                        Some(next) => {
                            if self.depth >= self.max_redirects {
                                Step::Finished(Err(ResolveError::TooManyRedirects(status)))
                            } else {
                                let hop = Hop {
                                    url: self.url.clone(),
                                    status,
                                    next: next.clone(),
                                    depth: self.depth,
                                };
                                self.url = next;
                                self.depth = self.depth + 1;
                                Step::Redirect(hop)
                            }
                        },
                    }
                },
            },
        }
    }
}

} // verus!
