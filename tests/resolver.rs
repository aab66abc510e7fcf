use unshorten::resolver::{Hop, ProbeOutcome, ResolveError, Resolver, Step, MAX_REDIRECTS};
use unshorten::status::{classify, StatusClass};

fn redirect(status: u16, to: &str) -> ProbeOutcome {
    ProbeOutcome::Response {
        status,
        location: Some(to.to_string()),
        reached: String::new(),
    }
}

fn arrive(status: u16, reached: &str) -> ProbeOutcome {
    ProbeOutcome::Response {
        status,
        location: None,
        reached: reached.to_string(),
    }
}

/// Feeds the outcomes to the resolver, in order, until the chain is over.
fn drive(
    mut resolver: Resolver,
    outcomes: Vec<ProbeOutcome>,
) -> (Vec<Hop>, Option<Result<String, ResolveError>>) {
    let mut hops = Vec::new();
    for outcome in outcomes {
        match resolver.step(outcome) {
            Step::Redirect(hop) => {
                assert_eq!(resolver.url(), hop.next);
                hops.push(hop);
            }
            Step::Finished(result) => return (hops, Some(result)),
        }
    }
    (hops, None)
}

fn hop_url(i: usize) -> String {
    format!("https://hop{}.example/", i)
}

fn chain(redirects: usize, last: ProbeOutcome) -> Vec<ProbeOutcome> {
    let mut outcomes: Vec<ProbeOutcome> = (1..=redirects)
        .map(|i| redirect(301, &hop_url(i)))
        .collect();
    outcomes.push(last);
    outcomes
}

#[test]
fn chains_up_to_the_limit_resolve() {
    for d in 0..=10usize {
        let outcomes = chain(d, arrive(200, "https://final.example/"));
        let (hops, result) = drive(Resolver::new(hop_url(0)), outcomes);
        assert_eq!(hops.len(), d);
        assert_eq!(result, Some(Ok("https://final.example/".to_string())));
        for (i, hop) in hops.iter().enumerate() {
            assert_eq!(hop.depth as usize, i);
            assert_eq!(hop.url, hop_url(i));
            assert_eq!(hop.next, hop_url(i + 1));
            assert_eq!(hop.status, 301);
        }
    }
}

#[test]
fn eleventh_redirect_is_refused() {
    let mut outcomes: Vec<ProbeOutcome> = (1..=10).map(|i| redirect(302, &hop_url(i))).collect();
    outcomes.push(redirect(307, &hop_url(11)));
    outcomes.push(arrive(200, "https://final.example/"));
    let (hops, result) = drive(Resolver::new(hop_url(0)), outcomes);
    assert_eq!(hops.len(), 10);
    assert_eq!(result, Some(Err(ResolveError::TooManyRedirects(307))));
}

#[test]
fn default_limit_is_ten() {
    let r = Resolver::new("https://a.example/".to_string());
    assert_eq!(MAX_REDIRECTS, 10);
    assert_eq!(r.max_redirects(), 10);
    assert_eq!(r.depth(), 0);
    assert_eq!(r.url(), "https://a.example/");
}

#[test]
fn custom_limit_is_kept() {
    let outcomes = chain(3, arrive(200, "https://final.example/"));
    let (hops, result) = drive(Resolver::with_limit(hop_url(0), 2), outcomes);
    assert_eq!(hops.len(), 2);
    assert_eq!(result, Some(Err(ResolveError::TooManyRedirects(301))));

    let outcomes = chain(2, arrive(204, "https://final.example/"));
    let (hops, result) = drive(Resolver::with_limit(hop_url(0), 2), outcomes);
    assert_eq!(hops.len(), 2);
    assert_eq!(result, Some(Ok("https://final.example/".to_string())));
}

#[test]
fn zero_limit_refuses_any_redirect() {
    let mut r = Resolver::with_limit(hop_url(0), 0);
    assert_eq!(
        r.step(redirect(308, &hop_url(1))),
        Step::Finished(Err(ResolveError::TooManyRedirects(308)))
    );
}

#[test]
fn direct_success_needs_no_redirect() {
    let mut r = Resolver::new("https://example.com/".to_string());
    assert_eq!(
        r.step(arrive(200, "https://example.com/")),
        Step::Finished(Ok("https://example.com/".to_string()))
    );
    assert_eq!(r.depth(), 0);
}

#[test]
fn missing_location_is_malformed() {
    let mut r = Resolver::new("https://a.example/".to_string());
    let outcome = ProbeOutcome::Response {
        status: 301,
        location: None,
        reached: "https://a.example/".to_string(),
    };
    assert_eq!(r.step(outcome), Step::Finished(Err(ResolveError::MalformedRedirect(301))));
    assert_eq!(r.url(), "https://a.example/");
}

#[test]
fn relative_or_garbage_location_is_malformed() {
    let mut r = Resolver::new("https://a.example/".to_string());
    assert_eq!(
        r.step(redirect(302, "/elsewhere")),
        Step::Finished(Err(ResolveError::MalformedRedirect(302)))
    );
    assert_eq!(
        r.step(redirect(302, "")),
        Step::Finished(Err(ResolveError::MalformedRedirect(302)))
    );
    assert_eq!(
        r.step(redirect(302, "http://[broken")),
        Step::Finished(Err(ResolveError::MalformedRedirect(302)))
    );
}

#[test]
fn malformed_comes_before_the_limit() {
    let mut r = Resolver::with_limit("https://a.example/".to_string(), 0);
    let outcome = ProbeOutcome::Response {
        status: 303,
        location: None,
        reached: String::new(),
    };
    assert_eq!(r.step(outcome), Step::Finished(Err(ResolveError::MalformedRedirect(303))));
}

#[test]
fn location_is_normalized() {
    let mut r = Resolver::new("https://a.example/".to_string());
    match r.step(redirect(301, "HTTPS://B.Example")) {
        Step::Redirect(hop) => {
            assert_eq!(hop.url, "https://a.example/");
            assert_eq!(hop.next, "https://b.example/");
            assert_eq!(hop.status, 301);
            assert_eq!(hop.depth, 0);
        }
        other => panic!("expected a redirect, got {:?}", other),
    }
    assert_eq!(r.url(), "https://b.example/");
    assert_eq!(r.depth(), 1);
}

#[test]
fn not_found_is_unreachable() {
    let mut r = Resolver::new("https://a.example/".to_string());
    assert_eq!(
        r.step(arrive(404, "https://a.example/")),
        Step::Finished(Err(ResolveError::UnreachableServer(404)))
    );
}

#[test]
fn server_error_and_informational_are_unreachable() {
    let mut r = Resolver::new("https://a.example/".to_string());
    assert_eq!(
        r.step(arrive(500, "https://a.example/")),
        Step::Finished(Err(ResolveError::UnreachableServer(500)))
    );
    assert_eq!(
        r.step(arrive(101, "https://a.example/")),
        Step::Finished(Err(ResolveError::UnreachableServer(101)))
    );
}

#[test]
fn timeout_is_a_transport_error() {
    let mut r = Resolver::new("https://a.example/".to_string());
    assert_eq!(
        r.step(ProbeOutcome::Transport("operation timed out".to_string())),
        Step::Finished(Err(ResolveError::TransportError(
            "operation timed out".to_string()
        )))
    );
}

#[test]
fn status_classes() {
    assert_eq!(classify(199), StatusClass::Other);
    assert_eq!(classify(200), StatusClass::Success);
    assert_eq!(classify(299), StatusClass::Success);
    assert_eq!(classify(300), StatusClass::Redirection);
    assert_eq!(classify(399), StatusClass::Redirection);
    assert_eq!(classify(400), StatusClass::Other);
    assert_eq!(classify(0), StatusClass::Other);
}
