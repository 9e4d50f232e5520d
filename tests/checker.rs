use misaki_core::checker::{DirectOutcome, LinkChecker, ProbeStep};
use misaki_core::command::FalreSolverrCommand;
use misaki_core::flaresolverr::{FlareSolverrClient, FlareSolverrSolution, SessionError};
use misaki_core::status::UrlStatus;

fn strings(v: &[&str]) -> Vec<String> {
    v.iter().map(|s| s.to_string()).collect()
}

fn session() -> FlareSolverrClient {
    FlareSolverrClient::new("http://localhost:8191", 60, "tok".to_string()).unwrap()
}

fn done(step: ProbeStep) -> UrlStatus {
    match step {
        ProbeStep::Done(s) => s,
        ProbeStep::Bypass(_) => panic!("expected a settled status"),
    }
}

#[test]
fn duplicate_url_probed_once_with_status_200() {
    let checker = LinkChecker::new(None);
    let targets = checker.check_all(strings(&["http://example.com", "http://example.com"]));
    assert_eq!(targets, strings(&["http://example.com"]));
    let results: Vec<UrlStatus> = targets
        .iter()
        .map(|u| done(checker.check(u, DirectOutcome::Responded(200))))
        .collect();
    assert_eq!(
        results,
        vec![UrlStatus { url: "http://example.com".to_string(), status: Some(200) }]
    );
}

#[test]
fn forbidden_goes_through_bypass_and_takes_its_status() {
    let checker = LinkChecker::new(Some(session()));
    let targets = checker.check_all(strings(&["http://blocked.example"]));
    assert_eq!(targets.len(), 1);
    let step = checker.check(&targets[0], DirectOutcome::Responded(403));
    let command = match step {
        ProbeStep::Bypass(c) => c,
        ProbeStep::Done(_) => panic!("expected a bypass"),
    };
    match &command {
        FalreSolverrCommand::Get { url, timeout, session } => {
            assert_eq!(url, "http://blocked.example");
            assert_eq!(*timeout, 60);
            assert_eq!(session, "tok");
        }
        _ => panic!("expected a fetch command"),
    }
    let reply = FlareSolverrSolution { url: "http://blocked.example".to_string(), status: Some(200) };
    let status = FlareSolverrClient::check(targets[0].clone(), Some(reply));
    assert_eq!(status, UrlStatus { url: "http://blocked.example".to_string(), status: Some(200) });
}

#[test]
fn transport_failure_gives_unknown_status() {
    let checker = LinkChecker::new(None);
    let status = done(checker.check("http://unreachable.invalid", DirectOutcome::Failed));
    assert_eq!(status, UrlStatus { url: "http://unreachable.invalid".to_string(), status: None });
    let with_bypass = LinkChecker::new(Some(session()));
    let status = done(with_bypass.check("http://unreachable.invalid", DirectOutcome::Failed));
    assert_eq!(status.status, None);
}

#[test]
fn undelivered_create_fails_construction() {
    assert_eq!(session().confirm(false).unwrap_err(), SessionError::CreateFailed);
    assert!(session().confirm(true).is_ok());
    assert_eq!(
        FlareSolverrClient::new("not a url", 60, "tok".to_string()).unwrap_err(),
        SessionError::InvalidEndpoint
    );
}

#[test]
fn decision_table() {
    let plain = LinkChecker::new(None);
    let bypass = LinkChecker::new(Some(session()));
    assert_eq!(done(plain.check("u", DirectOutcome::Responded(403))).status, Some(403));
    assert!(matches!(bypass.check("u", DirectOutcome::Responded(403)), ProbeStep::Bypass(_)));
    assert_eq!(done(plain.check("u", DirectOutcome::Responded(200))).status, Some(200));
    assert_eq!(done(bypass.check("u", DirectOutcome::Responded(200))).status, Some(200));
    assert_eq!(done(bypass.check("u", DirectOutcome::Responded(404))).status, Some(404));
    assert_eq!(done(plain.check("u", DirectOutcome::Failed)).status, None);
}

#[test]
fn bypass_failure_gives_unknown_status() {
    let status = FlareSolverrClient::check("http://blocked.example".to_string(), None);
    assert_eq!(status, UrlStatus { url: "http://blocked.example".to_string(), status: None });
}

#[test]
fn close_hands_out_one_destroy_command() {
    let mut checker = LinkChecker::new(Some(session()));
    assert!(checker.has_bypass());
    match checker.close() {
        Some(FalreSolverrCommand::DestroySession(s)) => assert_eq!(s, "tok"),
        _ => panic!("expected a destroy command"),
    }
    assert!(!checker.has_bypass());
    assert!(checker.close().is_none());
    assert!(checker.close().is_none());
    assert!(LinkChecker::new(None).close().is_none());
}

#[test]
fn check_all_keeps_first_occurrences() {
    let checker = LinkChecker::new(None);
    let targets = checker.check_all(strings(&["b", "a", "b", "c", "a"]));
    assert_eq!(targets, strings(&["b", "a", "c"]));
    assert!(checker.check_all(Vec::new()).is_empty());
    let once = checker.check_all(strings(&["x", "y", "x"]));
    let twice = checker.check_all(strings(&["x", "y", "x", "x", "y", "x"]));
    assert_eq!(once, twice);
    assert_eq!(checker.check_all(strings(&["u", "u"])), checker.check_all(strings(&["u"])));
}

#[test]
fn crashed_task_yields_unknown_status() {
    let status = LinkChecker::completed("http://a".to_string(), None);
    assert_eq!(status, UrlStatus { url: "http://a".to_string(), status: None });
    let given = UrlStatus { url: "http://a".to_string(), status: Some(500) };
    assert_eq!(LinkChecker::completed("http://a".to_string(), Some(given.clone())), given);
}

#[test]
fn status_equality_is_structural() {
    let a = UrlStatus::with_code("x".to_string(), 200);
    assert_eq!(a, UrlStatus { url: "x".to_string(), status: Some(200) });
    assert_ne!(a, UrlStatus::unknown("x".to_string()));
    assert_ne!(a, UrlStatus::with_code("y".to_string(), 200));
}
