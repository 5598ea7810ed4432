use tracing_layer::filters::{ConfigurationError, EventFilters, Filter, Rejected};

fn filter(pattern: &str) -> Filter {
    Filter::new(pattern).unwrap()
}

#[test]
fn inclusion_only_accepts_exactly_the_matches() {
    let ef = EventFilters::new(Some(filter("svc\\.")), None);
    assert_eq!(ef.process("svc.auth"), Ok(()));
    assert_eq!(ef.process("prefix svc.auth suffix"), Ok(()));
    assert_eq!(ef.process("other.mod"), Err(Rejected::MissedInclusion));
    assert_eq!(ef.process(""), Err(Rejected::MissedInclusion));
}

#[test]
fn exclusion_only_accepts_exactly_the_non_matches() {
    let ef = EventFilters::new(None, Some(filter("noisy")));
    assert_eq!(ef.process("quiet event"), Ok(()));
    assert_eq!(ef.process("a noisy event"), Err(Rejected::MatchedExclusion));
}

#[test]
fn absent_matchers_accept_every_input() {
    let ef = EventFilters::new(None, None);
    assert_eq!(ef.process(""), Ok(()));
    assert_eq!(ef.process("anything at all"), Ok(()));
    assert_eq!(ef.process("svc.auth"), Ok(()));
}

#[test]
fn both_matchers_must_pass() {
    let ef = EventFilters::new(Some(filter("^svc")), Some(filter("internal")));
    assert_eq!(ef.process("svc.auth"), Ok(()));
    assert_eq!(ef.process("svc.internal"), Err(Rejected::MatchedExclusion));
    assert_eq!(ef.process("web.internal"), Err(Rejected::MissedInclusion));
}

#[test]
fn inclusion_miss_is_reported_before_exclusion_match() {
    let ef = EventFilters::new(Some(filter("^a")), Some(filter("b")));
    assert_eq!(ef.process("b only"), Err(Rejected::MissedInclusion));
}

#[test]
fn invalid_pattern_fails_fast_at_construction() {
    assert_eq!(
        Filter::new("foo(bar").err(),
        Some(ConfigurationError::InvalidPattern)
    );
    assert!(Filter::new("svc\\.").is_ok());
}

#[test]
fn matcher_consults_the_compiled_pattern() {
    let f = filter("^[0-9]{3}$");
    assert!(f.is_match("123"));
    assert!(!f.is_match("12"));
    assert!(!f.is_match("^[0-9]{3}$"));
}

#[test]
fn absent_filter_set_imposes_no_constraint() {
    assert_eq!(EventFilters::process_opt(&None, "whatever"), Ok(()));
    let some = Some(EventFilters::new(Some(filter("x")), None));
    assert_eq!(
        EventFilters::process_opt(&some, "y"),
        Err(Rejected::MissedInclusion)
    );
}
