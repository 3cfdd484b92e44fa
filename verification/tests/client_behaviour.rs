//! The executor's retry policy, endpoint request construction, and the
//! parsing layers under them.

use amber_api::client::{Amber, AmberBuilder};
use amber_api::datetime::{parse_date, parse_timestamp, Date};
use amber_api::error::AmberError;
use amber_api::json::{parse_json, JsonValue};
use amber_api::models::{Resolution, State};
use amber_api::retry::{retry_step, run_events, HttpEvent, RetryPolicy, StepOutcome};
use amber_api::text::parse_u64;

fn rate_limited(reset: Option<&str>) -> HttpEvent {
    HttpEvent::Response {
        status: 429,
        retry_reset: reset.map(|s| s.to_owned()),
        body: String::new(),
    }
}

fn success(body: &str) -> HttpEvent {
    HttpEvent::Response { status: 200, retry_reset: None, body: body.to_owned() }
}

#[test]
fn retry_succeeds_after_two_waits() {
    let policy = RetryPolicy { max_retries: 3, enabled: true };
    let events = vec![
        rate_limited(Some("5")),
        rate_limited(Some("5")),
        success("[]"),
    ];
    let run = run_events(&policy, &events);
    assert_eq!(run.waits, vec![5, 5]);
    assert_eq!(run.outcome.expect("call must succeed"), "[]");
}

#[test]
fn retry_exhaustion_reports_attempts_and_default_wait() {
    let policy = RetryPolicy { max_retries: 2, enabled: true };
    let events = vec![rate_limited(None), rate_limited(None), rate_limited(None)];
    let run = run_events(&policy, &events);
    assert_eq!(run.waits, vec![60, 60]);
    let err = run.outcome.expect_err("budget must be spent");
    assert!(matches!(
        err,
        AmberError::RateLimitExhausted { attempts: 2, retry_after: 60 }
    ));
}

#[test]
fn retry_disabled_fails_immediately() {
    let policy = RetryPolicy { max_retries: 3, enabled: false };
    let events = vec![rate_limited(Some("30"))];
    let run = run_events(&policy, &events);
    assert!(run.waits.is_empty());
    let err = run.outcome.expect_err("must fail without waiting");
    assert!(matches!(err, AmberError::RateLimitExceeded(30)));
}

#[test]
fn unparseable_reset_header_defaults_to_sixty() {
    let policy = RetryPolicy { max_retries: 0, enabled: true };
    let step = retry_step(&policy, 0, &rate_limited(Some("soon")));
    match step {
        StepOutcome::Done(Err(AmberError::RateLimitExhausted { attempts, retry_after })) => {
            assert_eq!(attempts, 0);
            assert_eq!(retry_after, 60);
        },
        _ => panic!("expected exhaustion with the default wait"),
    }
}

#[test]
fn other_statuses_surface_with_their_body() {
    let policy = RetryPolicy { max_retries: 3, enabled: true };
    let events = vec![HttpEvent::Response {
        status: 500,
        retry_reset: None,
        body: "boom".to_owned(),
    }];
    let run = run_events(&policy, &events);
    assert!(run.waits.is_empty());
    match run.outcome.expect_err("a 500 must surface") {
        AmberError::UnexpectedStatus { status, body } => {
            assert_eq!(status, 500);
            assert_eq!(body, "boom");
        },
        _ => panic!("expected an unexpected-status error"),
    }
}

#[test]
fn transport_failures_surface_unretried() {
    let policy = RetryPolicy { max_retries: 3, enabled: true };
    let events = vec![HttpEvent::TransportFailed { message: "dns".to_owned() }];
    let run = run_events(&policy, &events);
    assert!(run.waits.is_empty());
    match run.outcome.expect_err("a transport failure must surface") {
        AmberError::Transport(message) => assert_eq!(message, "dns"),
        _ => panic!("expected a transport error"),
    }
}

#[test]
fn current_prices_path_and_query() {
    let client = Amber::default();
    let req = client.current_prices_request(
        "S1",
        Some(3),
        Some(2),
        Some(Resolution::ThirtyMinute),
    );
    assert_eq!(req.path, "sites/S1/prices/current");
    assert_eq!(req.query.len(), 3);
    let mut seen = std::collections::BTreeMap::new();
    for (k, v) in &req.query {
        assert!(seen.insert(k.clone(), v.clone()).is_none(), "duplicate key");
    }
    assert_eq!(seen.get("previous").map(String::as_str), Some("2"));
    assert_eq!(seen.get("next").map(String::as_str), Some("3"));
    assert_eq!(seen.get("resolution").map(String::as_str), Some("30"));
}

#[test]
fn absent_options_are_omitted_entirely() {
    let client = Amber::default();
    assert!(client.current_prices_request("S1", None, None, None).query.is_empty());
    assert!(client.prices_request("S1", None, None, None).query.is_empty());
    assert!(
        client.current_renewables_request(State::Vic, None, None, None).query.is_empty()
    );
    let partial = client.current_prices_request("S1", Some(3), Some(2), None);
    assert_eq!(partial.query.len(), 2);
    assert!(partial.query.iter().all(|(k, _)| k != "resolution"));
}

#[test]
fn renewables_path_needs_no_credential() {
    let client = Amber::default();
    assert!(client.api_key.is_none());
    let req = client.current_renewables_request(State::Nsw, Some(8), None, Some(Resolution::FiveMinute));
    assert_eq!(req.path, "state/nsw/renewables/current");
    assert_eq!(req.query.len(), 2);
}

#[test]
fn prices_request_encodes_dates() {
    let client = Amber::default();
    let start = Date::new(2021, 5, 1).expect("valid date");
    let end = Date::new(2021, 5, 3).expect("valid date");
    let req = client.prices_request("site-7", Some(start), Some(end), Some(Resolution::FiveMinute));
    assert_eq!(req.path, "sites/site-7/prices");
    assert_eq!(req.query.len(), 3);
    assert_eq!(req.query[0].0, "startDate");
    assert_eq!(req.query[0].1, "2021-05-01");
    assert_eq!(req.query[1].0, "endDate");
    assert_eq!(req.query[1].1, "2021-05-03");
    assert_eq!(req.query[2].0, "resolution");
    assert_eq!(req.query[2].1, "5");
}

#[test]
fn usage_request_requires_both_dates() {
    let client = Amber::default();
    let start = Date::new(2021, 5, 1).expect("valid date");
    let end = Date::new(2021, 5, 3).expect("valid date");
    let req = client.usage_request("S1", start, end);
    assert_eq!(req.path, "sites/S1/usage");
    assert_eq!(req.query.len(), 2);
    assert_eq!(req.query[0].0, "startDate");
    assert_eq!(req.query[0].1, "2021-05-01");
    assert_eq!(req.query[1].0, "endDate");
    assert_eq!(req.query[1].1, "2021-05-03");
}

#[test]
fn sites_request_is_bare() {
    let client = Amber::default();
    let req = client.sites_request();
    assert_eq!(req.path, "sites");
    assert!(req.query.is_empty());
    assert_eq!(client.endpoint_url(&req), "https://api.amber.com.au/v1/sites");
}

#[test]
fn builder_defaults_and_overrides() {
    let built = AmberBuilder::new().build();
    assert!(built.api_key.is_none());
    assert_eq!(built.base_url, "https://api.amber.com.au/v1/");
    assert_eq!(built.retry.max_retries, 3);
    assert!(built.retry.enabled);

    let tuned = AmberBuilder::new()
        .api_key("SECRET-REDACTED".to_owned())
        .base_url("http://localhost:9000/".to_owned())
        .max_retries(1)
        .retry_on_rate_limit(false)
        .build();
    assert_eq!(tuned.api_key.as_deref(), Some("SECRET-REDACTED"));
    assert_eq!(tuned.base_url, "http://localhost:9000/");
    assert_eq!(tuned.retry.max_retries, 1);
    assert!(!tuned.retry.enabled);
}

#[test]
fn error_messages_name_their_cause() {
    assert_eq!(
        AmberError::Transport("connection refused".to_owned()).message(),
        "HTTP request failed: connection refused"
    );
    assert_eq!(
        AmberError::Deserialization("malformed JSON body".to_owned()).message(),
        "Failed to decode response body: malformed JSON body"
    );
    assert_eq!(
        AmberError::RateLimitExceeded(30).message(),
        "Rate limit exceeded. Retry after 30 seconds"
    );
    assert_eq!(
        AmberError::RateLimitExhausted { attempts: 2, retry_after: 60 }.message(),
        "Rate limit exceeded after 2 retry attempts. Last retry-after: 60 seconds"
    );
    assert_eq!(
        AmberError::UnexpectedStatus { status: 500, body: "boom".to_owned() }.message(),
        "HTTP 500: boom"
    );
}

#[test]
fn reset_header_parsing() {
    assert_eq!(parse_u64("5"), Some(5));
    assert_eq!(parse_u64("0060"), Some(60));
    assert_eq!(parse_u64("18446744073709551615"), Some(u64::MAX));
    assert_eq!(parse_u64("18446744073709551616"), None);
    assert_eq!(parse_u64(""), None);
    assert_eq!(parse_u64("5s"), None);
    assert_eq!(parse_u64("-5"), None);
}

#[test]
fn json_scalars_parse() {
    assert!(matches!(parse_json("null"), Ok(JsonValue::Null)));
    assert!(matches!(parse_json("true"), Ok(JsonValue::Bool(true))));
    assert!(matches!(parse_json("false"), Ok(JsonValue::Bool(false))));
    match parse_json("-12.5").expect("valid number") {
        JsonValue::Num(d) => assert_eq!(d.units, -12_500_000_000),
        _ => panic!("expected a number"),
    }
    match parse_json("\"a\\nb\\\"c\"").expect("valid string") {
        JsonValue::Str(s) => assert_eq!(s, "a\nb\"c"),
        _ => panic!("expected a string"),
    }
}

#[test]
fn json_structures_parse() {
    let v = parse_json(" { \"a\" : [ 1 , 2.25 ] , \"b\" : { } } ").expect("valid object");
    let members = match v {
        JsonValue::Obj(m) => m,
        _ => panic!("expected an object"),
    };
    assert_eq!(members.len(), 2);
    assert_eq!(members[0].0, "a");
    match &members[0].1 {
        JsonValue::Arr(items) => {
            assert_eq!(items.len(), 2);
            assert!(matches!(items[0], JsonValue::Num(d) if d.units == 1_000_000_000));
            assert!(matches!(items[1], JsonValue::Num(d) if d.units == 2_250_000_000));
        },
        _ => panic!("expected an array"),
    }
    assert!(matches!(&members[1].1, JsonValue::Obj(m) if m.is_empty()));
}

#[test]
fn json_rejects_malformed_bodies() {
    assert!(parse_json("").is_err());
    assert!(parse_json("{").is_err());
    assert!(parse_json("[1,]").is_err());
    assert!(parse_json("nulled").is_err());
    assert!(parse_json("\"unterminated").is_err());
    assert!(parse_json("1 2").is_err());
    assert!(parse_json("1e3").is_err());
    assert!(matches!(
        parse_json("{,}").expect_err("malformed"),
        AmberError::Deserialization(_)
    ));
}

#[test]
fn dates_validate_the_calendar() {
    assert!(parse_date("2021-05-05").is_some());
    assert!(parse_date("2020-02-29").is_some());
    assert!(parse_date("2021-02-29").is_none());
    assert!(parse_date("2021-13-01").is_none());
    assert!(parse_date("2021-00-10").is_none());
    assert!(parse_date("21-05-05").is_none());
    let d = parse_date("2021-05-05").expect("valid date");
    assert_eq!((d.year, d.month, d.day), (2021, 5, 5));
}

#[test]
fn timestamps_honour_their_offsets() {
    let utc = parse_timestamp("2021-05-06T02:30:00Z").expect("valid timestamp");
    let nem = parse_timestamp("2021-05-06T12:30:00+10:00").expect("valid timestamp");
    assert_eq!(utc, nem);
    assert_eq!(utc.secs, 1620268200);

    let negative = parse_timestamp("2021-05-06T02:30:00-01:30").expect("valid timestamp");
    assert_eq!(negative.secs, utc.secs + 90 * 60);

    let fractional = parse_timestamp("2021-05-06T02:30:00.25Z").expect("valid timestamp");
    assert_eq!(fractional.secs, utc.secs);
    assert_eq!(fractional.nanos, 250_000_000);
    assert!(utc.lt(&fractional));

    assert!(parse_timestamp("2021-05-06T02:30:00").is_none());
    assert!(parse_timestamp("2021-05-06 02:30:00Z").is_none());
    assert!(parse_timestamp("2021-05-06T25:30:00Z").is_none());
}

#[test]
fn epoch_reference_points() {
    assert_eq!(parse_timestamp("1970-01-01T00:00:00Z").expect("valid").secs, 0);
    assert_eq!(parse_timestamp("1970-01-02T00:00:00Z").expect("valid").secs, 86400);
    assert_eq!(parse_timestamp("1969-12-31T23:59:59Z").expect("valid").secs, -1);
    assert_eq!(parse_timestamp("2000-03-01T00:00:00Z").expect("valid").secs, 951868800);
}
