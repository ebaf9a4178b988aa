use json_rpc_client::classifier::{
    hint_delay, hint_in_data, hint_seconds, payload_in_body, status_listed,
};
use json_rpc_client::rounding::{seconds_rounded_up, two_to};
use json_rpc_client::retry_layer::next_delay;
use json_rpc_client::{
    Backoff, Delay, ErrorPayload, JSONRpcClient, JSONRpcClientConfig, RetryConfig, RetryLayer, RetryPhase,
    RetryService, RetryState, RetryStep, TransportFailure,
};

fn service() -> RetryService {
    JSONRpcClient::new(JSONRpcClientConfig::default()).retry_layer().layer()
}

fn service_with_tries(max_tries: u32) -> RetryService {
    let mut conf = JSONRpcClientConfig::default().retry_config();
    conf.max_tries = max_tries;
    RetryLayer::new(conf).layer()
}

fn default_backoff() -> Backoff {
    service().new_backoff().unwrap()
}

fn spent_backoff() -> Backoff {
    let zero = Delay { secs: 0, nanos: 0 };
    Backoff::new(Delay::from_millis(100), Delay::from_secs(30), zero, 500, 2000).unwrap()
}

fn steady_backoff(multiplier_permille: u32) -> Backoff {
    Backoff::new(
        Delay::from_millis(100),
        Delay::from_secs(1),
        Delay::from_secs(60),
        0,
        multiplier_permille,
    )
    .unwrap()
}

fn http(status: u16) -> TransportFailure {
    TransportFailure::HttpError { status, body: String::new() }
}

fn error_resp(code: i64, message: &str, data: Option<&str>) -> TransportFailure {
    TransportFailure::ErrorResp(ErrorPayload {
        code,
        message: message.to_string(),
        data: data.map(|d| d.to_string()),
    })
}

fn deser(text: &str) -> TransportFailure {
    TransportFailure::DeserError { text: text.to_string(), message: "expected value".to_string() }
}

#[test]
fn layer_hands_the_rules_on() {
    let s = service();
    assert_eq!(s.conf.retryable_status_codes, vec![429, 502, 503]);
    assert_eq!(s.conf.max_tries, 10);
    assert_eq!(s.conf.initial_interval, Delay { secs: 0, nanos: 100_000_000 });
    assert_eq!(s.conf.randomization_permille, 500);
    assert_eq!(s.conf.multiplier_permille, 2000);
    assert_eq!(s.conf.max_interval, Delay { secs: 30, nanos: 0 });
    assert_eq!(s.conf.max_elapsed_time, Delay { secs: 60, nanos: 0 });
}

#[test]
fn retry_config_clone_keeps_every_field() {
    let conf = RetryConfig {
        retryable_status_codes: vec![500, 504],
        initial_interval: Delay { secs: 1, nanos: 2 },
        randomization_permille: 8,
        multiplier_permille: 9,
        max_interval: Delay { secs: 3, nanos: 4 },
        max_elapsed_time: Delay { secs: 5, nanos: 6 },
        max_tries: 7,
    };
    let c = conf.clone();
    assert_eq!(c.retryable_status_codes, vec![500, 504]);
    assert_eq!(c.initial_interval, Delay { secs: 1, nanos: 2 });
    assert_eq!(c.randomization_permille, 8);
    assert_eq!(c.multiplier_permille, 9);
    assert_eq!(c.max_interval, Delay { secs: 3, nanos: 4 });
    assert_eq!(c.max_elapsed_time, Delay { secs: 5, nanos: 6 });
    assert_eq!(c.max_tries, 7);
}

#[test]
fn listed_status_is_retried() {
    let s = service();
    assert!(s.should_retry(&http(429)));
    assert!(s.should_retry(&http(502)));
    assert!(s.should_retry(&http(503)));
    assert!(!s.should_retry(&http(500)));
    assert!(!s.should_retry(&http(404)));
    assert!(!s.should_retry(&http(200)));
}

#[test]
fn status_listed_looks_at_every_code() {
    assert!(status_listed(&vec![1, 2, 3], 3));
    assert!(status_listed(&vec![1, 2, 3], 1));
    assert!(!status_listed(&vec![1, 2, 3], 4));
    assert!(!status_listed(&Vec::new(), 0));
}

#[test]
fn transport_failure_goes_by_its_own_report() {
    let s = service();
    assert!(s.should_retry(&TransportFailure::Transport {
        retryable: true,
        message: "connection reset".to_string()
    }));
    assert!(!s.should_retry(&TransportFailure::Transport {
        retryable: false,
        message: "backend gone".to_string()
    }));
}

#[test]
fn error_response_goes_by_code_and_message() {
    let s = service();
    assert!(s.should_retry(&error_resp(429, "slow down", None)));
    assert!(s.should_retry(&error_resp(-32005, "project rate limit", None)));
    assert!(s.should_retry(&error_resp(-32000, "header not found", None)));
    assert!(s.should_retry(&error_resp(1, "too many requests, sorry", None)));
    assert!(!s.should_retry(&error_resp(-32601, "Method not found", None)));
    assert!(!s.should_retry(&error_resp(-32016, "something else", None)));
    assert!(s.should_retry(&error_resp(-32016, "over rate limit", None)));
}

#[test]
fn undecodable_body_that_is_an_error_payload() {
    let s = service();
    assert!(s.should_retry(&deser(r#"{"code":429,"message":"slow down"}"#)));
    assert!(!s.should_retry(&deser(r#"{"code":-32601,"message":"Method not found"}"#)));
}

#[test]
fn undecodable_body_with_a_nested_error_payload() {
    let s = service();
    assert!(s.should_retry(&deser(r#"{"error":{"code":429,"message":"slow down"}}"#)));
    assert!(s.should_retry(&deser(
        r#"{"id":1,"error":{"code":-32005,"message":"limit","data":{"rate":{"backoff_seconds":3}}}}"#
    )));
    assert!(!s.should_retry(&deser(r#"{"error":{"code":-32601,"message":"Method not found"}}"#)));
}

#[test]
fn undecodable_body_that_is_nothing() {
    let s = service();
    assert!(!s.should_retry(&deser("<html>429 Too Many Requests</html>")));
    assert!(!s.should_retry(&deser("")));
    assert!(!s.should_retry(&deser("[1, 2, 3]")));
    assert!(!s.should_retry(&deser(r#"{"error":"rate limit"}"#)));
    assert!(!s.should_retry(&deser(r#"{"result":1}"#)));
}

#[test]
fn payload_in_body_reads_all_three_members() {
    let p = payload_in_body(r#"{"code":-5,"message":"m","data":{"a":[1,2]}}"#).unwrap();
    assert_eq!(p.code, -5);
    assert_eq!(p.message, "m");
    assert_eq!(p.data.as_deref(), Some(r#"{"a":[1,2]}"#));
    let q = payload_in_body(r#"{"error":{"code":7,"message":"n"}}"#).unwrap();
    assert_eq!(q.code, 7);
    assert_eq!(q.message, "n");
    assert_eq!(q.data, None);
    let r = payload_in_body(r#"{"error":{"code":8,"message":"o","data":"x"}}"#).unwrap();
    assert_eq!(r.code, 8);
    assert_eq!(r.data.as_deref(), Some(r#""x""#));
    assert!(payload_in_body("nonsense").is_none());
    assert!(payload_in_body(r#"{"message":"no code"}"#).is_none());
}

#[test]
fn other_failures_are_not_retried() {
    let s = service();
    assert!(!s.should_retry(&TransportFailure::Local { message: "cannot serialise".to_string() }));
    assert!(!s.should_retry(&TransportFailure::RetriesExhausted { last: Box::new(http(429)) }));
}

#[test]
fn whole_hint_is_taken_as_it_stands() {
    let s = service();
    let f = error_resp(-32005, "limit", Some(r#"{"rate":{"backoff_seconds":7}}"#));
    assert_eq!(s.backoff_hint(&f), Some(Delay { secs: 7, nanos: 0 }));
    let zero = error_resp(-32005, "limit", Some(r#"{"rate":{"backoff_seconds":0}}"#));
    assert_eq!(s.backoff_hint(&zero), Some(Delay { secs: 0, nanos: 0 }));
}

#[test]
fn fractional_hint_is_rounded_up() {
    let s = service();
    let f = error_resp(-32005, "limit", Some(r#"{"rate":{"backoff_seconds":1.5}}"#));
    assert_eq!(s.backoff_hint(&f), Some(Delay { secs: 2, nanos: 0 }));
    let small = error_resp(-32005, "limit", Some(r#"{"rate":{"backoff_seconds":0.25}}"#));
    assert_eq!(s.backoff_hint(&small), Some(Delay { secs: 1, nanos: 0 }));
    let nearly = error_resp(-32005, "limit", Some(r#"{"rate":{"backoff_seconds":6.999}}"#));
    assert_eq!(s.backoff_hint(&nearly), Some(Delay { secs: 7, nanos: 0 }));
    let just_over = error_resp(-32005, "limit", Some(r#"{"rate":{"backoff_seconds":7.001}}"#));
    assert_eq!(s.backoff_hint(&just_over), Some(Delay { secs: 8, nanos: 0 }));
}

#[test]
fn whole_hint_written_as_a_float_is_taken_as_it_stands() {
    let s = service();
    let two = error_resp(-32005, "limit", Some(r#"{"rate":{"backoff_seconds":2.0}}"#));
    assert_eq!(s.backoff_hint(&two), Some(Delay { secs: 2, nanos: 0 }));
    let zero = error_resp(-32005, "limit", Some(r#"{"rate":{"backoff_seconds":0.0}}"#));
    assert_eq!(s.backoff_hint(&zero), Some(Delay { secs: 0, nanos: 0 }));
    let exp = error_resp(-32005, "limit", Some(r#"{"rate":{"backoff_seconds":3e1}}"#));
    assert_eq!(s.backoff_hint(&exp), Some(Delay { secs: 30, nanos: 0 }));
}

#[test]
fn hint_is_never_below_the_number_and_less_than_a_second_above() {
    for (text, number) in [("0.001", 0.001), ("1.0", 1.0), ("1.25", 1.25), ("59.5", 59.5), ("60", 60.0), ("1e3", 1e3)] {
        let data = format!("{{\"rate\":{{\"backoff_seconds\":{}}}}}", text);
        let d = hint_in_data(&data).unwrap();
        assert_eq!(d.nanos, 0);
        let secs = d.secs as f64;
        assert!(secs >= number, "{} for {}", secs, text);
        assert!(secs < number + 1.0, "{} for {}", secs, text);
    }
}

#[test]
fn hint_outside_the_range_of_seconds() {
    assert_eq!(
        hint_in_data(r#"{"rate":{"backoff_seconds":-4}}"#),
        Some(Delay { secs: 0, nanos: 0 })
    );
    assert_eq!(
        hint_in_data(r#"{"rate":{"backoff_seconds":-0.5}}"#),
        Some(Delay { secs: 0, nanos: 0 })
    );
    assert_eq!(
        hint_in_data(r#"{"rate":{"backoff_seconds":1e30}}"#),
        Some(Delay { secs: u64::MAX, nanos: 0 })
    );
    assert_eq!(
        hint_in_data(r#"{"rate":{"backoff_seconds":18446744073709551615}}"#),
        Some(Delay { secs: u64::MAX, nanos: 0 })
    );
    assert_eq!(
        hint_in_data(r#"{"rate":{"backoff_seconds":9007199254740993}}"#),
        Some(Delay { secs: 9007199254740993, nanos: 0 })
    );
}

#[test]
fn no_hint_where_there_is_none() {
    let s = service();
    assert_eq!(s.backoff_hint(&error_resp(429, "x", None)), None);
    assert_eq!(s.backoff_hint(&error_resp(429, "x", Some("{}"))), None);
    assert_eq!(s.backoff_hint(&error_resp(429, "x", Some(r#"{"rate":{}}"#))), None);
    assert_eq!(s.backoff_hint(&error_resp(429, "x", Some(r#"{"rate":5}"#))), None);
    assert_eq!(s.backoff_hint(&error_resp(429, "x", Some(r#"[1,2]"#))), None);
    assert_eq!(
        s.backoff_hint(&error_resp(429, "x", Some(r#"{"rate":{"backoff_seconds":"7"}}"#))),
        None
    );
    assert_eq!(
        s.backoff_hint(&error_resp(429, "x", Some(r#"{"rate":{"backoff_seconds":null}}"#))),
        None
    );
    assert_eq!(s.backoff_hint(&error_resp(429, "x", Some("not json"))), None);
    assert_eq!(s.backoff_hint(&http(429)), None);
    assert_eq!(
        s.backoff_hint(&deser(r#"{"code":429,"data":{"rate":{"backoff_seconds":7}}}"#)),
        None
    );
}

#[test]
fn rounding_up_from_bits_is_the_ceiling() {
    let mut numbers: Vec<f64> = vec![
        0.0, -0.0, 0.25, 0.5, 0.999_999_999, 1.0, 1.000_000_001, 1.5, 2.0, 2.5, 7.001, 59.5, 60.0,
        1e3, 1e9 + 0.5, 4_503_599_627_370_495.5, 4_503_599_627_370_496.0, 9_007_199_254_740_992.0,
        9_007_199_254_740_993.0, 1.8e19, 18_446_744_073_709_549_568.0, 18_446_744_073_709_551_616.0,
        1e30, f64::MAX, f64::MIN_POSITIVE, 5e-324, 1e-300, -0.5, -1.0, -1.5, -1e30, f64::MIN,
        f64::INFINITY, f64::NEG_INFINITY, f64::NAN,
    ];
    let mut x = 0.000_1;
    while x < 1e22 {
        numbers.push(x);
        numbers.push(x.floor());
        numbers.push(x.floor() + 0.5);
        x *= 1.37;
    }
    for n in numbers {
        assert_eq!(seconds_rounded_up(n.to_bits()), n.ceil() as u64, "{}", n);
    }
}

#[test]
fn rounding_up_on_given_bits() {
    assert_eq!(seconds_rounded_up(0x3ff8_0000_0000_0000), 2);
    assert_eq!(seconds_rounded_up(0x4000_0000_0000_0000), 2);
    assert_eq!(seconds_rounded_up(0x3fd0_0000_0000_0000), 1);
    assert_eq!(seconds_rounded_up(0x401e_0000_0000_0000), 8);
    assert_eq!(seconds_rounded_up(0), 0);
    assert_eq!(seconds_rounded_up(1), 1);
    assert_eq!(seconds_rounded_up(0xbff8_0000_0000_0000), 0);
    assert_eq!(seconds_rounded_up(0x7ff0_0000_0000_0000), u64::MAX);
    assert_eq!(seconds_rounded_up(0x7ff8_0000_0000_0000), 0);
}

#[test]
fn powers_of_two() {
    for k in 0..64u64 {
        assert_eq!(two_to(k), 1u64 << k);
    }
}

#[test]
fn hint_delay_on_given_readings() {
    let two = Some(Delay { secs: 2, nanos: 0 });
    assert_eq!(hint_delay(None, Some(1.5f64.to_bits())), two);
    assert_eq!(hint_delay(None, Some(2.0f64.to_bits())), two);
    assert_eq!(hint_delay(Some(2), Some(2.0f64.to_bits())), two);
    assert_eq!(hint_delay(Some(9_007_199_254_740_993), Some(9_007_199_254_740_992.0f64.to_bits())),
        Some(Delay { secs: 9_007_199_254_740_993, nanos: 0 }));
    assert_eq!(hint_delay(None, None), None);
}

#[test]
fn hint_seconds_on_given_readings() {
    assert_eq!(hint_seconds(Some(5), Some(5)), Some(Delay { secs: 5, nanos: 0 }));
    assert_eq!(hint_seconds(Some(5), None), Some(Delay { secs: 5, nanos: 0 }));
    assert_eq!(hint_seconds(Some(5), Some(9)), Some(Delay { secs: 5, nanos: 0 }));
    assert_eq!(hint_seconds(None, Some(5)), Some(Delay { secs: 5, nanos: 0 }));
    assert_eq!(hint_seconds(None, Some(0)), Some(Delay { secs: 0, nanos: 0 }));
    assert_eq!(hint_seconds(None, Some(u64::MAX)), Some(Delay { secs: u64::MAX, nanos: 0 }));
    assert_eq!(hint_seconds(None, None), None);
}

#[test]
fn hint_overrides_the_computed_delay() {
    let hint = Delay { secs: 7, nanos: 0 };
    let computed = Delay { secs: 0, nanos: 100 };
    assert_eq!(next_delay(Some(hint), Some(computed)), Some(hint));
    assert_eq!(next_delay(Some(hint), None), Some(hint));
    assert_eq!(next_delay(None, Some(computed)), Some(computed));
    assert_eq!(next_delay(None, None), None);
}

#[test]
fn hint_is_the_delay_of_the_next_attempt() {
    let s = service();
    let mut state = s.begin();
    let mut backoff = steady_backoff(2000);
    let f = error_resp(-32005, "limit", Some(r#"{"rate":{"backoff_seconds":42}}"#));
    match s.on_failure(&mut state, f, &mut backoff) {
        RetryStep::Retry(d) => assert_eq!(d, Delay { secs: 42, nanos: 0 }),
        RetryStep::Fail(e) => panic!("gave up: {:?}", e),
    }
    assert_eq!(state.phase, RetryPhase::BackingOff);
    assert_eq!(backoff.next(), Some(Delay::from_millis(100)));
}

#[test]
fn hint_is_taken_even_from_a_spent_backoff() {
    let s = service();
    let mut state = s.begin();
    let mut backoff = spent_backoff();
    let f = error_resp(429, "limit", Some(r#"{"rate":{"backoff_seconds":1.5}}"#));
    match s.on_failure(&mut state, f, &mut backoff) {
        RetryStep::Retry(d) => assert_eq!(d, Delay { secs: 2, nanos: 0 }),
        RetryStep::Fail(e) => panic!("gave up: {:?}", e),
    }
}

#[test]
fn status_429_then_success_takes_two_attempts() {
    let s = service();
    let mut state = s.begin();
    let mut backoff = default_backoff();
    let mut transport_calls = 0;
    let mut slept = Vec::new();
    let result = loop {
        transport_calls += 1;
        let outcome: Result<&str, TransportFailure> =
            if transport_calls == 1 { Err(http(429)) } else { Ok("0x1") };
        match outcome {
            Ok(v) => {
                state.on_success();
                break Ok(v);
            }
            Err(f) => match s.on_failure(&mut state, f, &mut backoff) {
                RetryStep::Retry(d) => {
                    slept.push(d);
                    state.on_wake();
                }
                RetryStep::Fail(e) => break Err(e),
            },
        }
    };
    assert_eq!(result.unwrap(), "0x1");
    assert_eq!(transport_calls, 2);
    assert_eq!(state.tries, 2);
    assert_eq!(state.phase, RetryPhase::Succeeded);
    assert!(state.is_terminal());
    assert_eq!(slept.len(), 1);
    let nanos = slept[0].secs as u128 * 1_000_000_000 + slept[0].nanos as u128;
    assert!(nanos >= 50_000_000, "{}", nanos);
    assert!(nanos <= 150_000_001, "{}", nanos);
}

fn attempts_until_the_end(max_tries: u32) -> (u64, RetryStep, RetryState) {
    let s = service_with_tries(max_tries);
    let mut state = s.begin();
    let mut backoff = default_backoff();
    let mut attempts = 0;
    loop {
        attempts += 1;
        let f = error_resp(429, "limit", Some(r#"{"rate":{"backoff_seconds":0}}"#));
        match s.on_failure(&mut state, f, &mut backoff) {
            RetryStep::Retry(_) => state.on_wake(),
            step => return (attempts, step, state),
        }
        assert!(attempts < 1000);
    }
}

#[test]
fn attempts_end_after_max_tries() {
    for max_tries in [0u32, 1, 2, 3, 10] {
        let (attempts, step, state) = attempts_until_the_end(max_tries);
        assert_eq!(attempts, max_tries as u64 + 1);
        assert_eq!(state.tries, max_tries as u64 + 1);
        assert_eq!(state.phase, RetryPhase::Exhausted);
        assert!(state.is_terminal());
        match step {
            RetryStep::Fail(TransportFailure::RetriesExhausted { last }) => {
                assert!(matches!(*last, TransportFailure::ErrorResp(ref p) if p.code == 429))
            }
            other => panic!("{:?}", other),
        }
    }
}

#[test]
fn spent_backoff_ends_the_call() {
    let s = service();
    let mut state = s.begin();
    let mut backoff = spent_backoff();
    match s.on_failure(&mut state, http(503), &mut backoff) {
        RetryStep::Fail(TransportFailure::RetriesExhausted { last }) => {
            assert!(matches!(*last, TransportFailure::HttpError { status: 503, .. }))
        }
        other => panic!("{:?}", other),
    }
    assert_eq!(state.phase, RetryPhase::Exhausted);
    assert_eq!(state.tries, 1);
}

#[test]
fn failure_that_is_not_retryable_comes_back_as_it_is() {
    let s = service();
    let mut state = s.begin();
    let mut backoff = steady_backoff(2000);
    match s.on_failure(&mut state, http(404), &mut backoff) {
        RetryStep::Fail(TransportFailure::HttpError { status, .. }) => assert_eq!(status, 404),
        other => panic!("{:?}", other),
    }
    assert_eq!(state.phase, RetryPhase::NonRetryableFailure);
    assert!(state.is_terminal());
    assert_eq!(state.tries, 1);
    assert_eq!(backoff.next(), Some(Delay::from_millis(100)));
}

#[test]
fn backoff_is_asked_where_there_is_no_hint() {
    let s = service();
    let mut state = s.begin();
    let mut backoff = default_backoff();
    match s.on_failure(&mut state, http(502), &mut backoff) {
        RetryStep::Retry(d) => {
            assert_eq!(d.secs, 0);
            assert!(d.nanos >= 50_000_000 && d.nanos <= 150_000_001, "{:?}", d);
        }
        other => panic!("{:?}", other),
    }
    assert_eq!(state.phase, RetryPhase::BackingOff);
    assert!(!state.is_terminal());
    let second = backoff.next().unwrap();
    assert_eq!(second.secs, 0);
    assert!(second.nanos >= 100_000_000 && second.nanos <= 300_000_001, "{:?}", second);
}

#[test]
fn backoff_grows_by_the_multiplier_up_to_the_longest_interval() {
    let mut b = steady_backoff(3000);
    assert_eq!(b.next(), Some(Delay::from_millis(100)));
    assert_eq!(b.next(), Some(Delay::from_millis(300)));
    assert_eq!(b.next(), Some(Delay::from_millis(900)));
    assert_eq!(b.next(), Some(Delay::from_millis(1000)));
    assert_eq!(b.next(), Some(Delay::from_millis(1000)));
    let mut half = steady_backoff(1500);
    assert_eq!(half.next(), Some(Delay::from_millis(100)));
    assert_eq!(half.next(), Some(Delay::from_millis(150)));
    assert_eq!(half.next(), Some(Delay::from_millis(225)));
}

#[test]
fn backoff_scatters_by_the_randomization_factor() {
    let mut b =
        Backoff::new(Delay::from_secs(10), Delay::from_secs(10), Delay::from_secs(3600), 100, 1000)
            .unwrap();
    for _ in 0..50 {
        let d = b.next().unwrap();
        let nanos = d.secs as u128 * 1_000_000_000 + d.nanos as u128;
        assert!(nanos >= 9_000_000_000 && nanos <= 11_000_000_001, "{}", nanos);
    }
}

#[test]
fn delays_stay_within_the_time_given() {
    let budget = Delay::from_secs(1);
    let mut b =
        Backoff::new(Delay::from_millis(100), Delay::from_secs(10), budget, 0, 2000).unwrap();
    assert_eq!(b.next(), Some(Delay::from_millis(100)));
    assert_eq!(b.next(), Some(Delay::from_millis(200)));
    assert_eq!(b.next(), Some(Delay::from_millis(400)));
    let fourth = b.next();
    assert!(fourth.is_none() || fourth == Some(Delay::from_millis(800)));
    assert_eq!(b.next(), None);
    assert_eq!(b.next(), None);
}

#[test]
fn scattered_delays_stay_within_the_time_given() {
    for _ in 0..200 {
        let mut b = Backoff::new(
            Delay::from_millis(600),
            Delay::from_millis(600),
            Delay::from_secs(1),
            1000,
            1000,
        )
        .unwrap();
        if let Some(d) = b.next() {
            let nanos = d.secs as u128 * 1_000_000_000 + d.nanos as u128;
            assert!(nanos <= 1_000_000_000, "{}", nanos);
        }
    }
}

#[test]
fn delay_of_a_retry_stays_within_the_time_given() {
    let mut conf = JSONRpcClientConfig::default().retry_config();
    conf.initial_interval = Delay::from_millis(600);
    conf.max_interval = Delay::from_millis(600);
    conf.max_elapsed_time = Delay::from_secs(1);
    conf.randomization_permille = 1000;
    conf.multiplier_permille = 1000;
    let s = RetryLayer::new(conf).layer();
    for _ in 0..200 {
        let mut state = s.begin();
        let mut backoff = s.new_backoff().unwrap();
        match s.on_failure(&mut state, http(503), &mut backoff) {
            RetryStep::Retry(d) => {
                let nanos = d.secs as u128 * 1_000_000_000 + d.nanos as u128;
                assert!(nanos <= 1_000_000_000, "{}", nanos);
                assert_eq!(state.phase, RetryPhase::BackingOff);
            }
            RetryStep::Fail(TransportFailure::RetriesExhausted { .. }) => {
                assert_eq!(state.phase, RetryPhase::Exhausted);
            }
            other => panic!("{:?}", other),
        }
    }
}

fn nanos(d: Delay) -> i128 {
    d.secs as i128 * 1_000_000_000 + d.nanos as i128
}

fn slack(reach: i128) -> i128 {
    if reach < 1_099_511_627_776 {
        2
    } else {
        1_000_000_002 + reach / 1_099_511_627_776
    }
}

fn in_jitter_range(delay: i128, interval: i128, permille: i128) -> bool {
    let s = slack(interval * (1000 + permille) / 1000 + 1);
    delay * 1000 + s * 1000 >= interval * (1000 - permille)
        && delay * 1000 <= interval * (1000 + permille) + s * 1000
}

fn grown(next: i128, interval: i128, permille: i128, longest: i128) -> bool {
    let target = interval * permille;
    let reach = if target / 1000 >= longest { target / 1000 + 1 } else { longest + 1 };
    let s = slack(reach);
    (next == longest && target + s * 1000 >= longest * 1000)
        || (next * 1000 + s * 1000 >= target
            && next * 1000 <= target + s * 1000
            && target <= longest * 1000 + s * 1000)
}

#[test]
fn first_delay_lies_around_the_initial_interval() {
    for _ in 0..500 {
        let d = nanos(default_backoff().next().unwrap());
        assert!(d >= 50_000_000 - 2 && d <= 150_000_000 + 2, "{}", d);
        assert!(in_jitter_range(d, 100_000_000, 500));
    }
}

#[test]
fn delays_lie_in_the_range_around_the_interval() {
    let day = Delay::from_secs(86_400);
    let longest = Delay { secs: 4_294_967_295, nanos: 999_999_999 };
    let cases = [
        (Delay { secs: 0, nanos: 1 }, 0u32),
        (Delay { secs: 0, nanos: 1 }, 1000),
        (Delay { secs: 0, nanos: 999 }, 1),
        (Delay { secs: 0, nanos: 100 }, 100),
        (Delay::from_millis(100), 333),
        (Delay::from_secs(1), 3000),
        (Delay::from_secs(1), u32::MAX),
        (Delay { secs: 1099, nanos: 511_627_775 }, 0),
        (Delay { secs: 1099, nanos: 511_627_776 }, 0),
        (Delay::from_secs(733), 500),
        (day, 0),
        (day, 100),
        (Delay { secs: 9_007_199, nanos: 254_740_993 }, 0),
        (Delay { secs: 9_007_199, nanos: 999_999_999 }, 1),
        (Delay { secs: 123_456_789, nanos: 999_999_999 }, 7),
        (longest, 0),
        (longest, 1),
        (longest, 1000),
    ];
    for (interval, permille) in cases {
        for _ in 0..300 {
            let mut b = Backoff::new(interval, interval, longest, permille, 1000).unwrap();
            if let Some(d) = b.next() {
                assert!(
                    in_jitter_range(nanos(d), nanos(interval), permille as i128),
                    "{:?} around {:?} by {}",
                    d,
                    interval,
                    permille
                );
                assert!(nanos(d) <= nanos(longest));
            }
        }
    }
}

#[test]
fn intervals_grow_by_the_multiplier() {
    let longest = Delay { secs: 4_294_967_295, nanos: 999_999_999 };
    let cases = [
        (Delay::from_secs(1), 1500u32, Delay::from_secs(10)),
        (Delay::from_millis(100), 2000, Delay::from_secs(30)),
        (Delay { secs: 0, nanos: 7 }, 1001, Delay::from_secs(1)),
        (Delay { secs: 0, nanos: 333_333_333 }, 3333, Delay::from_secs(3600)),
        (Delay::from_secs(5), 500, Delay::from_secs(10)),
        (Delay::from_secs(5), 0, Delay::from_secs(10)),
        (Delay::from_secs(5), 1000, Delay::from_secs(1)),
        (Delay::from_secs(5), 1000, Delay::from_secs(5)),
        (Delay::from_secs(86_400), 1100, longest),
        (Delay { secs: 9_007_199, nanos: 254_740_993 }, 1001, longest),
        (Delay { secs: 1_000_000_000, nanos: 1 }, 1999, longest),
        (Delay::from_secs(3), u32::MAX, longest),
    ];
    for (initial, permille, max_interval) in cases {
        let mut b = Backoff::new(initial, max_interval, longest, 0, permille).unwrap();
        let mut interval = nanos(initial);
        for _ in 0..40 {
            if let Some(d) = b.next() {
                assert!(in_jitter_range(nanos(d), interval, 0), "{:?} around {}", d, interval);
            }
            let next = if interval * permille as i128 / 1000 >= nanos(max_interval) {
                nanos(max_interval)
            } else {
                interval * permille as i128 / 1000
            };
            assert!(grown(next, interval, permille as i128, nanos(max_interval)));
            interval = next;
        }
    }
}

fn follows(second: i128, first_interval: i128, permille: i128, longest: i128) -> bool {
    let target = first_interval * permille;
    let reach = if target / 1000 >= longest { target / 1000 + 1 } else { longest + 1 };
    let s = slack(reach);
    let at_longest = target + s * 1000 >= longest * 1000
        && (second - longest).abs() <= slack(longest + 1);
    let low = (target - s * 1000) / 1000 - 1;
    let high = (target + s * 1000) / 1000 + 1;
    let grown = target <= longest * 1000 + s * 1000
        && second >= low - slack(high + 1)
        && second <= high + slack(high + 1);
    at_longest || grown
}

#[test]
fn many_backoffs_keep_to_range_and_growth() {
    let longest = Delay { secs: 4_294_967_295, nanos: 999_999_999 };
    let mut seed: u64 = 0x2545_f491_4f6c_dd1d;
    let mut draw = move |below: u64| {
        seed ^= seed << 13;
        seed ^= seed >> 7;
        seed ^= seed << 17;
        seed % below
    };
    for round in 0..20_000 {
        let magnitude = draw(62) as u32;
        let total = draw(1u64 << magnitude) as u128 + 1;
        let total = total.min(4_294_967_295_999_999_999);
        let interval =
            Delay { secs: (total / 1_000_000_000) as u64, nanos: (total % 1_000_000_000) as u32 };
        let scatter = if round % 2 == 0 { 0 } else { draw(2001) as u32 };
        let multiplier = match draw(4) {
            0 => draw(1000) as u32,
            1 => 1000 + draw(3000) as u32,
            2 => draw(1u64 << 32) as u32,
            _ => 2000,
        };
        let max_interval = match draw(3) {
            0 => longest,
            1 => interval,
            _ => Delay { secs: draw(4_294_967_296), nanos: draw(1_000_000_000) as u32 },
        };
        let mut b = Backoff::new(interval, max_interval, longest, scatter, multiplier).unwrap();
        let first = b.next();
        if let Some(d) = first {
            assert!(
                in_jitter_range(nanos(d), nanos(interval), scatter as i128),
                "{:?} around {:?} by {}",
                d,
                interval,
                scatter
            );
            assert!(nanos(d) <= nanos(longest));
        }
        if scatter == 0 {
            if let Some(d) = b.next() {
                assert!(
                    follows(nanos(d), nanos(interval), multiplier as i128, nanos(max_interval)),
                    "{:?} after {:?} by {} up to {:?}",
                    d,
                    interval,
                    multiplier,
                    max_interval
                );
            }
        }
    }
}

#[test]
fn delay_of_a_first_retry_lies_around_the_initial_interval() {
    let s = service();
    for _ in 0..200 {
        let mut state = s.begin();
        let mut backoff = s.new_backoff().unwrap();
        match s.on_failure(&mut state, http(429), &mut backoff) {
            RetryStep::Retry(d) => {
                assert!(nanos(d) >= 50_000_000 - 2 && nanos(d) <= 150_000_000 + 2, "{:?}", d)
            }
            other => panic!("{:?}", other),
        }
    }
}

#[test]
fn backoff_with_no_time_gives_no_delay() {
    assert_eq!(spent_backoff().next(), None);
}

#[test]
fn backoff_is_built_from_lengths_in_range_only() {
    let ok = Delay::from_secs(1);
    let longest = Delay { secs: 4_294_967_295, nanos: 999_999_999 };
    let too_long = Delay { secs: 4_294_967_296, nanos: 0 };
    let ill_formed = Delay { secs: 0, nanos: 1_000_000_000 };
    assert!(Backoff::new(ok, ok, ok, 500, 2000).is_some());
    assert!(Backoff::new(longest, longest, longest, u32::MAX, u32::MAX).is_some());
    assert!(Backoff::new(too_long, ok, ok, 500, 2000).is_none());
    assert!(Backoff::new(ok, too_long, ok, 500, 2000).is_none());
    assert!(Backoff::new(ok, ok, too_long, 500, 2000).is_none());
    assert!(Backoff::new(ill_formed, ok, ok, 500, 2000).is_none());
    assert!(Backoff::new(ok, ill_formed, ok, 500, 2000).is_none());
    assert!(Backoff::new(ok, ok, ill_formed, 500, 2000).is_none());
    let mut conf = JSONRpcClientConfig::default().retry_config();
    conf.max_interval = too_long;
    assert!(RetryLayer::new(conf).layer().new_backoff().is_none());
}

#[test]
fn longest_backoff_still_gives_a_delay() {
    let longest = Delay { secs: 4_294_967_295, nanos: 999_999_999 };
    let mut b = Backoff::new(longest, longest, longest, u32::MAX, u32::MAX).unwrap();
    for _ in 0..20 {
        if let Some(d) = b.next() {
            assert!(d.nanos < 1_000_000_000);
        }
    }
}

#[test]
fn settle_on_given_verdicts() {
    let d = Delay { secs: 1, nanos: 5 };
    let mut s = RetryState::new(2);
    assert_eq!(s, RetryState { phase: RetryPhase::Attempting, tries: 1, max_tries: 2 });
    assert!(matches!(s.settle(http(429), true, Some(d)), RetryStep::Retry(x) if x == d));
    assert_eq!(s.phase, RetryPhase::BackingOff);
    s.on_wake();
    assert_eq!(s, RetryState { phase: RetryPhase::Attempting, tries: 2, max_tries: 2 });
    assert!(matches!(s.settle(http(429), true, Some(d)), RetryStep::Retry(_)));
    s.on_wake();
    assert_eq!(s.tries, 3);
    assert!(matches!(
        s.settle(http(429), true, Some(d)),
        RetryStep::Fail(TransportFailure::RetriesExhausted { .. })
    ));
    assert_eq!(s.phase, RetryPhase::Exhausted);

    let mut t = RetryState::new(5);
    assert!(matches!(
        t.settle(http(429), true, None),
        RetryStep::Fail(TransportFailure::RetriesExhausted { .. })
    ));
    assert_eq!(t.phase, RetryPhase::Exhausted);

    let mut u = RetryState::new(5);
    assert!(matches!(
        u.settle(http(400), false, Some(d)),
        RetryStep::Fail(TransportFailure::HttpError { status: 400, .. })
    ));
    assert_eq!(u.phase, RetryPhase::NonRetryableFailure);
}

#[test]
fn length_of_time_as_a_backoff_can_take_it() {
    let in_range = Delay { secs: 5, nanos: 7 };
    assert_eq!(in_range.capped(), in_range);
    let longest = Delay { secs: 4_294_967_295, nanos: 999_999_999 };
    assert_eq!(longest.capped(), longest);
    assert_eq!(Delay { secs: 4_294_967_296, nanos: 0 }.capped(), longest);
    assert_eq!(Delay { secs: u64::MAX, nanos: u32::MAX }.capped(), longest);
    assert_eq!(Delay { secs: 1, nanos: 2_500_000_000 }.capped(), Delay { secs: 3, nanos: 500_000_000 });
    assert_eq!(Delay { secs: 4_294_967_295, nanos: 1_000_000_000 }.capped(), longest);
    let c = Delay { secs: u64::MAX, nanos: 1 }.capped();
    assert!(Backoff::new(c, c, c, 500, 2000).is_some());
}

#[test]
fn delay_from_whole_numbers() {
    assert_eq!(Delay::from_secs(30), Delay { secs: 30, nanos: 0 });
    assert_eq!(Delay::from_millis(100), Delay { secs: 0, nanos: 100_000_000 });
    assert_eq!(Delay::from_millis(1500), Delay { secs: 1, nanos: 500_000_000 });
    assert_eq!(Delay::from_millis(0), Delay { secs: 0, nanos: 0 });
    assert_eq!(
        Delay::from_millis(u64::MAX),
        Delay { secs: 18446744073709551, nanos: 615_000_000 }
    );
}
