use endpoint_tester::{
    classify_error_flags, classify_reqwest_error, load_json_payload, parse_duration_parts,
    parse_method_kind, parse_u64, plan_run, Args, ConfigError, HttpMethod, NetErrKind, RunArgs,
    TimeUnit,
};

fn args(url: &str, method: &str) -> RunArgs {
    RunArgs {
        url: url.to_string(),
        method: method.to_string(),
        concurrency: 4,
        requests: Some(10),
        duration: None,
        timeout: "2s".to_string(),
        headers: vec![],
        api_key: None,
        json: None,
        json_file: None,
        progress_every: 0,
    }
}

#[test]
fn no_stop_condition_is_refused() {
    let mut a = args("http://127.0.0.1/ok", "GET");
    a.requests = None;
    assert_eq!(plan_run(&a, None).err(), Some(ConfigError::MissingStopCondition));
}

#[test]
fn invalid_settings_are_refused_in_order() {
    let a = args("not a url", "NOPE");
    assert_eq!(plan_run(&a, None).err(), Some(ConfigError::InvalidUrl));
    let a = args("http://127.0.0.1/ok", "NOPE");
    assert_eq!(plan_run(&a, None).err(), Some(ConfigError::InvalidMethod));
    let mut a = args("http://127.0.0.1/ok", "GET");
    a.timeout = "nope".to_string();
    assert_eq!(plan_run(&a, None).err(), Some(ConfigError::InvalidTimeout));
    let mut a = args("http://127.0.0.1/ok", "GET");
    a.duration = Some("nope".to_string());
    assert_eq!(plan_run(&a, None).err(), Some(ConfigError::InvalidDuration));
    let mut a = args("http://127.0.0.1/ok", "GET");
    a.headers = vec!["A: 1".to_string(), "badheader".to_string()];
    assert_eq!(plan_run(&a, None).err(), Some(ConfigError::InvalidHeader(1)));
}

#[test]
fn json_sources() {
    let mut a = args("http://127.0.0.1/ok", "POST");
    a.json = Some("{\"a\":1}".to_string());
    a.json_file = Some("payload.json".to_string());
    assert_eq!(load_json_payload(&a, None).err(), Some(ConfigError::ConflictingJsonSources));
    a.json_file = None;
    assert!(load_json_payload(&a, None).unwrap().is_some());
    a.json = Some("{oops".to_string());
    assert_eq!(load_json_payload(&a, None).err(), Some(ConfigError::InvalidJson));
    a.json = None;
    a.json_file = Some("payload.json".to_string());
    assert_eq!(load_json_payload(&a, None).err(), Some(ConfigError::UnreadableJsonFile));
    assert_eq!(
        load_json_payload(&a, Some(b"[1, 2".as_slice())).err(),
        Some(ConfigError::InvalidJsonFile)
    );
    let v = load_json_payload(&a, Some(b"{\"hello\":\"world\"}".as_slice())).unwrap().unwrap();
    assert_eq!(v["hello"], "world");
    a.json_file = None;
    assert!(load_json_payload(&a, None).unwrap().is_none());
}

#[test]
fn plan_keeps_settings() {
    let mut a = args("http://127.0.0.1:8080/x", " patch ");
    a.concurrency = 0;
    a.duration = Some("1m".to_string());
    a.headers = vec![
        "X-A: 1".to_string(),
        "X-B: 2".to_string(),
        "X-A: 3".to_string(),
    ];
    a.api_key = Some("SECRET-REDACTED".to_string());
    let p = plan_run(&a, None).unwrap();
    assert_eq!(p.concurrency, 1);
    assert_eq!(p.limit, Some(10));
    assert_eq!(p.method, reqwest::Method::PATCH);
    assert_eq!(p.url.as_str(), "http://127.0.0.1:8080/x");
    assert_eq!(p.timeout, std::time::Duration::from_secs(2));
    assert_eq!(p.deadline, Some(std::time::Duration::from_secs(60)));
    assert_eq!(
        p.headers,
        vec![
            ("X-A".to_string(), "3".to_string()),
            ("X-B".to_string(), "2".to_string()),
            ("Authorization".to_string(), "Bearer SECRET-REDACTED".to_string()),
        ]
    );
    assert!(p.json.is_none());
}

#[test]
fn run_args_from_args() {
    let a = Args {
        url: "http://h/".to_string(),
        method: "GET".to_string(),
        concurrency: 2,
        requests: Some(3),
        duration: None,
        timeout: "1s".to_string(),
        headers: vec!["K: V".to_string()],
        api_key: None,
        json: None,
        json_file: None,
        progress_every: 7,
    };
    let r = RunArgs::from(a);
    assert_eq!(r.url, "http://h/");
    assert_eq!(r.concurrency, 2);
    assert_eq!(r.requests, Some(3));
    assert_eq!(r.headers, vec!["K: V".to_string()]);
    assert_eq!(r.progress_every, 7);
}

#[test]
fn duration_parts_and_numbers() {
    assert_eq!(parse_duration_parts("  10 MS "), Some((10, TimeUnit::Millis)));
    assert_eq!(parse_duration_parts("+5s"), Some((5, TimeUnit::Secs)));
    assert_eq!(parse_duration_parts("3H"), Some((3, TimeUnit::Hours)));
    assert_eq!(parse_duration_parts("ms"), None);
    assert_eq!(parse_duration_parts("-1s"), None);
    assert_eq!(parse_u64("18446744073709551615"), Some(u64::MAX));
    assert_eq!(parse_u64("18446744073709551616"), None);
    assert_eq!(parse_u64("+"), None);
    assert_eq!(parse_u64("0042"), Some(42));
    // minutes whose seconds overflow u64 are refused
    assert!(endpoint_tester::parse_duration("307445734561825861m").is_none());
    assert!(endpoint_tester::parse_duration("307445734561825860m").is_some());
}

#[test]
fn method_names() {
    assert_eq!(parse_method_kind(" delete\t"), Some(HttpMethod::Delete));
    assert_eq!(parse_method_kind("Options"), Some(HttpMethod::Options));
    assert_eq!(parse_method_kind("GETS"), None);
    assert_eq!(parse_method_kind(""), None);
}

#[test]
fn header_split_at_first_colon() {
    let (k, v) = endpoint_tester::parse_header("Host: a:b").unwrap();
    assert_eq!(k, "Host");
    assert_eq!(v, "a:b");
    let (k, v) = endpoint_tester::parse_header("\u{3000}K:\u{a0}").unwrap();
    assert_eq!(k, "K");
    assert_eq!(v, "");
}

#[test]
fn classification_order() {
    assert_eq!(classify_error_flags(true, true, true, true, true), NetErrKind::Timeout);
    assert_eq!(classify_error_flags(false, true, true, false, false), NetErrKind::Connect);
    assert_eq!(classify_error_flags(false, false, true, true, false), NetErrKind::Request);
    assert_eq!(classify_error_flags(false, false, false, true, true), NetErrKind::Body);
    assert_eq!(classify_error_flags(false, false, false, false, true), NetErrKind::Decode);
    assert_eq!(classify_error_flags(false, false, false, false, false), NetErrKind::Other);
}

#[test]
fn builder_error_is_other() {
    let e = reqwest::Client::new().get("http://[::1").build().unwrap_err();
    assert_eq!(classify_reqwest_error(&e), NetErrKind::Other);
}

#[test]
fn plan_json_value_and_durations() {
    let mut a = args("http://127.0.0.1/echo_json", "POST");
    a.timeout = "50ms".to_string();
    a.requests = None;
    a.duration = Some("2h".to_string());
    a.json = Some("{\"hello\":\"world\"}".to_string());
    let p = plan_run(&a, None).unwrap();
    assert_eq!(p.timeout, std::time::Duration::from_millis(50));
    assert_eq!(p.deadline, Some(std::time::Duration::from_secs(7200)));
    assert_eq!(p.json.unwrap()["hello"], "world");
    assert_eq!(p.limit, None);
}
