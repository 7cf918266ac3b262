use bet_ledger::events::log_event;
use bet_ledger::events::run_agent;
use bet_ledger::events::AgentData;
use bet_ledger::BetTermStorage;

fn parse_event(line: &str) -> serde_json::Value {
    let payload = line.strip_prefix("EVENT_JSON:").expect("event log marker");
    serde_json::from_str(payload).expect("valid JSON log")
}

#[test]
fn request_resolve_emits_event_and_we_can_read_it() {
    let signer = "alice.near".to_string();

    let mut c = BetTermStorage::default();
    c.add_bet("foo-term".to_string(), signer.clone());

    let line = c.request_resolve(0, &signer).unwrap();

    let logs = vec![line];
    println!("logs:\n{}", logs.join("\n"));

    assert_eq!(logs.len(), 1, "expected one event log");

    let v = parse_event(&logs[0]);
    assert_eq!(v["event"], "run_agent");
    assert_eq!(v["standard"], "nearai");
    assert_eq!(v["version"], "0.1.19");
    let d0 = &v["data"][0];
    assert_eq!(d0["agent"], "ai-creator.near/term-resolver/latest");
    assert_eq!(d0["signer_id"], "alice.near");

    assert_eq!(d0["message"], "foo-term_0");
}

#[test]
fn repeated_requests_emit_independent_events_without_mutation() {
    let signer = "alice.near".to_string();
    let mut c = BetTermStorage::default();
    c.add_bet("foo-term".to_string(), signer.clone());

    let first = c.request_resolve(0, &signer).unwrap();
    let second = c.request_resolve(0, &signer).unwrap();
    assert_eq!(first, second);

    assert_eq!(c.total_bets(), 1);
    let b = c.get_bet(0).unwrap();
    assert_eq!(b.terms, "foo-term");
    assert_eq!(b.resolution, "");

    let v = parse_event(&second);
    assert_eq!(v["data"][0]["message"], "foo-term_0");
}

#[test]
fn message_carries_the_requested_index_in_decimal() {
    let signer = "carol.near".to_string();
    let mut c = BetTermStorage::default();
    for i in 0..11 {
        c.add_bet(format!("terms-{i}"), signer.clone());
    }
    let line = c.request_resolve(10, &signer).unwrap();
    let v = parse_event(&line);
    assert_eq!(v["data"][0]["message"], "terms-10_10");
}

#[test]
fn optional_payload_fields_default_to_null() {
    let line = run_agent("hello", "agent.near/resolver/latest", "carol.near");
    let v = parse_event(&line);
    let d0 = &v["data"][0];
    assert_eq!(d0["message"], "hello");
    assert_eq!(d0["agent"], "agent.near/resolver/latest");
    assert_eq!(d0["signer_id"], "carol.near");
    assert!(d0["env_vars"].is_null());
    assert!(d0["request_id"].is_null());
    assert!(d0["max_iterations"].is_null());
    assert!(d0["thread_id"].is_null());
    assert!(d0["referral_id"].is_null());
    let fields: Vec<&String> = d0.as_object().unwrap().keys().collect();
    assert_eq!(fields.len(), 8);
    assert_eq!(v["data"].as_array().unwrap().len(), 1);
}

#[test]
fn special_characters_in_terms_survive_the_round_trip() {
    let signer = "alice.near".to_string();
    let terms = "a \"quoted\" wager\\with\nnewline\ttab and \u{1}control".to_string();
    let mut c = BetTermStorage::default();
    c.add_bet(terms.clone(), signer.clone());
    let line = c.request_resolve(0, &signer).unwrap();
    let v = parse_event(&line);
    let expected = format!("{}_{}", terms, 0);
    assert_eq!(v["data"][0]["message"].as_str().unwrap(), expected);
}

#[test]
fn log_event_serializes_present_optional_fields() {
    let data = AgentData {
        message: "msg with \"quotes\"".to_string(),
        agent: "agent.near/x/latest".to_string(),
        env_vars: Some("KEY=value".to_string()),
        request_id: Some("req-7".to_string()),
        max_iterations: Some(42),
        thread_id: Some("thread-9".to_string()),
        signer_id: "dave.near".to_string(),
        referral_id: Some("ref\\8".to_string()),
    };
    let line = log_event("run_agent", &data);
    let v = parse_event(&line);
    assert_eq!(v["event"], "run_agent");
    let d0 = &v["data"][0];
    assert_eq!(d0["message"], "msg with \"quotes\"");
    assert_eq!(d0["env_vars"], "KEY=value");
    assert_eq!(d0["request_id"], "req-7");
    assert_eq!(d0["max_iterations"], 42);
    assert_eq!(d0["thread_id"], "thread-9");
    assert_eq!(d0["signer_id"], "dave.near");
    assert_eq!(d0["referral_id"], "ref\\8");
}

#[test]
fn unicode_terms_pass_through_unescaped() {
    let signer = "alice.near".to_string();
    let terms = "ärger über 語 and emoji \u{1F600}".to_string();
    let mut c = BetTermStorage::default();
    c.add_bet(terms.clone(), signer.clone());
    let line = c.request_resolve(0, &signer).unwrap();
    let v = parse_event(&line);
    let expected = format!("{}_{}", terms, 0);
    assert_eq!(v["data"][0]["message"].as_str().unwrap(), expected);
}
