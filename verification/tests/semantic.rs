use notiz::probability::probability_match;
use notiz::semantic::{
    check_endpoint_scheme, match_verdict, parse_match, request_body, search_due_at, search_wait,
    validate_endpoint, SearchRun, SearchStep, SearchUpdate, SEARCH_DELAY_MS,
};

fn answer(noul: Option<serde_json::Value>) -> Vec<u8> {
    let mut matched = serde_json::Map::new();
    if let Some(v) = noul {
        matched.insert("noul".to_string(), v);
    }
    let mut answers = serde_json::Map::new();
    if !matched.is_empty() {
        answers.insert("match".to_string(), serde_json::Value::Object(matched));
    }
    let mut top = serde_json::Map::new();
    top.insert("answers".to_string(), serde_json::Value::Object(answers));
    serde_json::Value::Object(top).to_string().into_bytes()
}

#[test]
fn endpoint_requires_http_url() {
    assert!(validate_endpoint("http://127.0.0.1:8000/v1/systemone").is_ok());
    assert!(validate_endpoint("https://example.com/v1/systemone").is_ok());
    assert!(validate_endpoint("file:///tmp/laya").is_err());
}

#[test]
fn endpoint_errors_say_what_is_wrong() {
    assert_eq!(
        validate_endpoint("not a url").unwrap_err(),
        "Enter a full HTTP or HTTPS URL."
    );
    assert_eq!(
        validate_endpoint("ftp://example.com").unwrap_err(),
        "The endpoint must use HTTP or HTTPS."
    );
    assert!(validate_endpoint("  HTTPS://Example.com/x  ").is_ok());
    assert_eq!(check_endpoint_scheme(Some("http".to_string())), Ok(()));
    assert!(check_endpoint_scheme(None).is_err());
    assert!(check_endpoint_scheme(Some("mailto".to_string())).is_err());
}

#[test]
fn laya_request_and_answer_follow_noul_contract() {
    let request: serde_json::Value =
        serde_json::from_str(&request_body("garden", "Tomatoes need water")).unwrap();
    assert_eq!(request["state"]["query"], "garden");
    assert_eq!(request["state"]["note"], "Tomatoes need water");
    assert_eq!(request["questions"]["match"]["type"], "noul");
    assert!(parse_match(&answer(Some(0.8.into()))).unwrap());
    assert!(!parse_match(&answer(Some(0.2.into()))).unwrap());
    assert!(parse_match(&answer(None)).is_err());
}

#[test]
fn answers_outside_the_unit_interval_are_refused() {
    assert_eq!(
        parse_match(&answer(Some(1.5.into()))).unwrap_err(),
        "Laya returned an invalid match probability."
    );
    assert!(parse_match(&answer(Some((-0.1).into()))).is_err());
    assert!(parse_match(&answer(Some(2.into()))).is_err());
    assert!(parse_match(&answer(Some((-1).into()))).is_err());
    assert_eq!(
        parse_match(&answer(Some("0.9".into()))).unwrap_err(),
        "Laya response is missing answers.match.noul."
    );
    assert_eq!(
        parse_match(b"null").unwrap_err(),
        "Laya response is missing answers.match.noul."
    );
    assert_eq!(
        parse_match(b"{\"answers\":{\"match\":{\"noul\":[0.9]}}}").unwrap_err(),
        "Laya response is missing answers.match.noul."
    );
    assert!(parse_match(b"{\"answers\":{\"match\":{\"noul\":0.75},\"x\":1}}").unwrap());
    assert_eq!(
        parse_match(b"not json").unwrap_err(),
        "Could not read Laya response: error decoding response body"
    );
    assert_eq!(
        parse_match(b"{\"answers\":{\"match\":{\"noul\":0.9,\"s\":\"\xff\"}}}").unwrap_err(),
        "Could not read Laya response: error decoding response body"
    );
}

#[test]
fn answers_match_from_one_half_up() {
    assert!(parse_match(&answer(Some(0.5.into()))).unwrap());
    assert!(!parse_match(&answer(Some(0.49999999999999994.into()))).unwrap());
    assert!(parse_match(&answer(Some(1.0.into()))).unwrap());
    assert!(parse_match(&answer(Some(1.into()))).unwrap());
    assert!(!parse_match(&answer(Some(0.into()))).unwrap());
    assert!(!parse_match(&answer(Some((-0.0).into()))).unwrap());
    assert!(!parse_match(&answer(Some(1e-7.into()))).unwrap());
    assert!(parse_match(&answer(Some(0.9999999999999999.into()))).unwrap());
    assert!(parse_match(&answer(Some(1.0000000000000002.into()))).is_err());
}

#[test]
fn probability_text_is_read_as_a_decimal_number() {
    assert_eq!(probability_match("0.8"), Ok(true));
    assert_eq!(probability_match("0.5"), Ok(true));
    assert_eq!(probability_match("0.4999"), Ok(false));
    assert_eq!(probability_match("1"), Ok(true));
    assert_eq!(probability_match("1.000"), Ok(true));
    assert_eq!(probability_match("100e-2"), Ok(true));
    assert_eq!(probability_match("0.05e1"), Ok(true));
    assert_eq!(probability_match("5E-1"), Ok(true));
    assert_eq!(probability_match("4.9e-1"), Ok(false));
    assert_eq!(probability_match("1e-7"), Ok(false));
    assert_eq!(probability_match("-0.0"), Ok(false));
    assert_eq!(probability_match("0"), Ok(false));
    assert_eq!(probability_match("000.0600e+1"), Ok(true));
    assert!(probability_match("101e-2").is_err());
    assert!(probability_match("1e1").is_err());
    assert!(probability_match("1.0000001").is_err());
    assert!(probability_match("-0.1").is_err());
    assert!(probability_match("1e999999999999999999999999999").is_err());
    assert_eq!(probability_match("7e-999999999999999999999999999"), Ok(false));
    for text in ["", "-", ".", "e1", "0.5x", "0.5e", "0.5e+", "abc", "+0.5", "0..5"] {
        assert_eq!(
            probability_match(text),
            Err("Laya returned an invalid match probability.".to_string()),
            "{text}"
        );
    }
    assert_eq!(match_verdict(Some("0.75".to_string())), Ok(true));
    assert_eq!(
        match_verdict(None),
        Err("Laya response is missing answers.match.noul.".to_string())
    );
}

#[test]
fn request_body_is_the_compact_laya_question() {
    let body = request_body("q\"x", "line\nnext\u{1}");
    let mut criteria = serde_json::Map::new();
    criteria.insert("false".to_string(), "The note is unrelated to the search query.".into());
    criteria.insert("true".to_string(), "The note discusses or answers the search query.".into());
    let mut question = serde_json::Map::new();
    question.insert("type".to_string(), "noul".into());
    question.insert(
        "instructions".to_string(),
        "Is this note relevant to the search query, including paraphrases and related concepts?".into(),
    );
    question.insert("criteria".to_string(), serde_json::Value::Object(criteria));
    let mut questions = serde_json::Map::new();
    questions.insert("match".to_string(), serde_json::Value::Object(question));
    let mut state = serde_json::Map::new();
    state.insert("query".to_string(), "q\"x".into());
    state.insert("note".to_string(), "line\nnext\u{1}".into());
    let mut top = serde_json::Map::new();
    top.insert("state".to_string(), serde_json::Value::Object(state));
    top.insert("questions".to_string(), serde_json::Value::Object(questions));
    let expected = serde_json::Value::Object(top);
    assert_eq!(body, serde_json::to_string(&expected).unwrap());
    assert!(body.contains("\"note\":\"line\\nnext\\u0001\""));
}

fn is_match(u: &Option<SearchUpdate>, g: u64, id: i64) -> bool {
    matches!(u, Some(SearchUpdate::Match { generation, note_id }) if *generation == g && *note_id == id)
}

#[test]
fn search_run_reports_matches_then_finishes() {
    let mut run = SearchRun::new(7, vec![10, 20, 30]);
    assert!(matches!(run.next(7), SearchStep::Classify { index: 0 }));
    assert!(is_match(&run.classified(Ok(true)), 7, 10));
    assert!(matches!(run.next(7), SearchStep::Classify { index: 1 }));
    assert!(run.classified(Ok(false)).is_none());
    assert!(matches!(run.next(7), SearchStep::Classify { index: 2 }));
    assert!(is_match(&run.classified(Ok(true)), 7, 30));
    assert!(matches!(
        run.next(7),
        SearchStep::Send { update: SearchUpdate::Finished { generation: 7 } }
    ));
    assert!(matches!(run.next(7), SearchStep::Stop));
}

#[test]
fn search_run_stops_on_newer_generation_and_on_error() {
    let mut run = SearchRun::new(1, vec![5, 6]);
    assert!(matches!(run.next(1), SearchStep::Classify { index: 0 }));
    assert!(run.classified(Ok(false)).is_none());
    assert!(matches!(run.next(2), SearchStep::Stop));
    assert!(matches!(run.next(1), SearchStep::Stop));

    let mut run = SearchRun::new(3, vec![5, 6]);
    assert!(matches!(run.next(3), SearchStep::Classify { index: 0 }));
    match run.classified(Err("Laya request failed: down".to_string())) {
        Some(SearchUpdate::Error { generation, message }) => {
            assert_eq!(generation, 3);
            assert_eq!(message, "Laya request failed: down");
        }
        _ => panic!("expected an error update"),
    }
    assert!(matches!(run.next(3), SearchStep::Stop));
    assert!(run.classified(Ok(true)).is_none());

    let mut run = SearchRun::new(4, vec![]);
    assert!(matches!(run.failed("no client".to_string()), SearchUpdate::Error { generation: 4, .. }));
    assert!(matches!(run.next(4), SearchStep::Stop));
}

#[test]
fn semantic_search_waits_for_the_delay() {
    assert_eq!(SEARCH_DELAY_MS, 350);
    assert_eq!(search_due_at(1_000), 1_350);
    assert_eq!(search_due_at(u64::MAX - 10), u64::MAX);
    assert_eq!(search_wait(1_350, 1_000), Some(350));
    assert_eq!(search_wait(1_350, 1_349), Some(1));
    assert_eq!(search_wait(1_350, 1_350), None);
    assert_eq!(search_wait(1_350, 2_000), None);
}

#[test]
fn search_run_says_its_last_word_once() {
    let mut run = SearchRun::new(9, vec![1]);
    assert!(matches!(run.failed("no client".to_string()), SearchUpdate::Error { generation: 9, .. }));
    assert!(matches!(run.next(9), SearchStep::Stop));
    assert!(run.classified(Ok(true)).is_none());

    let mut run = SearchRun::new(2, vec![]);
    assert!(matches!(
        run.next(2),
        SearchStep::Send { update: SearchUpdate::Finished { generation: 2 } }
    ));
    assert!(run.classified(Err("late".to_string())).is_none());
    assert!(matches!(run.next(2), SearchStep::Stop));

    let mut run = SearchRun::new(5, vec![1, 2]);
    assert!(matches!(run.next(6), SearchStep::Stop));
    assert!(matches!(run.next(5), SearchStep::Stop));
    assert!(run.classified(Ok(true)).is_none());
}
