use ci::errors::CiError;
use ci::results::ResultSink;
use ci::selector::AttemptOutcome;
use ci::selector::SelectionInput;
use ci::selector::SelectorSession;

fn input() -> SelectionInput {
    SelectionInput {
        github_repository: "servo/servo".to_string(),
        github_run_id: "12345".to_string(),
        monitor_api_token: "test-token".to_string(),
        github_hosted_runner_label: "ubuntu-22.04".to_string(),
        self_hosted_image_name: "servo-ubuntu2204".to_string(),
        force_github_hosted_runner: false,
    }
}

fn unique_id_of(sink: &ResultSink) -> String {
    let line = sink.line(0).as_str();
    let id = line.strip_prefix("unique_id=").expect("first line is the identifier");
    id.to_string()
}

#[test]
fn identifier_is_emitted_first_and_well_formed() {
    let mut sink = ResultSink::new();
    let _session = SelectorSession::begin(input(), false, &mut sink);
    assert_eq!(sink.len(), 1);
    let id = unique_id_of(&sink);
    assert_eq!(id.len(), 36);
    assert!(id.chars().all(|c| c == '-' || c.is_ascii_digit() || ('a'..='f').contains(&c)));
}

#[test]
fn identifiers_differ_between_runs() {
    let mut sink_a = ResultSink::new();
    let mut sink_b = ResultSink::new();
    let _a = SelectorSession::begin(input(), false, &mut sink_a);
    let _b = SelectorSession::begin(input(), false, &mut sink_b);
    assert_ne!(unique_id_of(&sink_a), unique_id_of(&sink_b));
}

#[test]
fn grant_stops_probing_and_selects_reserved_label() {
    let mut sink = ResultSink::new();
    let mut session = SelectorSession::begin(input(), false, &mut sink);
    let id = unique_id_of(&sink);
    assert!(session.pending_probe().is_some());
    session.record_outcome(&AttemptOutcome::Body("{\"runner\": \"granted\"}".to_string()));
    assert!(session.pending_probe().is_none());
    let decision = session.finish(&mut sink).expect("decision is emitted");
    assert!(decision.is_self_hosted);
    assert_eq!(decision.selected_runner_label, format!("reserved-for:{id}"));
    assert_eq!(sink.len(), 3);
    assert_eq!(sink.line(1).as_str(), format!("selected_runner_label=reserved-for:{id}").as_str());
    assert_eq!(sink.line(2).as_str(), "is_self_hosted=true");
}

#[test]
fn grant_after_failures_still_selects_reserved_label() {
    let mut sink = ResultSink::new();
    let mut session = SelectorSession::begin(input(), false, &mut sink);
    session.record_outcome(&AttemptOutcome::TransportFailure);
    assert!(session.pending_probe().is_some());
    session.record_outcome(&AttemptOutcome::Body("null".to_string()));
    assert!(session.pending_probe().is_some());
    session.record_outcome(&AttemptOutcome::Body("[1, 2]".to_string()));
    assert!(session.pending_probe().is_none());
    let decision = session.finish(&mut sink).expect("decision is emitted");
    assert!(decision.is_self_hosted);
}

#[test]
fn all_null_responses_fall_back_to_vendor_label() {
    let mut sink = ResultSink::new();
    let mut session = SelectorSession::begin(input(), false, &mut sink);
    let mut probes = 0;
    while let Some(_url) = session.pending_probe() {
        session.record_outcome(&AttemptOutcome::Body("null".to_string()));
        probes += 1;
    }
    assert_eq!(probes, 3);
    let decision = session.finish(&mut sink).expect("decision is emitted");
    assert!(!decision.is_self_hosted);
    assert_eq!(decision.selected_runner_label.as_str(), "ubuntu-22.04");
    assert_eq!(sink.line(1).as_str(), "selected_runner_label=ubuntu-22.04");
    assert_eq!(sink.line(2).as_str(), "is_self_hosted=false");
}

#[test]
fn select_is_idempotent_against_all_null_servers() {
    let mut first: Option<(String, bool)> = None;
    for _ in 0..2 {
        let mut sink = ResultSink::new();
        let mut session = SelectorSession::begin(input(), false, &mut sink);
        while session.pending_probe().is_some() {
            session.record_outcome(&AttemptOutcome::Body("null".to_string()));
        }
        let decision = session.finish(&mut sink).expect("decision is emitted");
        let outcome = (decision.selected_runner_label, decision.is_self_hosted);
        match &first {
            None => first = Some(outcome),
            Some(previous) => assert_eq!(previous, &outcome),
        }
    }
}

#[test]
fn transport_failures_and_malformed_bodies_fall_back() {
    let mut sink = ResultSink::new();
    let mut session = SelectorSession::begin(input(), false, &mut sink);
    session.record_outcome(&AttemptOutcome::TransportFailure);
    session.record_outcome(&AttemptOutcome::Body("not json".to_string()));
    session.record_outcome(&AttemptOutcome::TransportFailure);
    assert!(session.pending_probe().is_none());
    let decision = session.finish(&mut sink).expect("decision is emitted");
    assert!(!decision.is_self_hosted);
    assert_eq!(decision.selected_runner_label.as_str(), "ubuntu-22.04");
}

#[test]
fn force_flag_skips_probing_entirely() {
    let mut forced = input();
    forced.force_github_hosted_runner = true;
    let mut sink = ResultSink::new();
    let session = SelectorSession::begin(forced, false, &mut sink);
    assert!(session.pending_probe().is_none());
    let decision = session.finish(&mut sink).expect("decision is emitted");
    assert!(!decision.is_self_hosted);
    assert_eq!(decision.selected_runner_label.as_str(), "ubuntu-22.04");
    assert_eq!(sink.len(), 3);
}

#[test]
fn operator_override_skips_probing_entirely() {
    let mut sink = ResultSink::new();
    let session = SelectorSession::begin(input(), true, &mut sink);
    assert!(session.pending_probe().is_none());
    let decision = session.finish(&mut sink).expect("decision is emitted");
    assert!(!decision.is_self_hosted);
    assert_eq!(decision.selected_runner_label.as_str(), "ubuntu-22.04");
}

#[test]
fn probe_url_carries_request_fields() {
    let mut sink = ResultSink::new();
    let session = SelectorSession::begin(input(), false, &mut sink);
    let id = unique_id_of(&sink);
    let url = session.pending_probe().expect("a probe is pending");
    let suffix = format!(
        "/profile/servo-ubuntu2204/take?unique_id={id}&qualified_repo=servo/servo&run_id=12345"
    );
    let base = url.strip_suffix(suffix.as_str()).expect("url ends with the request fields");
    assert!(
        base == "https://ci0.servo.org" || base == "https://ci1.servo.org"
            || base == "https://ci2.servo.org"
    );
}

#[test]
fn first_probed_server_varies_between_runs() {
    let mut seen = [false; 3];
    for _ in 0..300 {
        let mut sink = ResultSink::new();
        let session = SelectorSession::begin(input(), false, &mut sink);
        let url = session.pending_probe().expect("a probe is pending");
        for (i, base) in
            ["https://ci0.servo.org", "https://ci1.servo.org", "https://ci2.servo.org"]
                .iter()
                .enumerate()
        {
            if url.starts_with(base) {
                seen[i] = true;
            }
        }
    }
    assert_eq!(seen, [true, true, true]);
}

#[test]
fn probes_visit_each_server_once() {
    let mut sink = ResultSink::new();
    let mut session = SelectorSession::begin(input(), false, &mut sink);
    let mut seen = [0usize; 3];
    while let Some(url) = session.pending_probe() {
        for (i, base) in
            ["https://ci0.servo.org", "https://ci1.servo.org", "https://ci2.servo.org"]
                .iter()
                .enumerate()
        {
            if url.starts_with(base) {
                seen[i] += 1;
            }
        }
        session.record_outcome(&AttemptOutcome::Body("null".to_string()));
    }
    assert_eq!(seen, [1, 1, 1]);
}

#[test]
fn invalid_vendor_label_fails_the_fallback_emission() {
    let mut bad = input();
    bad.github_hosted_runner_label = "two\nlines".to_string();
    bad.force_github_hosted_runner = true;
    let mut sink = ResultSink::new();
    let session = SelectorSession::begin(bad, false, &mut sink);
    assert_eq!(session.finish(&mut sink).err(), Some(CiError::InvalidResult));
    assert_eq!(sink.len(), 1);
}
