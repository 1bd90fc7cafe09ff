use gliner_rs_api::{
    detect_pii, inference_event, input_event, model_event, ApiResponse, DetectAction, DetectEvent,
    DetectState, ExtractionResult, ModelSlot, PiiRequest, RawOutput, RawSpan,
};
use serde_json::{Number, Value};

/// Stands for an engine in a slot: gives back what it was built with.
struct StubEngine {
    input: Result<(), String>,
    output: Result<Vec<Vec<RawSpan>>, String>,
}

fn span(sequence: usize, text: &str, class: &str, probability: f32) -> RawSpan {
    RawSpan {
        sequence,
        text: text.to_string(),
        class: class.to_string(),
        probability_bits: probability.to_bits(),
    }
}

fn copy_of(spans: &Vec<Vec<RawSpan>>) -> Vec<Vec<RawSpan>> {
    spans
        .iter()
        .map(|row| {
            row.iter()
                .map(|s| RawSpan {
                    sequence: s.sequence,
                    text: s.text.clone(),
                    class: s.class.clone(),
                    probability_bits: s.probability_bits,
                })
                .collect()
        })
        .collect()
}

/// Drives a request to its end against a slot, as the service does, and gives
/// the envelope, the final state, and the texts and labels that the
/// normalizer was asked to take (if it was asked).
fn serve(
    slot: &ModelSlot<StubEngine>,
    request: PiiRequest,
) -> (ApiResponse<ExtractionResult>, DetectState, Option<(Vec<String>, Vec<String>)>) {
    let mut asked = None;
    let (mut state, mut action) = detect_pii(request, slot);
    for _ in 0..8 {
        let event = match action {
            DetectAction::CheckModel => model_event(slot),
            DetectAction::Normalize { texts, labels } => {
                asked = Some((texts, labels));
                input_event(slot.get().expect("an engine").input.clone())
            }
            DetectAction::Invoke => {
                let engine = slot.get().expect("an engine");
                inference_event(match &engine.output {
                    Ok(spans) => Ok(RawOutput { spans: copy_of(spans) }),
                    Err(cause) => Err(cause.clone()),
                })
            }
            DetectAction::Continue => DetectEvent::Proceed,
            DetectAction::Respond(envelope) => return (envelope, state, asked),
            DetectAction::Ignore => panic!("the machine ignored an answer to its own action"),
        };
        assert!(state.expects(&event));
        assert!(!state.finished());
        let (next, then) = state.step(event);
        state = next;
        action = then;
    }
    panic!("the machine did not finish");
}

fn loaded(input: Result<(), String>, output: Result<Vec<Vec<RawSpan>>, String>) -> ModelSlot<StubEngine> {
    let (slot, failure) = ModelSlot::from_init(Ok(StubEngine { input, output }));
    assert!(failure.is_none());
    slot
}

fn request(text: &str) -> PiiRequest {
    PiiRequest { text: text.to_string() }
}

#[test]
fn test_pii_detect_without_model() {
    let mut body = serde_json::Map::new();
    body.insert(
        "text".to_string(),
        Value::String("My name is John Doe and my email is john@example.com".to_string()),
    );
    body.insert("threshold".to_string(), Value::Number(Number::from_f64(0.5).unwrap()));
    let request_body = Value::Object(body);

    let sent: Value = serde_json::from_str(&request_body.to_string()).expect("valid JSON");
    let request = PiiRequest { text: sent["text"].as_str().expect("a text").to_string() };
    let slot: ModelSlot<StubEngine> = ModelSlot::empty();

    let (state, action) = detect_pii(request, &slot);

    // The failure is inside the envelope: the request has an answer.
    assert!(state.finished());

    let api_response = match action {
        DetectAction::Respond(envelope) => envelope,
        other => panic!("unexpected action: {:?}", other),
    };
    assert!(!api_response.success);
    assert!(api_response.message.unwrap().contains("model not loaded"));
}

#[test]
fn empty_slot_rejects_every_text_with_the_same_message() {
    let slot: ModelSlot<StubEngine> = ModelSlot::empty();
    for text in ["", "x", "My name is John Doe", "näme ≠ ascii"] {
        let (envelope, state, asked) = serve(&slot, request(text));
        assert!(matches!(state, DetectState::Rejected { .. }));
        assert!(asked.is_none());
        assert!(!envelope.success);
        assert!(envelope.data.is_none());
        assert_eq!(
            envelope.message.as_deref(),
            Some("PII detection model not loaded. Please ensure model files are available.")
        );
        assert!(envelope.is_well_formed());
    }
}

#[test]
fn failed_initialization_leaves_the_slot_empty_and_requests_fail() {
    let outcome: Result<StubEngine, String> = Err("No such file or directory".to_string());
    let (slot, failure) = ModelSlot::from_init(outcome);
    assert!(!slot.loaded());
    assert_eq!(
        failure.expect("a failure to report").message(),
        "Failed to initialize model: No such file or directory"
    );
    let (envelope, _, _) = serve(&slot, request("any text"));
    assert!(!envelope.success);
    assert!(envelope.message.unwrap().contains("model not loaded"));
}

#[test]
fn accepted_request_reports_the_projected_result() {
    let slot = loaded(Ok(()), Ok(vec![vec![span(0, "John Doe", "person", 0.95)]]));
    let (envelope, state, asked) = serve(&slot, request("My name is John Doe"));

    assert!(matches!(state, DetectState::Accepted));
    let (texts, labels) = asked.expect("the normalizer was asked");
    assert_eq!(texts, vec!["My name is John Doe".to_string()]);
    assert_eq!(labels, vec!["person", "email", "phone", "address", "organization"]);

    assert!(envelope.success);
    assert_eq!(envelope.message, None);
    assert!(envelope.is_well_formed());
    let result = envelope.data.expect("a result");
    assert_eq!(result.text(), "My name is John Doe");
    assert_eq!(result.total_entities(), 1);
    assert_eq!(result.entities()[0].text, "John Doe");
    assert_eq!(result.entities()[0].label, "person");
    assert_eq!(result.entities()[0].sequence, 0);
    assert_eq!(f32::from_bits(result.entities()[0].probability_bits), 0.95f32);
}

#[test]
fn empty_text_is_taken_like_any_other() {
    let slot = loaded(Ok(()), Ok(vec![vec![]]));
    let (envelope, state, asked) = serve(&slot, request(""));
    assert!(matches!(state, DetectState::Accepted));
    assert_eq!(asked.expect("asked").0, vec!["".to_string()]);
    assert!(envelope.success);
    let result = envelope.data.expect("a result");
    assert_eq!(result.text(), "");
    assert_eq!(result.total_entities(), 0);
    assert!(result.entities().is_empty());
}

#[test]
fn rejected_input_reports_the_cause_verbatim() {
    let cause = "invalid input: empty texts and/or entities";
    let slot = loaded(Err(cause.to_string()), Ok(vec![]));
    let (envelope, state, _) = serve(&slot, request("some text"));

    match state {
        DetectState::Rejected { error } => {
            assert_eq!(error.message(), "Failed to process input text: invalid input: empty texts and/or entities")
        }
        other => panic!("unexpected state: {:?}", other),
    }
    assert!(!envelope.success);
    assert!(envelope.data.is_none());
    assert_eq!(
        envelope.message.as_deref(),
        Some("Failed to process input text: invalid input: empty texts and/or entities")
    );
}

#[test]
fn failed_inference_reports_the_cause_verbatim() {
    let slot = loaded(Ok(()), Err("unexpected logits shape".to_string()));
    let (envelope, state, _) = serve(&slot, request("some text"));

    assert!(matches!(state, DetectState::Rejected { .. }));
    assert!(!envelope.success);
    assert!(envelope.data.is_none());
    assert_eq!(envelope.message.as_deref(), Some("Inference failed: unexpected logits shape"));
    assert!(envelope.is_well_formed());
}

#[test]
fn same_request_twice_gives_the_same_result() {
    let spans = vec![
        vec![span(0, "John Doe", "person", 0.95), span(0, "john@example.com", "email", 0.875)],
        vec![],
        vec![span(2, "Acme", "organization", 0.5)],
    ];
    let slot = loaded(Ok(()), Ok(spans));
    let (first, _, _) = serve(&slot, request("John Doe, john@example.com, Acme"));
    let (second, _, _) = serve(&slot, request("John Doe, john@example.com, Acme"));

    assert_eq!(first.success, second.success);
    assert_eq!(first.message, second.message);
    let (a, b) = (first.data.expect("a result"), second.data.expect("a result"));
    assert_eq!(a.text(), b.text());
    assert_eq!(a.total_entities(), 3);
    assert_eq!(a.total_entities(), b.total_entities());
    for (x, y) in a.entities().iter().zip(b.entities().iter()) {
        assert_eq!(x.text, y.text);
        assert_eq!(x.label, y.label);
        assert_eq!(x.sequence, y.sequence);
        assert_eq!(x.probability_bits, y.probability_bits);
    }
}

#[test]
fn machine_walks_the_stages_in_order() {
    let state = DetectState::receive(request("abc"));
    assert!(matches!(state, DetectState::Received { .. }));
    assert!(state.expects(&DetectEvent::Proceed));
    assert!(!state.expects(&DetectEvent::ModelPresent));

    let (state, action) = state.step(DetectEvent::Proceed);
    assert!(matches!(state, DetectState::ModelCheck { .. }));
    assert!(matches!(action, DetectAction::CheckModel));

    let (state, action) = state.step(DetectEvent::ModelPresent);
    assert!(matches!(state, DetectState::Normalized { .. }));
    assert!(matches!(action, DetectAction::Normalize { .. }));

    let (state, action) = state.step(DetectEvent::InputAccepted);
    assert!(matches!(state, DetectState::Invoked { .. }));
    assert!(matches!(action, DetectAction::Invoke));

    let (state, action) = state.step(DetectEvent::InferenceCompleted(RawOutput { spans: vec![] }));
    assert!(matches!(state, DetectState::Projected { .. }));
    assert!(matches!(action, DetectAction::Continue));
    assert!(!state.finished());

    let (state, action) = state.step(DetectEvent::Proceed);
    assert!(matches!(state, DetectState::Accepted));
    assert!(matches!(action, DetectAction::Respond(_)));
    assert!(state.finished());
}

#[test]
fn unexpected_event_is_ignored_and_changes_nothing() {
    let state = DetectState::receive(request("abc"));
    let (state, action) = state.step(DetectEvent::InputAccepted);
    assert!(matches!(action, DetectAction::Ignore));
    match &state {
        DetectState::Received { text } => assert_eq!(text, "abc"),
        other => panic!("unexpected state: {:?}", other),
    }

    let (state, _) = state.step(DetectEvent::Proceed);
    let (state, action) = state.step(DetectEvent::InferenceFailed("too early".to_string()));
    assert!(matches!(action, DetectAction::Ignore));
    assert!(matches!(state, DetectState::ModelCheck { .. }));
    assert!(!state.expects(&DetectEvent::Proceed));
}

#[test]
fn final_states_ignore_every_event() {
    let (state, _) = detect_pii(request("abc"), &ModelSlot::<StubEngine>::empty());
    assert!(state.finished());
    assert!(!state.expects(&DetectEvent::Proceed));
    let (state, action) = state.step(DetectEvent::Proceed);
    assert!(matches!(action, DetectAction::Ignore));
    assert!(matches!(state, DetectState::Rejected { .. }));
    let (state, action) = state.step(DetectEvent::ModelPresent);
    assert!(matches!(action, DetectAction::Ignore));
    assert!(matches!(state, DetectState::Rejected { .. }));
}

#[test]
fn events_are_built_from_outcomes() {
    assert!(matches!(model_event(&ModelSlot::<StubEngine>::empty()), DetectEvent::ModelAbsent));
    assert!(matches!(model_event(&loaded(Ok(()), Ok(vec![]))), DetectEvent::ModelPresent));
    assert!(matches!(input_event(Ok(())), DetectEvent::InputAccepted));
    match input_event(Err("bad".to_string())) {
        DetectEvent::InputRejected(cause) => assert_eq!(cause, "bad"),
        other => panic!("unexpected event: {:?}", other),
    }
    match inference_event(Err("worse".to_string())) {
        DetectEvent::InferenceFailed(cause) => assert_eq!(cause, "worse"),
        other => panic!("unexpected event: {:?}", other),
    }
    match inference_event(Ok(RawOutput { spans: vec![vec![span(0, "a", "b", 1.0)]] })) {
        DetectEvent::InferenceCompleted(raw) => assert_eq!(raw.spans[0][0].text, "a"),
        other => panic!("unexpected event: {:?}", other),
    }
}
