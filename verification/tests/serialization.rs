use gliner_rs_api::{ApiResponse, EntitySpan, ExtractionResult, HealthResponse, PiiRequest};
use serde_json::{Number, Value};

fn optional_text(text: &Option<String>) -> Value {
    match text {
        Some(t) => Value::String(t.clone()),
        None => Value::Null,
    }
}

fn read_optional_text(value: &Value) -> Option<String> {
    value.as_str().map(|t| t.to_string())
}

fn health_to_wire(health: &HealthResponse) -> String {
    let mut object = serde_json::Map::new();
    object.insert("status".to_string(), Value::String(health.status.clone()));
    object.insert("message".to_string(), Value::String(health.message.clone()));
    serde_json::to_string(&Value::Object(object)).expect("serialization should work")
}

fn health_from_wire(json: &str) -> HealthResponse {
    let value: Value = serde_json::from_str(json).expect("deserialization should work");
    HealthResponse {
        status: value["status"].as_str().expect("status is a string").to_string(),
        message: value["message"].as_str().expect("message is a string").to_string(),
    }
}

fn text_envelope_to_wire(envelope: &ApiResponse<String>) -> String {
    let mut object = serde_json::Map::new();
    object.insert("success".to_string(), Value::Bool(envelope.success));
    object.insert("data".to_string(), optional_text(&envelope.data));
    object.insert("message".to_string(), optional_text(&envelope.message));
    serde_json::to_string(&Value::Object(object)).expect("serialization should work")
}

fn text_envelope_from_wire(json: &str) -> ApiResponse<String> {
    let value: Value = serde_json::from_str(json).expect("deserialization should work");
    ApiResponse {
        success: value["success"].as_bool().expect("success is a boolean"),
        data: read_optional_text(&value["data"]),
        message: read_optional_text(&value["message"]),
    }
}

fn request_to_wire(request: &PiiRequest) -> String {
    let mut object = serde_json::Map::new();
    object.insert("text".to_string(), Value::String(request.text.clone()));
    serde_json::to_string(&Value::Object(object)).expect("serialization should work")
}

fn request_from_wire(json: &str) -> PiiRequest {
    let value: Value = serde_json::from_str(json).expect("deserialization should work");
    PiiRequest { text: value["text"].as_str().expect("text is a string").to_string() }
}

fn entity_to_value(entity: &EntitySpan) -> Value {
    let probability = f32::from_bits(entity.probability_bits);
    let mut object = serde_json::Map::new();
    object.insert("text".to_string(), Value::String(entity.text.clone()));
    object.insert("label".to_string(), Value::String(entity.label.clone()));
    object.insert("sequence".to_string(), Value::from(entity.sequence));
    object.insert(
        "probability".to_string(),
        Value::Number(Number::from_f64(probability as f64).expect("a finite number")),
    );
    Value::Object(object)
}

fn entity_from_value(value: &Value) -> EntitySpan {
    EntitySpan {
        text: value["text"].as_str().expect("text is a string").to_string(),
        label: value["label"].as_str().expect("label is a string").to_string(),
        sequence: value["sequence"].as_u64().expect("sequence is a number") as usize,
        probability_bits: (value["probability"].as_f64().expect("probability is a number") as f32)
            .to_bits(),
    }
}

fn result_envelope_to_wire(envelope: &ApiResponse<ExtractionResult>) -> String {
    let data = match &envelope.data {
        Some(result) => {
            let mut object = serde_json::Map::new();
            object.insert("text".to_string(), Value::String(result.text().clone()));
            object.insert(
                "entities".to_string(),
                Value::Array(result.entities().iter().map(entity_to_value).collect()),
            );
            object.insert("total_entities".to_string(), Value::from(result.total_entities()));
            Value::Object(object)
        }
        None => Value::Null,
    };
    let mut object = serde_json::Map::new();
    object.insert("success".to_string(), Value::Bool(envelope.success));
    object.insert("data".to_string(), data);
    object.insert("message".to_string(), optional_text(&envelope.message));
    serde_json::to_string(&Value::Object(object)).expect("serialization should work")
}

fn result_envelope_from_wire(json: &str) -> ApiResponse<ExtractionResult> {
    let value: Value = serde_json::from_str(json).expect("deserialization should work");
    let data = match &value["data"] {
        Value::Null => None,
        data => {
            let entities = data["entities"]
                .as_array()
                .expect("entities is a list")
                .iter()
                .map(entity_from_value)
                .collect();
            let total = data["total_entities"].as_u64().expect("total is a number") as usize;
            let text = data["text"].as_str().expect("text is a string").to_string();
            Some(ExtractionResult::from_parts(text, entities, total).expect("count matches"))
        }
    };
    ApiResponse {
        success: value["success"].as_bool().expect("success is a boolean"),
        data,
        message: read_optional_text(&value["message"]),
    }
}

#[test]
fn test_health_response_serialization() {
    let health = HealthResponse { status: "ok".to_string(), message: "test".to_string() };

    let json = health_to_wire(&health);
    let deserialized: HealthResponse = health_from_wire(&json);

    assert_eq!(health.status, deserialized.status);
    assert_eq!(health.message, deserialized.message);
}

#[test]
fn test_api_response_serialization() {
    let api_response = ApiResponse {
        success: true,
        data: Some("test data".to_string()),
        message: Some("test message".to_string()),
    };

    let json = text_envelope_to_wire(&api_response);
    let deserialized: ApiResponse<String> = text_envelope_from_wire(&json);

    assert_eq!(api_response.success, deserialized.success);
    assert_eq!(api_response.data, deserialized.data);
    assert_eq!(api_response.message, deserialized.message);
}

#[test]
fn test_pii_request_serialization() {
    let pii_request = PiiRequest { text: "Test text".to_string() };

    let json = request_to_wire(&pii_request);
    let deserialized: PiiRequest = request_from_wire(&json);

    assert_eq!(pii_request.text, deserialized.text);
}

#[test]
fn result_envelope_round_trip_reproduces_every_field() {
    let entity = EntitySpan {
        text: "John Doe".to_string(),
        label: "person".to_string(),
        sequence: 0,
        probability_bits: 0.95f32.to_bits(),
    };
    let result = ExtractionResult::new("My name is John Doe".to_string(), vec![entity]);
    let envelope = ApiResponse::ok(result);

    let json = result_envelope_to_wire(&envelope);
    let parsed = result_envelope_from_wire(&json);

    assert!(parsed.success);
    assert_eq!(parsed.message, None);
    assert!(parsed.is_well_formed());
    let data = parsed.data.expect("data is present");
    assert_eq!(data.text(), "My name is John Doe");
    assert_eq!(data.total_entities(), 1);
    assert_eq!(data.entities().len(), 1);
    let found = &data.entities()[0];
    assert_eq!(found.text, "John Doe");
    assert_eq!(found.label, "person");
    assert_eq!(found.sequence, 0);
    assert_eq!(found.probability_bits, 0.95f32.to_bits());
    assert_eq!(f32::from_bits(found.probability_bits), 0.95f32);
}

#[test]
fn failure_envelope_round_trip_reproduces_every_field() {
    let envelope: ApiResponse<ExtractionResult> =
        ApiResponse::fail("Inference failed: out of memory".to_string());

    let parsed = result_envelope_from_wire(&result_envelope_to_wire(&envelope));

    assert!(!parsed.success);
    assert!(parsed.data.is_none());
    assert_eq!(parsed.message.as_deref(), Some("Inference failed: out of memory"));
    assert!(parsed.is_well_formed());
}

#[test]
fn envelope_with_payload_and_message_is_not_well_formed() {
    let both = ApiResponse {
        success: true,
        data: Some("test data".to_string()),
        message: Some("test message".to_string()),
    };
    assert!(!both.is_well_formed());
    let neither: ApiResponse<String> = ApiResponse { success: false, data: None, message: None };
    assert!(!neither.is_well_formed());
    assert!(ApiResponse::ok("x".to_string()).is_well_formed());
    assert!(ApiResponse::<String>::fail("y".to_string()).is_well_formed());
}
