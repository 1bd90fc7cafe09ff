//! Verified core of an entity-extraction service.
//!
//! The service takes free text and answers with the entities that a
//! pretrained model finds in it. This library holds what the service decides:
//! the route table, the fixed answers, the slot for the one engine, the
//! course of a detection request, the projection of the engine's output onto
//! the reported result, and the envelope around every answer. It does no
//! input or output and runs no engine; a thin program around it does.

pub mod detect;
pub mod endpoints;
pub mod envelope;
pub mod error;
pub mod extraction;
pub mod labels;
pub mod model;
pub mod routes;
pub mod text;

pub use detect::{
    detect_pii, inference_event, input_event, model_event, DetectAction, DetectEvent, DetectState,
    PiiRequest,
};
pub use endpoints::{health_check, index, version};
pub use envelope::{ApiResponse, HealthResponse};
pub use error::ServiceError;
pub use extraction::{
    is_unit_probability, project, EntitySpan, ExtractionResult, RawOutput, RawSpan,
};
pub use labels::label_set;
pub use model::{locate_model, model_name_or_default, model_paths, ModelPaths, ModelSlot};
pub use routes::{resolve, serve_static, Endpoint, Method, StaticReply};
