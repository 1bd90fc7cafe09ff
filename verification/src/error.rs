//! The failures of the service, and the messages that report them.

use crate::envelope::{ApiResponse, EnvelopeView};
use vstd::prelude::*;
use vstd::string::StringExecFns;

verus! {

/// Why a request, or the start of the service, did not succeed.
#[derive(Debug)]
pub enum ServiceError {
    /// The model slot was empty when a detection request arrived.
    ModelNotLoaded,
    /// The engine did not accept the text or the labels; holds its own words.
    InputError(String),
    /// The engine failed while it ran; holds its own words.
    InferenceError(String),
    /// The engine could not be built at startup; holds the cause.
    InitError(String),
}

/// Mathematical value of a [`ServiceError`].
pub ghost enum ServiceErrorView {
    ModelNotLoaded,
    InputError(Seq<char>),
    InferenceError(Seq<char>),
    InitError(Seq<char>),
}

impl View for ServiceError {
    type V = ServiceErrorView;

    open spec fn view(&self) -> ServiceErrorView {
        match self {
            ServiceError::ModelNotLoaded => ServiceErrorView::ModelNotLoaded,
            ServiceError::InputError(cause) => ServiceErrorView::InputError(cause@),
            ServiceError::InferenceError(cause) => ServiceErrorView::InferenceError(cause@),
            ServiceError::InitError(cause) => ServiceErrorView::InitError(cause@),
        }
    }
}

/// The message for an empty model slot.
pub open spec fn model_not_loaded_text() -> Seq<char> {
    "PII detection model not loaded. Please ensure model files are available."@
}

/// The human-readable message of a failure: a fixed sentence, or a fixed
/// prefix followed by the cause exactly as it was given.
pub open spec fn message_of(error: ServiceErrorView) -> Seq<char> {
    match error {
        ServiceErrorView::ModelNotLoaded => model_not_loaded_text(),
        ServiceErrorView::InputError(cause) => "Failed to process input text: "@ + cause,
        ServiceErrorView::InferenceError(cause) => "Inference failed: "@ + cause,
        ServiceErrorView::InitError(cause) => "Failed to initialize model: "@ + cause,
    }
}

impl ServiceError {
    /// The human-readable message of this failure.
    pub fn message(&self) -> (m: String)
        ensures
            m@ == message_of(self@),
    {
        match self {
            ServiceError::ModelNotLoaded => {
                "PII detection model not loaded. Please ensure model files are available.".to_owned()
            },
            ServiceError::InputError(cause) => {
                "Failed to process input text: ".to_owned().concat(cause.as_str())
            },
            ServiceError::InferenceError(cause) => {
                "Inference failed: ".to_owned().concat(cause.as_str())
            },
            ServiceError::InitError(cause) => {
                "Failed to initialize model: ".to_owned().concat(cause.as_str())
            },
        }
    }

    /// The failure envelope that reports this failure: no payload, and the
    /// message.
    pub fn to_response<T: View>(&self) -> (r: ApiResponse<T>)
        ensures
            r@ == EnvelopeView::<T::V>::rejected(message_of(self@)),
            r@.well_formed(),
    {
        ApiResponse::fail(self.message())
    }
}

} // verus!
