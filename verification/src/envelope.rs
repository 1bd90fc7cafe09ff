//! The response shapes shared by every endpoint.

use vstd::prelude::*;

verus! {

/// Body of the liveness endpoint.
#[derive(Debug)]
pub struct HealthResponse {
    pub status: String,
    pub message: String,
}

/// Mathematical value of a [`HealthResponse`].
pub ghost struct HealthView {
    pub status: Seq<char>,
    pub message: Seq<char>,
}

impl View for HealthResponse {
    type V = HealthView;

    open spec fn view(&self) -> HealthView {
        HealthView { status: self.status@, message: self.message@ }
    }
}

/// Uniform envelope `{success, data, message}` around every payload.
#[derive(Debug)]
pub struct ApiResponse<T> {
    pub success: bool,
    pub data: Option<T>,
    pub message: Option<String>,
}

/// Mathematical value of an [`ApiResponse`] whose payload has value type `V`.
pub ghost struct EnvelopeView<V> {
    pub success: bool,
    pub data: Option<V>,
    pub message: Option<Seq<char>>,
}

impl<V> EnvelopeView<V> {
    /// The envelope of a successful call: the payload, and no message.
    pub open spec fn accepted(data: V) -> Self {
        EnvelopeView { success: true, data: Some(data), message: None }
    }

    /// The envelope of a failed call: the cause, and no payload.
    pub open spec fn rejected(message: Seq<char>) -> Self {
        EnvelopeView { success: false, data: None, message: Some(message) }
    }

    /// Exactly one of payload and message is present, and `success` says which.
    pub open spec fn well_formed(self) -> bool {
        if self.success {
            self.data is Some && self.message is None
        } else {
            self.data is None && self.message is Some
        }
    }
}

impl<T: View> View for ApiResponse<T> {
    type V = EnvelopeView<T::V>;

    open spec fn view(&self) -> EnvelopeView<T::V> {
        EnvelopeView {
            success: self.success,
            data: match self.data {
                Some(d) => Some(d@),
                None => None,
            },
            message: match self.message {
                Some(m) => Some(m@),
                None => None,
            },
        }
    }
}

impl<T: View> ApiResponse<T> {
    /// Wraps a payload into a success envelope.
    pub fn ok(data: T) -> (r: Self)
        ensures
            r@ == EnvelopeView::accepted(data@),
            r@.well_formed(),
    {
        ApiResponse { success: true, data: Some(data), message: None }
    }

    /// Wraps a cause into a failure envelope.
    pub fn fail(message: String) -> (r: Self)
        ensures
            r@ == EnvelopeView::<T::V>::rejected(message@),
            r@.well_formed(),
    {
        ApiResponse { success: false, data: None, message: Some(message) }
    }

    /// Tells whether exactly one of payload and message is present, as `success` says.
    pub fn is_well_formed(&self) -> (b: bool)
        ensures
            b == self@.well_formed(),
    {
        if self.success {
            self.data.is_some() && self.message.is_none()
        } else {
            self.data.is_none() && self.message.is_some()
        }
    }
}

} // verus!
