//! The detection request, as a machine of states, events and actions.
//!
//! The machine decides; it does no outside work. Each step takes the answer
//! to the last action and gives the next action. Whoever drives the machine
//! looks into the model slot, builds the engine's input, runs the engine, and
//! hands each outcome back as an event, until the machine gives the response.

use crate::envelope::{ApiResponse, EnvelopeView};
use crate::error::{message_of, model_not_loaded_text, ServiceError, ServiceErrorView};
use crate::extraction::{
    project,
    projection,
    ExtractionResult,
    ExtractionView,
    RawOutput,
    RawSpanView,
};
use crate::labels::{label_names, label_set};
use crate::model::ModelSlot;
use crate::text::{contains_text, occurs_at};
use vstd::prelude::*;

verus! {

/// Body of a detection request.
#[derive(Debug)]
pub struct PiiRequest {
    pub text: String,
}

/// Where a detection request stands. `Accepted` and `Rejected` are final.
#[derive(Debug)]
pub enum DetectState {
    /// The request has arrived; nothing has been decided.
    Received { text: String },
    /// The model slot is being looked into.
    ModelCheck { text: String },
    /// An engine is there; its input is being built.
    Normalized { text: String },
    /// The input was accepted; the engine is running.
    Invoked { text: String },
    /// The engine's output has been projected onto the result.
    Projected { result: ExtractionResult },
    /// The result has been given out in a success envelope.
    Accepted,
    /// The request has failed, and the failure has been given out.
    Rejected { error: ServiceError },
}

/// What happened outside since the last action.
#[derive(Debug)]
pub enum DetectEvent {
    /// The last action asked for no outside work.
    Proceed,
    /// The model slot is empty.
    ModelAbsent,
    /// The model slot holds an engine.
    ModelPresent,
    /// The engine's input was built.
    InputAccepted,
    /// The engine's input could not be built; holds the cause.
    InputRejected(String),
    /// The engine ran and gave this output.
    InferenceCompleted(RawOutput),
    /// The engine failed; holds the cause.
    InferenceFailed(String),
}

/// What is to be done outside next.
#[derive(Debug)]
pub enum DetectAction {
    /// Look into the model slot; answer `ModelAbsent` or `ModelPresent`.
    CheckModel,
    /// Build the engine's input from these texts and labels; answer
    /// `InputAccepted` or `InputRejected`.
    Normalize { texts: Vec<String>, labels: Vec<String> },
    /// Run the engine on the input just built; answer `InferenceCompleted` or
    /// `InferenceFailed`.
    Invoke,
    /// Nothing to do outside; answer `Proceed`.
    Continue,
    /// Send this envelope. The request is finished.
    Respond(ApiResponse<ExtractionResult>),
    /// The event was not an answer that the state waits for; the state is
    /// unchanged.
    Ignore,
}

/// Mathematical value of a [`DetectState`].
pub ghost enum StateView {
    Received { text: Seq<char> },
    ModelCheck { text: Seq<char> },
    Normalized { text: Seq<char> },
    Invoked { text: Seq<char> },
    Projected { result: ExtractionView },
    Accepted,
    Rejected { error: ServiceErrorView },
}

/// Mathematical value of a [`DetectEvent`].
pub ghost enum EventView {
    Proceed,
    ModelAbsent,
    ModelPresent,
    InputAccepted,
    InputRejected(Seq<char>),
    InferenceCompleted(Seq<Seq<RawSpanView>>),
    InferenceFailed(Seq<char>),
}

/// Mathematical value of a [`DetectAction`].
pub ghost enum ActionView {
    CheckModel,
    Normalize { texts: Seq<Seq<char>>, labels: Seq<Seq<char>> },
    Invoke,
    Continue,
    Respond(EnvelopeView<ExtractionView>),
    Ignore,
}

impl View for DetectState {
    type V = StateView;

    open spec fn view(&self) -> StateView {
        match self {
            DetectState::Received { text } => StateView::Received { text: text@ },
            DetectState::ModelCheck { text } => StateView::ModelCheck { text: text@ },
            DetectState::Normalized { text } => StateView::Normalized { text: text@ },
            DetectState::Invoked { text } => StateView::Invoked { text: text@ },
            DetectState::Projected { result } => StateView::Projected { result: result@ },
            DetectState::Accepted => StateView::Accepted,
            DetectState::Rejected { error } => StateView::Rejected { error: error@ },
        }
    }
}

impl View for DetectEvent {
    type V = EventView;

    open spec fn view(&self) -> EventView {
        match self {
            DetectEvent::Proceed => EventView::Proceed,
            DetectEvent::ModelAbsent => EventView::ModelAbsent,
            DetectEvent::ModelPresent => EventView::ModelPresent,
            DetectEvent::InputAccepted => EventView::InputAccepted,
            DetectEvent::InputRejected(cause) => EventView::InputRejected(cause@),
            DetectEvent::InferenceCompleted(raw) => EventView::InferenceCompleted(raw@),
            DetectEvent::InferenceFailed(cause) => EventView::InferenceFailed(cause@),
        }
    }
}

impl View for DetectAction {
    type V = ActionView;

    open spec fn view(&self) -> ActionView {
        match self {
            DetectAction::CheckModel => ActionView::CheckModel,
            DetectAction::Normalize { texts, labels } => ActionView::Normalize {
                texts: texts.deep_view(),
                labels: labels.deep_view(),
            },
            DetectAction::Invoke => ActionView::Invoke,
            DetectAction::Continue => ActionView::Continue,
            DetectAction::Respond(envelope) => ActionView::Respond(envelope@),
            DetectAction::Ignore => ActionView::Ignore,
        }
    }
}

/// The step that ends a request in failure: the state records the failure, the
/// action sends its envelope.
pub open spec fn reject(error: ServiceErrorView) -> (StateView, ActionView) {
    (
        StateView::Rejected { error },
        ActionView::Respond(EnvelopeView::rejected(message_of(error))),
    )
}

/// The transition function: the state and action that follow `state` on
/// `event`.
///
/// An event that `state` does not wait for changes nothing and gives
/// `Ignore`; so does every event in a final state.
pub open spec fn step_of(state: StateView, event: EventView) -> (StateView, ActionView) {
    match (state, event) {
        (StateView::Received { text }, EventView::Proceed) => (
            StateView::ModelCheck { text },
            ActionView::CheckModel,
        ),
        (StateView::ModelCheck { .. }, EventView::ModelAbsent) => reject(
            ServiceErrorView::ModelNotLoaded,
        ),
        (StateView::ModelCheck { text }, EventView::ModelPresent) => (
            StateView::Normalized { text },
            ActionView::Normalize { texts: seq![text], labels: label_names() },
        ),
        (StateView::Normalized { .. }, EventView::InputRejected(cause)) => reject(
            ServiceErrorView::InputError(cause),
        ),
        (StateView::Normalized { text }, EventView::InputAccepted) => (
            StateView::Invoked { text },
            ActionView::Invoke,
        ),
        (StateView::Invoked { .. }, EventView::InferenceFailed(cause)) => reject(
            ServiceErrorView::InferenceError(cause),
        ),
        (StateView::Invoked { text }, EventView::InferenceCompleted(raw)) => (
            StateView::Projected { result: projection(raw, text) },
            ActionView::Continue,
        ),
        (StateView::Projected { result }, EventView::Proceed) => (
            StateView::Accepted,
            ActionView::Respond(EnvelopeView::accepted(result)),
        ),
        _ => (state, ActionView::Ignore),
    }
}

/// Whether `state` waits for `event`.
pub open spec fn awaits(state: StateView, event: EventView) -> bool {
    match state {
        StateView::Received { .. } => event is Proceed,
        StateView::ModelCheck { .. } => event is ModelAbsent || event is ModelPresent,
        StateView::Normalized { .. } => event is InputAccepted || event is InputRejected,
        StateView::Invoked { .. } => event is InferenceCompleted || event is InferenceFailed,
        StateView::Projected { .. } => event is Proceed,
        StateView::Accepted => false,
        StateView::Rejected { .. } => false,
    }
}

/// Whether `state` is final.
pub open spec fn is_final(state: StateView) -> bool {
    state is Accepted || state is Rejected
}

/// Whether `event` is an answer to `action`.
pub open spec fn answers(action: ActionView, event: EventView) -> bool {
    match action {
        ActionView::CheckModel => event is ModelAbsent || event is ModelPresent,
        ActionView::Normalize { .. } => event is InputAccepted || event is InputRejected,
        ActionView::Invoke => event is InferenceCompleted || event is InferenceFailed,
        ActionView::Continue => event is Proceed,
        ActionView::Respond(_) => false,
        ActionView::Ignore => false,
    }
}

/// The number of steps that a request in `state` can still take.
pub open spec fn steps_left(state: StateView) -> nat {
    match state {
        StateView::Received { .. } => 5,
        StateView::ModelCheck { .. } => 4,
        StateView::Normalized { .. } => 3,
        StateView::Invoked { .. } => 2,
        StateView::Projected { .. } => 1,
        StateView::Accepted => 0,
        StateView::Rejected { .. } => 0,
    }
}

/// How the outside work of one request turned out.
pub ghost enum Outcome {
    /// The model slot was empty.
    ModelAbsent,
    /// The engine's input could not be built, for this cause.
    InputRejected(Seq<char>),
    /// The engine failed, for this cause.
    InferenceFailed(Seq<char>),
    /// The engine gave this output.
    Completed(Seq<Seq<RawSpanView>>),
}

/// The events that the machine is handed, in order, in a request that turns
/// out as `outcome`.
pub open spec fn events_of(outcome: Outcome) -> Seq<EventView> {
    match outcome {
        Outcome::ModelAbsent => seq![EventView::Proceed, EventView::ModelAbsent],
        Outcome::InputRejected(cause) => seq![
            EventView::Proceed,
            EventView::ModelPresent,
            EventView::InputRejected(cause),
        ],
        Outcome::InferenceFailed(cause) => seq![
            EventView::Proceed,
            EventView::ModelPresent,
            EventView::InputAccepted,
            EventView::InferenceFailed(cause),
        ],
        Outcome::Completed(raw) => seq![
            EventView::Proceed,
            EventView::ModelPresent,
            EventView::InputAccepted,
            EventView::InferenceCompleted(raw),
            EventView::Proceed,
        ],
    }
}

/// The envelope that answers a request for `text` that turns out as
/// `outcome`.
pub open spec fn response_of(text: Seq<char>, outcome: Outcome) -> EnvelopeView<ExtractionView> {
    match outcome {
        Outcome::ModelAbsent => EnvelopeView::rejected(message_of(ServiceErrorView::ModelNotLoaded)),
        Outcome::InputRejected(cause) => EnvelopeView::rejected(
            message_of(ServiceErrorView::InputError(cause)),
        ),
        Outcome::InferenceFailed(cause) => EnvelopeView::rejected(
            message_of(ServiceErrorView::InferenceError(cause)),
        ),
        Outcome::Completed(raw) => EnvelopeView::accepted(projection(raw, text)),
    }
}

/// The state and the last action after the machine has taken `events` one by
/// one, from `state` on.
pub open spec fn run(state: StateView, events: Seq<EventView>) -> (StateView, ActionView)
    recommends
        events.len() > 0,
    decreases events.len(),
{
    if events.len() <= 1 {
        step_of(state, events[0])
    } else {
        run(step_of(state, events[0]).0, events.drop_first())
    }
}

/// The answer that a slot gives to `CheckModel`.
pub open spec fn slot_answer<E>(slot: ModelSlot<E>) -> EventView {
    if slot.is_loaded() {
        EventView::ModelPresent
    } else {
        EventView::ModelAbsent
    }
}

impl DetectState {
    /// The state of a request that has just arrived.
    pub fn receive(request: PiiRequest) -> (state: DetectState)
        ensures
            state@ == (StateView::Received { text: request.text@ }),
    {
        DetectState::Received { text: request.text }
    }

    /// Tells whether the request is finished.
    pub fn finished(&self) -> (b: bool)
        ensures
            b == is_final(self@),
    {
        match self {
            DetectState::Accepted => true,
            DetectState::Rejected { .. } => true,
            _ => false,
        }
    }

    /// Tells whether this state waits for `event`.
    pub fn expects(&self, event: &DetectEvent) -> (b: bool)
        ensures
            b == awaits(self@, event@),
    {
        match self {
            DetectState::Received { .. } => matches!(event, DetectEvent::Proceed),
            DetectState::ModelCheck { .. } => matches!(
                event,
                DetectEvent::ModelAbsent | DetectEvent::ModelPresent
            ),
            DetectState::Normalized { .. } => matches!(
                event,
                DetectEvent::InputAccepted | DetectEvent::InputRejected(_)
            ),
            DetectState::Invoked { .. } => matches!(
                event,
                DetectEvent::InferenceCompleted(_) | DetectEvent::InferenceFailed(_)
            ),
            DetectState::Projected { .. } => matches!(event, DetectEvent::Proceed),
            DetectState::Accepted => false,
            DetectState::Rejected { .. } => false,
        }
    }

    /// Takes one step: consumes the answer to the last action and gives the
    /// state that follows and the next action.
    pub fn step(self, event: DetectEvent) -> (r: (DetectState, DetectAction))
        ensures
            (r.0@, r.1@) == step_of(self@, event@),
    {
        match (self, event) {
            (DetectState::Received { text }, DetectEvent::Proceed) => (
                DetectState::ModelCheck { text },
                DetectAction::CheckModel,
            ),
            (DetectState::ModelCheck { .. }, DetectEvent::ModelAbsent) => fail(
                ServiceError::ModelNotLoaded,
            ),
            (DetectState::ModelCheck { text }, DetectEvent::ModelPresent) => {
                let mut texts: Vec<String> = Vec::new();
                texts.push(text.clone());
                assert(texts.deep_view() =~= seq![text@]);
                (
                    DetectState::Normalized { text },
                    DetectAction::Normalize { texts, labels: label_set() },
                )
            },
            (DetectState::Normalized { .. }, DetectEvent::InputRejected(cause)) => fail(
                ServiceError::InputError(cause),
            ),
            (DetectState::Normalized { text }, DetectEvent::InputAccepted) => (
                DetectState::Invoked { text },
                DetectAction::Invoke,
            ),
            (DetectState::Invoked { .. }, DetectEvent::InferenceFailed(cause)) => fail(
                ServiceError::InferenceError(cause),
            ),
            (DetectState::Invoked { text }, DetectEvent::InferenceCompleted(raw)) => (
                DetectState::Projected { result: project(&raw, text.as_str()) },
                DetectAction::Continue,
            ),
            (DetectState::Projected { result }, DetectEvent::Proceed) => (
                DetectState::Accepted,
                DetectAction::Respond(ApiResponse::ok(result)),
            ),
            (state, _) => (state, DetectAction::Ignore),
        }
    }
}

/// Ends a request in failure.
fn fail(error: ServiceError) -> (r: (DetectState, DetectAction))
    ensures
        (r.0@, r.1@) == reject(error@),
{
    let envelope = error.to_response();
    (DetectState::Rejected { error }, DetectAction::Respond(envelope))
}

/// The answer to `CheckModel`: whether the slot holds an engine.
pub fn model_event<E>(slot: &ModelSlot<E>) -> (event: DetectEvent)
    ensures
        event@ == slot_answer(*slot),
{
    if slot.loaded() {
        DetectEvent::ModelPresent
    } else {
        DetectEvent::ModelAbsent
    }
}

/// Takes a detection request in and looks into the model slot: the first two
/// steps of the machine, which need no work from outside the library.
///
/// With an empty slot the request is finished: the action is the failure
/// envelope. With an engine in the slot the machine asks for the engine's
/// input, built from the one text of the request and the fixed labels.
pub fn detect_pii<E>(request: PiiRequest, slot: &ModelSlot<E>) -> (r: (DetectState, DetectAction))
    ensures
        (r.0@, r.1@) == run(
            StateView::Received { text: request.text@ },
            seq![EventView::Proceed, slot_answer(*slot)],
        ),
        !slot.is_loaded() ==> r.0@ is Rejected && r.1@ == ActionView::Respond(
            response_of(request.text@, Outcome::ModelAbsent),
        ),
        slot.is_loaded() ==> r.0@ == (StateView::Normalized { text: request.text@ }) && r.1@ == (
        ActionView::Normalize { texts: seq![request.text@], labels: label_names() }),
{
    proof {
        let events = seq![EventView::Proceed, slot_answer(*slot)];
        reveal_with_fuel(run, 2);
        assert(events.drop_first()[0] == events[1]);
    }
    let (checking, _) = DetectState::receive(request).step(DetectEvent::Proceed);
    checking.step(model_event(slot))
}

/// The answer to `Normalize`, from the outcome of building the engine's
/// input: the cause of a failure is kept as it is.
pub fn input_event(outcome: Result<(), String>) -> (event: DetectEvent)
    ensures
        event@ == match outcome {
            Ok(_) => EventView::InputAccepted,
            Err(cause) => EventView::InputRejected(cause@),
        },
{
    match outcome {
        Ok(_) => DetectEvent::InputAccepted,
        Err(cause) => DetectEvent::InputRejected(cause),
    }
}

/// The answer to `Invoke`, from the outcome of running the engine: the output
/// or the cause is kept as it is.
pub fn inference_event(outcome: Result<RawOutput, String>) -> (event: DetectEvent)
    ensures
        event@ == match outcome {
            Ok(raw) => EventView::InferenceCompleted(raw@),
            Err(cause) => EventView::InferenceFailed(cause@),
        },
{
    match outcome {
        Ok(raw) => DetectEvent::InferenceCompleted(raw),
        Err(cause) => DetectEvent::InferenceFailed(cause),
    }
}

/// An event is ignored exactly if the state does not wait for it, and then the
/// state stays as it is. No final state waits for anything.
pub proof fn lemma_ignored_iff_unexpected(state: StateView, event: EventView)
    ensures
        step_of(state, event).1 is Ignore <==> !awaits(state, event),
        !awaits(state, event) ==> step_of(state, event).0 == state,
        is_final(state) ==> !awaits(state, event),
{
}

/// After a step that was not ignored, the new state waits for exactly the
/// answers to the action given; the request is finished exactly if that
/// action is `Respond`; and fewer steps are left than before.
pub proof fn lemma_step_asks_for_its_answer(state: StateView, event: EventView, answer: EventView)
    requires
        awaits(state, event),
    ensures
        awaits(step_of(state, event).0, answer) <==> answers(step_of(state, event).1, answer),
        is_final(step_of(state, event).0) <==> step_of(state, event).1 is Respond,
        steps_left(step_of(state, event).0) < steps_left(state),
{
}

/// Every envelope that the machine sends has exactly one of payload and
/// message: the payload exactly if the request ends accepted, the message
/// exactly if it ends rejected.
pub proof fn lemma_responses_are_well_formed(state: StateView, event: EventView)
    requires
        step_of(state, event).1 is Respond,
    ensures
        step_of(state, event).1->Respond_0.well_formed(),
        step_of(state, event).1->Respond_0.success <==> step_of(state, event).0 is Accepted,
        !step_of(state, event).1->Respond_0.success <==> step_of(state, event).0 is Rejected,
{
}

/// The engine's input is always asked for with the one text of the request
/// and with all of the fixed labels: neither list is ever empty.
pub proof fn lemma_normalizer_gets_one_text_and_all_labels(state: StateView, event: EventView)
    requires
        step_of(state, event).1 is Normalize,
    ensures
        state is ModelCheck,
        step_of(state, event).1->texts == seq![state->ModelCheck_text],
        step_of(state, event).1->labels == label_names(),
        step_of(state, event).1->labels.len() == 5,
{
}

/// Whatever the outside work gives, the request is answered: driven by the
/// events of an outcome, the machine ends in a final state with the envelope
/// of that outcome, accepted exactly if the engine gave an output.
pub proof fn lemma_run_gives_response(text: Seq<char>, outcome: Outcome)
    ensures
        run(StateView::Received { text }, events_of(outcome)).1 == ActionView::Respond(
            response_of(text, outcome),
        ),
        is_final(run(StateView::Received { text }, events_of(outcome)).0),
        run(StateView::Received { text }, events_of(outcome)).0 is Accepted <==> outcome is Completed,
        response_of(text, outcome).well_formed(),
        response_of(text, outcome).success <==> outcome is Completed,
{
    reveal_with_fuel(run, 6);
    let events = events_of(outcome);
    assert(events.drop_first()[0] == events[1]);
    if events.len() > 2 {
        assert(events.drop_first().drop_first()[0] == events[2]);
    }
    if events.len() > 3 {
        assert(events.drop_first().drop_first().drop_first()[0] == events[3]);
    }
    if events.len() > 4 {
        assert(events.drop_first().drop_first().drop_first().drop_first()[0] == events[4]);
    }
}

/// The same text with the same outcome gives the same envelope: the answer
/// depends on nothing else.
pub proof fn lemma_same_outcome_same_response(
    text1: Seq<char>,
    outcome1: Outcome,
    text2: Seq<char>,
    outcome2: Outcome,
)
    requires
        text1 == text2,
        outcome1 == outcome2,
    ensures
        response_of(text1, outcome1) == response_of(text2, outcome2),
        run(StateView::Received { text: text1 }, events_of(outcome1)) == run(
            StateView::Received { text: text2 },
            events_of(outcome2),
        ),
{
}

/// With an empty model slot every request fails, whatever its text: the
/// machine ends rejected after the look into the slot, the envelope has no
/// payload, and its message says that the model is not loaded.
pub proof fn lemma_rejected_without_model<E>(slot: ModelSlot<E>, text: Seq<char>)
    requires
        !slot.is_loaded(),
    ensures
        run(StateView::Received { text }, seq![EventView::Proceed, slot_answer(slot)]) == reject(
            ServiceErrorView::ModelNotLoaded,
        ),
        reject(ServiceErrorView::ModelNotLoaded).1 == ActionView::Respond(
            response_of(text, Outcome::ModelAbsent),
        ),
        !response_of(text, Outcome::ModelAbsent).success,
        response_of(text, Outcome::ModelAbsent).data is None,
        response_of(text, Outcome::ModelAbsent).message == Some(model_not_loaded_text()),
        contains_text(model_not_loaded_text(), "model not loaded"@),
{
    let events = seq![EventView::Proceed, slot_answer(slot)];
    reveal_with_fuel(run, 2);
    assert(events.drop_first()[0] == events[1]);
    let message = model_not_loaded_text();
    let needle = "model not loaded"@;
    reveal_strlit("PII detection model not loaded. Please ensure model files are available.");
    reveal_strlit("model not loaded");
    assert(message.subrange(14, 30) =~= needle);
    assert(occurs_at(message, needle, 14));
}

} // verus!
