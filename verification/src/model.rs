//! The slot that holds the one engine instance, and where its files lie.

use crate::error::{ServiceError, ServiceErrorView};
use vstd::prelude::*;
use vstd::string::StringExecFns;

verus! {

/// Holds at most one engine of type `E`.
///
/// A slot starts empty and can be filled once. Nothing empties it again, and
/// nothing replaces an engine that it holds.
pub struct ModelSlot<E> {
    engine: Option<E>,
}

impl<E> View for ModelSlot<E> {
    type V = Option<E>;

    closed spec fn view(&self) -> Option<E> {
        self.engine
    }
}

impl<E> ModelSlot<E> {
    /// Whether the slot holds an engine.
    pub open spec fn is_loaded(&self) -> bool {
        self@ is Some
    }

    /// A slot without an engine.
    pub fn empty() -> (slot: Self)
        ensures
            slot@ is None,
    {
        ModelSlot { engine: None }
    }

    /// Puts `engine` into an empty slot. A slot that holds an engine keeps it
    /// and hands `engine` back.
    pub fn populate(&mut self, engine: E) -> (refused: Option<E>)
        ensures
            old(self)@ is None ==> final(self)@ == Some(engine) && refused is None,
            old(self)@ is Some ==> final(self)@ == old(self)@ && refused == Some(engine),
    {
        if self.engine.is_none() {
            self.engine = Some(engine);
            None
        } else {
            Some(engine)
        }
    }

    /// The slot with which the service starts, from the outcome of building the
    /// engine: loaded if that succeeded; empty, with the failure to report,
    /// if it did not.
    pub fn from_init(outcome: Result<E, String>) -> (r: (Self, Option<ServiceError>))
        ensures
            match outcome {
                Ok(engine) => r.0@ == Some(engine) && r.1 is None,
                Err(cause) => r.0@ is None && r.1 is Some && r.1->0@
                    == ServiceErrorView::InitError(cause@),
            },
    {
        match outcome {
            Ok(engine) => (ModelSlot { engine: Some(engine) }, None),
            Err(cause) => (ModelSlot { engine: None }, Some(ServiceError::InitError(cause))),
        }
    }

    /// The engine, if the slot holds one.
    pub fn get(&self) -> (engine: Option<&E>)
        ensures
            engine is Some <==> self.is_loaded(),
            engine matches Some(e) ==> self@ == Some(*e),
    {
        self.engine.as_ref()
    }

    /// Tells whether the slot holds an engine.
    pub fn loaded(&self) -> (b: bool)
        ensures
            b == self.is_loaded(),
    {
        self.engine.is_some()
    }
}

/// Where the files of a model lie on disk.
#[derive(Debug)]
pub struct ModelPaths {
    pub model_name: String,
    pub tokenizer_path: String,
    pub onnx_path: String,
}

/// The model that is served when none is configured.
pub open spec fn default_model_name() -> Seq<char> {
    "onnx-community/gliner-multitask-large-v0.5"@
}

/// The configured model identifier, or the default where none is configured.
pub open spec fn chosen_model_name(configured: Option<Seq<char>>) -> Seq<char> {
    match configured {
        Some(name) => name,
        None => default_model_name(),
    }
}

/// The tokenizer artifact of a model: `models/<id>/tokenizer.json`.
pub open spec fn tokenizer_path_of(model_name: Seq<char>) -> Seq<char> {
    "models/"@ + model_name + "/tokenizer.json"@
}

/// The model artifact of a model: `models/<id>/model.onnx`.
pub open spec fn onnx_path_of(model_name: Seq<char>) -> Seq<char> {
    "models/"@ + model_name + "/model.onnx"@
}

/// Picks the configured model identifier, or the default.
pub fn model_name_or_default(configured: Option<String>) -> (name: String)
    ensures
        name@ == chosen_model_name(
            match configured {
                Some(n) => Some(n@),
                None => None,
            },
        ),
{
    match configured {
        Some(name) => name,
        None => "onnx-community/gliner-multitask-large-v0.5".to_owned(),
    }
}

/// Derives the paths of the two artifacts from a model identifier.
pub fn model_paths(model_name: String) -> (paths: ModelPaths)
    ensures
        paths.model_name@ == model_name@,
        paths.tokenizer_path@ == tokenizer_path_of(model_name@),
        paths.onnx_path@ == onnx_path_of(model_name@),
{
    let tokenizer_path = "models/".to_owned().concat(model_name.as_str()).concat("/tokenizer.json");
    let onnx_path = "models/".to_owned().concat(model_name.as_str()).concat("/model.onnx");
    ModelPaths { model_name, tokenizer_path, onnx_path }
}

/// Where to load the engine from, for a configured model identifier or for
/// the default model.
pub fn locate_model(configured: Option<String>) -> (paths: ModelPaths)
    ensures
        paths.model_name@ == chosen_model_name(
            match configured {
                Some(n) => Some(n@),
                None => None,
            },
        ),
        paths.tokenizer_path@ == tokenizer_path_of(paths.model_name@),
        paths.onnx_path@ == onnx_path_of(paths.model_name@),
{
    model_paths(model_name_or_default(configured))
}

} // verus!
