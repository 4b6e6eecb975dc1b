//! Error types of the pipeline: one per stage.

use vstd::prelude::*;

verus! {

/// A failure while loading a saved model and resolving its tensor bindings.
#[derive(Debug, PartialEq, Eq)]
pub enum LoadError {
    /// The model directory does not exist or cannot be read.
    DirectoryNotFound,
    /// The signature manifest holds no signature under `key`.
    SignatureNotFound { key: String },
    /// The chosen signature holds no tensor alias under `key`.
    TensorAliasNotFound { key: String },
    /// The runtime failed while parsing or initialising the graph.
    RuntimeLoadFailure { cause: String },
}

/// A failure while preparing raw image bytes as a model input.
#[derive(Debug, PartialEq, Eq)]
pub enum PrepareError {
    /// The byte buffer is not a recognisable image.
    DecodeFailure { cause: String },
}

/// A failure while running one inference pass.
#[derive(Debug, PartialEq, Eq)]
pub enum PredictError {
    /// The runtime rejected the bound input tensor's shape.
    ShapeMismatch,
    /// The synchronous execution call failed.
    RuntimeExecutionFailure { cause: String },
    /// The requested output could not be retrieved after execution.
    OutputFetchFailure,
}

} // verus!
