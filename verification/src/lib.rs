//! A small image-classification pipeline: resolving tensor bindings from a
//! saved model's signature manifest, preparing raw image bytes as a model
//! input, and reducing a vector of per-class scores to a prediction.
//!
//! The inference runtime and the image codec are opaque collaborators: the
//! library states and verifies the logic around them — which keys resolve to
//! which tensor bindings, what the prepared input holds, and which class a
//! score vector selects — while the collaborators' own work stays behind
//! narrow interfaces.

pub mod errors;
pub mod input;
pub mod predict;
pub mod signature;

pub use errors::LoadError;
pub use errors::PredictError;
pub use errors::PrepareError;
pub use input::ModelInput;
pub use predict::ModelPrediction;
pub use predict::ZERO_SCORE;
pub use predict::reduce_output;
pub use signature::Model;
pub use signature::SignatureDef;
pub use signature::SignatureManifest;
pub use signature::TensorBinding;
