//! Orchestration core of a text-generation service: admission control, the
//! stream driver that splices continuations and attributes energy, the
//! aggregator, best-of selection, health latching and the error taxonomy.

pub mod aggregate;
pub mod best_of;
pub mod driver;
pub mod error;
pub mod gate;
pub mod health;
pub mod infer;
pub mod response_laws;
pub mod stream_laws;
pub mod template;
pub mod types;

pub use aggregate::Aggregator;
pub use driver::{DriverAction, DriverInput, StreamDriver};
pub use error::{APIError, InferError, OpenaiErrorEvent, TemplateError, ValidationError};
pub use gate::AdmissionGate;
pub use health::HealthTracker;
pub use infer::Infer;
pub use types::{
    FinishReason, GenerateParameters, GenerateRequest, GeneratedText, InferResponse,
    InferStreamResponse, PrefillToken, Token, ValidGenerateRequest, ValidParameters,
    ValidStoppingParameters,
};
