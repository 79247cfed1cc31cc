//! The closed taxonomy of failures, their classification and their rendering
//! as an error event.

use vstd::prelude::*;
use vstd::string::*;

verus! {

/// `tokio::sync::TryAcquireError`: why a semaphore refused a permit.
#[verifier::external_type_specification]
#[verifier::external_body]
pub struct ExTryAcquireError(tokio::sync::TryAcquireError);

/// `minijinja::Error`: a failure of the template engine.
#[verifier::external_type_specification]
#[verifier::external_body]
pub struct ExTemplateEngineError(minijinja::Error);

/// The rejection of a request by validation.
#[derive(Debug)]
pub struct ValidationError {
    pub message: String,
}

/// A failure of the chat template: the engine's error and its rendering.
#[derive(Debug)]
pub struct TemplateError {
    pub source: minijinja::Error,
    pub text: String,
}

/// Calls `minijinja::Error::from` on `ErrorKind::TemplateNotFound`: the
/// engine's error for a template that does not exist. Nothing is claimed of
/// the value.
#[verifier::external_body]
fn template_not_found() -> (error: minijinja::Error) {
    minijinja::Error::from(minijinja::ErrorKind::TemplateNotFound)
}

impl TemplateError {
    /// Keeps the engine's error together with its rendering.
    pub fn new(source: minijinja::Error) -> (error: TemplateError)
        ensures
            error.source == source,
            to_string_from_display_ensures::<minijinja::Error>(&error.source, error.text),
    {
        let text = source.to_string();
        TemplateError { source, text }
    }

    /// The failure for a chat template that was never configured.
    pub fn not_found() -> (error: TemplateError)
        ensures
            to_string_from_display_ensures::<minijinja::Error>(&error.source, error.text),
    {
        TemplateError::new(template_not_found())
    }
}

/// Everything that can go wrong with a request.
#[derive(Debug)]
pub enum InferError {
    /// The backend failed mid-stream or mid-continuation.
    GenerationError(String),
    /// The admission gate is full.
    Overloaded(tokio::sync::TryAcquireError),
    /// The request is invalid.
    ValidationError(ValidationError),
    /// The stream ended without its final event.
    IncompleteGeneration,
    /// The stream's events did not come in an order that can be followed.
    IncompleteGenerationStream,
    /// The chat template is missing or could not be rendered.
    TemplateError(TemplateError),
    /// The chat template refers to a variable that is not defined.
    MissingTemplateVariable(String),
    /// A tool grammar could not be built.
    ToolError(String),
    /// An event could not be serialized for the wire.
    StreamSerializationError(String),
    /// The energy counter could not be read.
    EnergyConsumptionError(String),
}

/// The value of an [`InferError`].
pub enum InferErrorView {
    GenerationError(Seq<char>),
    Overloaded(tokio::sync::TryAcquireError),
    ValidationError(Seq<char>),
    IncompleteGeneration,
    IncompleteGenerationStream,
    TemplateError(minijinja::Error, Seq<char>),
    MissingTemplateVariable(Seq<char>),
    ToolError(Seq<char>),
    StreamSerializationError(Seq<char>),
    EnergyConsumptionError(Seq<char>),
}

impl View for InferError {
    type V = InferErrorView;

    open spec fn view(&self) -> InferErrorView {
        match *self {
            InferError::GenerationError(m) => InferErrorView::GenerationError(m@),
            InferError::Overloaded(e) => InferErrorView::Overloaded(e),
            InferError::ValidationError(e) => InferErrorView::ValidationError(e.message@),
            InferError::IncompleteGeneration => InferErrorView::IncompleteGeneration,
            InferError::IncompleteGenerationStream => InferErrorView::IncompleteGenerationStream,
            InferError::TemplateError(e) => InferErrorView::TemplateError(e.source, e.text@),
            InferError::MissingTemplateVariable(m) => InferErrorView::MissingTemplateVariable(m@),
            InferError::ToolError(m) => InferErrorView::ToolError(m@),
            InferError::StreamSerializationError(m) => InferErrorView::StreamSerializationError(
                m@,
            ),
            InferError::EnergyConsumptionError(m) => InferErrorView::EnergyConsumptionError(m@),
        }
    }
}

impl InferErrorView {
    /// The class of the failure, as metrics and logs name it.
    pub open spec fn error_type(self) -> Seq<char> {
        match self {
            InferErrorView::GenerationError(_) => "generation"@,
            InferErrorView::Overloaded(_) => "overloaded"@,
            InferErrorView::ValidationError(_) => "validation"@,
            InferErrorView::IncompleteGeneration => "incomplete_generation"@,
            InferErrorView::IncompleteGenerationStream => "incomplete_generation_stream"@,
            InferErrorView::TemplateError(_, _) => "template_error"@,
            InferErrorView::MissingTemplateVariable(_) => "missing_template_variable"@,
            InferErrorView::ToolError(_) => "tool_error"@,
            InferErrorView::StreamSerializationError(_) => "stream_serialization_error"@,
            InferErrorView::EnergyConsumptionError(_) => "energy_consumption_error"@,
        }
    }

    /// The label under which the failure counter counts the failure, for
    /// the classes that are counted.
    pub open spec fn metric_label(self) -> Option<Seq<char>> {
        match self {
            InferErrorView::Overloaded(_) => Some("overloaded"@),
            InferErrorView::ValidationError(_) => Some("validation"@),
            InferErrorView::TemplateError(_, _) => Some("template"@),
            InferErrorView::IncompleteGeneration => Some("incomplete"@),
            _ => None,
        }
    }

    /// The failure in words: the text of its kind, followed by its cause
    /// where the kind shows one.
    pub open spec fn message(self) -> Seq<char> {
        match self {
            InferErrorView::GenerationError(m) => "Request failed during generation: "@ + m,
            InferErrorView::Overloaded(_) => "Model is overloaded"@,
            InferErrorView::ValidationError(m) => "Input validation error: "@ + m,
            InferErrorView::IncompleteGeneration => "Incomplete generation"@,
            InferErrorView::IncompleteGenerationStream => "Incomplete generation stream"@,
            InferErrorView::TemplateError(_, text) => "Template error: "@ + text,
            InferErrorView::MissingTemplateVariable(m) => "Missing template vatiable: "@ + m,
            InferErrorView::ToolError(m) => "Tool error: "@ + m,
            InferErrorView::StreamSerializationError(_) => "Stream event serialization error"@,
            InferErrorView::EnergyConsumptionError(m) => "Energy consumption error: "@ + m,
        }
    }
}

/// The status code that every failure class maps to.
pub const UNPROCESSABLE_ENTITY: usize = 422;

/// The body of an error event.
#[derive(Debug)]
pub struct APIError {
    pub message: String,
    pub http_status_code: usize,
}

/// An error event as clients of the streaming interface receive it.
#[derive(Debug)]
pub struct OpenaiErrorEvent {
    pub error: APIError,
}

impl InferError {
    /// The class of the failure.
    pub fn error_type(&self) -> (class: &'static str)
        ensures
            class@ == self@.error_type(),
    {
        match self {
            InferError::GenerationError(_) => "generation",
            InferError::Overloaded(_) => "overloaded",
            InferError::ValidationError(_) => "validation",
            InferError::IncompleteGeneration => "incomplete_generation",
            InferError::IncompleteGenerationStream => "incomplete_generation_stream",
            InferError::TemplateError(_) => "template_error",
            InferError::MissingTemplateVariable(_) => "missing_template_variable",
            InferError::ToolError(_) => "tool_error",
            InferError::StreamSerializationError(_) => "stream_serialization_error",
            InferError::EnergyConsumptionError(_) => "energy_consumption_error",
        }
    }

    /// The label under which the failure counter counts the failure, if
    /// its class is counted.
    pub fn metric_label(&self) -> (label: Option<&'static str>)
        ensures
            match label {
                Some(text) => self@.metric_label() == Some(text@),
                None => self@.metric_label() is None,
            },
    {
        match self {
            InferError::Overloaded(_) => Some("overloaded"),
            InferError::ValidationError(_) => Some("validation"),
            InferError::TemplateError(_) => Some("template"),
            InferError::IncompleteGeneration => Some("incomplete"),
            _ => None,
        }
    }

    /// The failure in words.
    pub fn message(&self) -> (text: String)
        ensures
            text@ == self@.message(),
    {
        match self {
            InferError::GenerationError(m) => String::from_str(
                "Request failed during generation: ",
            ).concat(m.as_str()),
            InferError::Overloaded(_) => String::from_str("Model is overloaded"),
            InferError::ValidationError(e) => String::from_str("Input validation error: ").concat(
                e.message.as_str(),
            ),
            InferError::IncompleteGeneration => String::from_str("Incomplete generation"),
            InferError::IncompleteGenerationStream => String::from_str(
                "Incomplete generation stream",
            ),
            InferError::TemplateError(e) => String::from_str("Template error: ").concat(
                e.text.as_str(),
            ),
            InferError::MissingTemplateVariable(m) => String::from_str(
                "Missing template vatiable: ",
            ).concat(m.as_str()),
            InferError::ToolError(m) => String::from_str("Tool error: ").concat(m.as_str()),
            InferError::StreamSerializationError(_) => String::from_str(
                "Stream event serialization error",
            ),
            InferError::EnergyConsumptionError(m) => String::from_str(
                "Energy consumption error: ",
            ).concat(m.as_str()),
        }
    }

    /// The error event for this failure: its message, under the status code
    /// that all classes share.
    pub fn into_openai_event(self) -> (event: OpenaiErrorEvent)
        ensures
            event.error.message@ == self@.message(),
            event.error.http_status_code == UNPROCESSABLE_ENTITY,
    {
        let message = self.message();
        OpenaiErrorEvent { error: APIError { message, http_status_code: UNPROCESSABLE_ENTITY } }
    }
}

} // verus!
