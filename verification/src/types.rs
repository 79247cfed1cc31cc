//! The data that flows between the validator, the backend, the stream driver
//! and the caller, and the mathematical value of each.

use tokio::time::Instant;
use vstd::prelude::*;

verus! {

/// `tokio::time::Instant`: an instant of the runtime's clock. The library
/// never looks inside one; it only carries the instants that the backend
/// reports from one event to another.
#[verifier::external_type_specification]
#[verifier::external_body]
pub struct ExInstant(tokio::time::Instant);

/// Why a generation stopped.
#[derive(Clone, Copy, Debug, PartialEq, Eq, Structural)]
pub enum FinishReason {
    Length,
    EosToken,
    StopSequence,
    Cancelled,
}

/// A token of the prompt, echoed back once before any generated token.
#[derive(Debug)]
pub struct PrefillToken {
    pub id: u32,
    pub text: String,
    /// Bit pattern of the token's log-probability.
    pub logprob_bits: u32,
}

/// A generated token.
#[derive(Debug)]
pub struct Token {
    pub id: u32,
    pub text: String,
    /// Bit pattern of the token's log-probability.
    pub logprob_bits: u32,
    pub special: bool,
    /// Millijoules consumed by the request up to the step of this token.
    pub energy_consumption: Option<u64>,
}

/// The aggregated textual result of a generation.
#[derive(Debug)]
pub struct GeneratedText {
    pub text: String,
    pub generated_tokens: u32,
    pub finish_reason: FinishReason,
    pub seed: Option<u64>,
}

/// The value of a [`GeneratedText`].
pub struct GeneratedTextView {
    pub text: Seq<char>,
    pub generated_tokens: u32,
    pub finish_reason: FinishReason,
    pub seed: Option<u64>,
}

impl View for GeneratedText {
    type V = GeneratedTextView;

    open spec fn view(&self) -> GeneratedTextView {
        GeneratedTextView {
            text: self.text@,
            generated_tokens: self.generated_tokens,
            finish_reason: self.finish_reason,
            seed: self.seed,
        }
    }
}

/// One event of a generation stream.
#[derive(Debug)]
pub enum InferStreamResponse {
    /// Optional first message.
    Prefill(Vec<PrefillToken>),
    /// Intermediate messages.
    Intermediate { token: Token, top_tokens: Vec<Token>, energy_consumption: Option<u64> },
    /// Last message.
    End {
        token: Token,
        top_tokens: Vec<Token>,
        generated_text: GeneratedText,
        start: Instant,
        queued: Instant,
        energy_consumption: Option<u64>,
    },
}

/// The value of an [`InferStreamResponse`].
pub enum StreamEvent {
    Prefill(Seq<PrefillToken>),
    Intermediate { token: Token, top_tokens: Seq<Token>, energy_consumption: Option<u64> },
    End {
        token: Token,
        top_tokens: Seq<Token>,
        generated_text: GeneratedTextView,
        start: Instant,
        queued: Instant,
        energy_consumption: Option<u64>,
    },
}

impl StreamEvent {
    /// Whether the event carries a generated token.
    pub open spec fn has_token(self) -> bool {
        !(self is Prefill)
    }

    /// The cumulative energy that the event reports, an absent value read as
    /// zero. A prefill reports none.
    pub open spec fn energy(self) -> nat {
        match self {
            StreamEvent::Prefill(_) => 0,
            StreamEvent::Intermediate { energy_consumption, .. } => match energy_consumption {
                Some(e) => e as nat,
                None => 0,
            },
            StreamEvent::End { energy_consumption, .. } => match energy_consumption {
                Some(e) => e as nat,
                None => 0,
            },
        }
    }
}

impl View for InferStreamResponse {
    type V = StreamEvent;

    open spec fn view(&self) -> StreamEvent {
        match *self {
            InferStreamResponse::Prefill(tokens) => StreamEvent::Prefill(tokens@),
            InferStreamResponse::Intermediate { token, top_tokens, energy_consumption } => {
                StreamEvent::Intermediate { token, top_tokens: top_tokens@, energy_consumption }
            },
            InferStreamResponse::End {
                token,
                top_tokens,
                generated_text,
                start,
                queued,
                energy_consumption,
            } => StreamEvent::End {
                token,
                top_tokens: top_tokens@,
                generated_text: generated_text@,
                start,
                queued,
                energy_consumption,
            },
        }
    }
}

/// The sampling parameters of a raw request that the core reads or writes.
#[derive(Clone, Copy, Debug)]
pub struct GenerateParameters {
    pub seed: Option<u64>,
    pub top_n_tokens: Option<u32>,
    pub truncate: Option<usize>,
}

/// A raw generation request.
#[derive(Debug)]
pub struct GenerateRequest {
    pub inputs: String,
    pub add_special_tokens: bool,
    pub parameters: GenerateParameters,
}

/// The value of a [`GenerateRequest`].
pub struct GenerateRequestView {
    pub inputs: Seq<char>,
    pub add_special_tokens: bool,
    pub parameters: GenerateParameters,
}

impl View for GenerateRequest {
    type V = GenerateRequestView;

    open spec fn view(&self) -> GenerateRequestView {
        GenerateRequestView {
            inputs: self.inputs@,
            add_special_tokens: self.add_special_tokens,
            parameters: self.parameters,
        }
    }
}

impl GenerateRequest {
    /// A copy of the request.
    pub fn duplicate(&self) -> (copy: GenerateRequest)
        ensures
            copy@ == self@,
    {
        GenerateRequest {
            inputs: self.inputs.clone(),
            add_special_tokens: self.add_special_tokens,
            parameters: self.parameters,
        }
    }
}

/// The sampling parameters of a validated request.
#[derive(Clone, Copy, Debug)]
pub struct ValidParameters {
    /// The concrete seed that validation settled on.
    pub seed: u64,
    pub top_n_tokens: u32,
}

/// The stopping parameters of a validated request.
#[derive(Clone, Copy, Debug)]
pub struct ValidStoppingParameters {
    /// The caller's budget of new tokens over the whole generation.
    pub max_total_new_tokens: u32,
}

/// The output of validation, as far as the core reads it.
#[derive(Debug)]
pub struct ValidGenerateRequest {
    pub inputs: String,
    pub input_length: u32,
    pub add_special_tokens: bool,
    pub truncate: u32,
    pub parameters: ValidParameters,
    pub stopping_parameters: ValidStoppingParameters,
}

/// The value of a [`ValidGenerateRequest`].
pub struct ValidGenerateRequestView {
    pub inputs: Seq<char>,
    pub input_length: u32,
    pub add_special_tokens: bool,
    pub truncate: u32,
    pub parameters: ValidParameters,
    pub stopping_parameters: ValidStoppingParameters,
}

impl View for ValidGenerateRequest {
    type V = ValidGenerateRequestView;

    open spec fn view(&self) -> ValidGenerateRequestView {
        ValidGenerateRequestView {
            inputs: self.inputs@,
            input_length: self.input_length,
            add_special_tokens: self.add_special_tokens,
            truncate: self.truncate,
            parameters: self.parameters,
            stopping_parameters: self.stopping_parameters,
        }
    }
}

/// The aggregated form of a finished generation.
#[derive(Debug)]
pub struct InferResponse {
    /// Length of the input as validation counted it.
    pub input_length: u32,
    pub prefill: Vec<PrefillToken>,
    /// The generated tokens, the final one included.
    pub tokens: Vec<Token>,
    pub generated_text: GeneratedText,
    pub queued: Instant,
    pub start: Instant,
    /// Per step, the most likely tokens; empty unless the request asked for them.
    pub top_tokens: Vec<Vec<Token>>,
    /// Millijoules consumed over the whole request.
    pub energy_consumption: Option<u64>,
    /// Per step, the energy that the step's event reported.
    pub token_energy_consumptions: Vec<Option<u64>>,
}

/// The value of an [`InferResponse`].
pub struct InferResponseView {
    pub input_length: u32,
    pub prefill: Seq<PrefillToken>,
    pub tokens: Seq<Token>,
    pub generated_text: GeneratedTextView,
    pub queued: Instant,
    pub start: Instant,
    pub top_tokens: Seq<Seq<Token>>,
    pub energy_consumption: Option<u64>,
    pub token_energy_consumptions: Seq<Option<u64>>,
}

/// The value of a list of token lists.
pub open spec fn token_lists(lists: Seq<Vec<Token>>) -> Seq<Seq<Token>> {
    Seq::new(lists.len(), |i: int| lists[i]@)
}

impl View for InferResponse {
    type V = InferResponseView;

    open spec fn view(&self) -> InferResponseView {
        InferResponseView {
            input_length: self.input_length,
            prefill: self.prefill@,
            tokens: self.tokens@,
            generated_text: self.generated_text@,
            queued: self.queued,
            start: self.start,
            top_tokens: token_lists(self.top_tokens@),
            energy_consumption: self.energy_consumption,
            token_energy_consumptions: self.token_energy_consumptions@,
        }
    }
}

} // verus!
