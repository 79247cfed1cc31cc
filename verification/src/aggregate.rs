//! The aggregator: collects the events of one stream into a single
//! response.

use crate::driver::energy_decreased;
use crate::error::{InferError, InferErrorView};
use crate::types::{
    token_lists, GeneratedText, GeneratedTextView, InferResponse, InferResponseView,
    InferStreamResponse, PrefillToken, StreamEvent, Token,
};
use tokio::time::Instant;
use vstd::prelude::*;
use vstd::string::*;

verus! {

/// The value of an [`Aggregator`].
pub struct AggregateState {
    /// Whether the request asked for the most likely tokens of each step.
    pub use_top_tokens: bool,
    /// The counter when aggregation began.
    pub energy_start: u64,
    pub prefill: Seq<PrefillToken>,
    pub tokens: Seq<Token>,
    pub top_tokens: Seq<Seq<Token>>,
    pub generated_text: Option<GeneratedTextView>,
    pub start: Option<Instant>,
    pub queued: Option<Instant>,
    pub energy_consumption: Option<u64>,
    pub token_energy_consumptions: Seq<Option<u64>>,
}

/// Whether a request with this parameter asks for the most likely tokens
/// of each step.
pub open spec fn wants_top_tokens(top_n_tokens: Option<u32>) -> bool {
    top_n_tokens matches Some(n) && n > 0
}

impl AggregateState {
    /// The state in which aggregation begins.
    pub open spec fn initial(top_n_tokens: Option<u32>, energy_start: u64) -> AggregateState {
        AggregateState {
            use_top_tokens: wants_top_tokens(top_n_tokens),
            energy_start,
            prefill: Seq::empty(),
            tokens: Seq::empty(),
            top_tokens: Seq::empty(),
            generated_text: None,
            start: None,
            queued: None,
            energy_consumption: None,
            token_energy_consumptions: Seq::empty(),
        }
    }

    /// The invariant of the aggregator: one entry per token in each of the
    /// per-step series, and the final event's parts all present or all
    /// absent.
    pub open spec fn wf(self) -> bool {
        &&& self.top_tokens.len() == self.tokens.len()
        &&& self.token_energy_consumptions.len() == self.tokens.len()
        &&& self.generated_text is Some <==> self.start is Some
        &&& self.generated_text is Some <==> self.queued is Some
    }

    /// The state after an event. A prefill is stored; an intermediate
    /// event adds its token, stamped with the event's energy, its top
    /// tokens and its energy; the final event adds the same, its token
    /// as it came, and records the generated text and the two instants.
    pub open spec fn push(self, event: StreamEvent) -> AggregateState {
        match event {
            StreamEvent::Prefill(tokens) => AggregateState { prefill: tokens, ..self },
            StreamEvent::Intermediate { token, top_tokens, energy_consumption } => AggregateState {
                tokens: self.tokens.push(Token { energy_consumption, ..token }),
                top_tokens: self.top_tokens.push(top_tokens),
                token_energy_consumptions: self.token_energy_consumptions.push(energy_consumption),
                ..self
            },
            StreamEvent::End {
                token,
                top_tokens,
                generated_text,
                start,
                queued,
                energy_consumption,
            } => AggregateState {
                tokens: self.tokens.push(token),
                top_tokens: self.top_tokens.push(top_tokens),
                generated_text: Some(generated_text),
                start: Some(start),
                queued: Some(queued),
                token_energy_consumptions: self.token_energy_consumptions.push(energy_consumption),
                ..self
            },
        }
    }

    /// The outcome of the counter reading that follows the final event:
    /// the energy consumed since aggregation began, or the failure.
    pub open spec fn record_energy(self, reading: Result<u64, Seq<char>>) -> Result<
        AggregateState,
        InferErrorView,
    > {
        match reading {
            Ok(end) => if end < self.energy_start {
                Err(InferErrorView::GenerationError(energy_decreased()))
            } else {
                Ok(
                    AggregateState {
                        energy_consumption: Some((end - self.energy_start) as u64),
                        ..self
                    },
                )
            },
            Err(cause) => Err(InferErrorView::GenerationError(cause)),
        }
    }

    /// The response once the stream has ended: complete if the final event
    /// was seen, with the top tokens only if the request asked for them.
    pub open spec fn finish(self, input_length: u32) -> Result<InferResponseView, InferErrorView> {
        if self.generated_text is Some {
            Ok(
                InferResponseView {
                    input_length,
                    prefill: self.prefill,
                    tokens: self.tokens,
                    generated_text: self.generated_text->0,
                    queued: self.queued->0,
                    start: self.start->0,
                    top_tokens: if self.use_top_tokens {
                        self.top_tokens
                    } else {
                        Seq::empty()
                    },
                    energy_consumption: self.energy_consumption,
                    token_energy_consumptions: self.token_energy_consumptions,
                },
            )
        } else {
            Err(InferErrorView::IncompleteGeneration)
        }
    }
}

/// Collects the events of one stream.
#[derive(Debug)]
pub struct Aggregator {
    use_top_tokens: bool,
    energy_start: u64,
    prefill: Vec<PrefillToken>,
    tokens: Vec<Token>,
    top_tokens: Vec<Vec<Token>>,
    generated_text: Option<GeneratedText>,
    start: Option<Instant>,
    queued: Option<Instant>,
    energy_consumption: Option<u64>,
    token_energy_consumptions: Vec<Option<u64>>,
}

impl View for Aggregator {
    type V = AggregateState;

    closed spec fn view(&self) -> AggregateState {
        AggregateState {
            use_top_tokens: self.use_top_tokens,
            energy_start: self.energy_start,
            prefill: self.prefill@,
            tokens: self.tokens@,
            top_tokens: token_lists(self.top_tokens@),
            generated_text: match self.generated_text {
                Some(text) => Some(text@),
                None => None,
            },
            start: self.start,
            queued: self.queued,
            energy_consumption: self.energy_consumption,
            token_energy_consumptions: self.token_energy_consumptions@,
        }
    }
}

impl Aggregator {
    /// An aggregator for a request with this `top_n_tokens`, the counter
    /// standing at `energy_start`.
    pub fn new(top_n_tokens: Option<u32>, energy_start: u64) -> (aggregator: Aggregator)
        ensures
            aggregator@ == AggregateState::initial(top_n_tokens, energy_start),
            aggregator@.wf(),
    {
        let use_top_tokens = match top_n_tokens {
            Some(n) => n > 0,
            None => false,
        };
        let aggregator = Aggregator {
            use_top_tokens,
            energy_start,
            prefill: Vec::new(),
            tokens: Vec::new(),
            top_tokens: Vec::new(),
            generated_text: None,
            start: None,
            queued: None,
            energy_consumption: None,
            token_energy_consumptions: Vec::new(),
        };
        assert(aggregator@.top_tokens =~= Seq::empty());
        aggregator
    }

    /// Takes the next item of the stream. An error is handed back as it
    /// came and changes nothing. An event is collected; the answer says
    /// whether it was the final event, after which the caller reads the
    /// counter and calls [`Aggregator::record_energy`].
    pub fn push(&mut self, item: Result<InferStreamResponse, InferError>) -> (outcome: Result<
        bool,
        InferError,
    >)
        requires
            old(self)@.wf(),
        ensures
            final(self)@.wf(),
            match item {
                Ok(event) => outcome == Ok::<bool, InferError>(event@ is End) && final(self)@
                    == old(self)@.push(event@),
                Err(error) => outcome == Err::<bool, InferError>(error) && final(self)@ == old(
                    self,
                )@,
            },
    {
        let ghost lists = self.top_tokens@;
        match item {
            Err(error) => Err(error),
            Ok(InferStreamResponse::Prefill(tokens)) => {
                self.prefill = tokens;
                Ok(false)
            },
            Ok(InferStreamResponse::Intermediate { token, top_tokens, energy_consumption }) => {
                let mut token = token;
                token.energy_consumption = energy_consumption;
                self.tokens.push(token);
                self.top_tokens.push(top_tokens);
                self.token_energy_consumptions.push(energy_consumption);
                assert(token_lists(lists.push(top_tokens)) =~= token_lists(lists).push(
                    top_tokens@,
                ));
                Ok(false)
            },
            Ok(
                InferStreamResponse::End {
                    token,
                    top_tokens,
                    generated_text,
                    start,
                    queued,
                    energy_consumption,
                },
            ) => {
                self.tokens.push(token);
                self.top_tokens.push(top_tokens);
                self.generated_text = Some(generated_text);
                self.start = Some(start);
                self.queued = Some(queued);
                self.token_energy_consumptions.push(energy_consumption);
                assert(token_lists(lists.push(top_tokens)) =~= token_lists(lists).push(
                    top_tokens@,
                ));
                Ok(true)
            },
        }
    }

    /// Takes the counter reading that follows the final event. A reading
    /// that failed, or one below the reading at the start, is a
    /// generation error and changes nothing.
    pub fn record_energy(&mut self, reading: Result<u64, String>) -> (outcome: Result<
        (),
        InferError,
    >)
        requires
            old(self)@.wf(),
        ensures
            final(self)@.wf(),
            match old(self)@.record_energy(
                match reading {
                    Ok(end) => Ok(end),
                    Err(cause) => Err(cause@),
                },
            ) {
                Ok(state) => outcome is Ok && final(self)@ == state,
                Err(error) => outcome matches Err(e) && e@ == error && final(self)@ == old(self)@,
            },
    {
        match reading {
            Ok(end) => {
                if end < self.energy_start {
                    Err(InferError::GenerationError(String::from_str("energy counter decreased")))
                } else {
                    self.energy_consumption = Some(end - self.energy_start);
                    Ok(())
                }
            },
            Err(cause) => Err(InferError::GenerationError(cause)),
        }
    }

    /// The response once the stream has ended, for a request whose input
    /// validation counted as `input_length` tokens. Without a final event
    /// the generation is incomplete.
    pub fn finish(self, input_length: u32) -> (outcome: Result<InferResponse, InferError>)
        requires
            self@.wf(),
        ensures
            match self@.finish(input_length) {
                Ok(response) => outcome matches Ok(r) && r@ == response,
                Err(error) => outcome matches Err(e) && e@ == error,
            },
            outcome matches Ok(r) ==> {
                &&& r@.token_energy_consumptions.len() == r@.tokens.len()
                &&& self@.use_top_tokens ==> r@.top_tokens.len() == r@.tokens.len()
                &&& !self@.use_top_tokens ==> r@.top_tokens.len() == 0
            },
    {
        let Aggregator {
            use_top_tokens,
            energy_start: _,
            prefill,
            tokens,
            top_tokens,
            generated_text,
            start,
            queued,
            energy_consumption,
            token_energy_consumptions,
        } = self;
        match generated_text {
            Some(generated_text) => {
                let top_tokens = if use_top_tokens {
                    top_tokens
                } else {
                    Vec::new()
                };
                assert(!use_top_tokens ==> token_lists(top_tokens@) =~= Seq::empty());
                Ok(
                    InferResponse {
                        input_length,
                        prefill,
                        tokens,
                        generated_text,
                        queued: queued.unwrap(),
                        start: start.unwrap(),
                        top_tokens,
                        energy_consumption,
                        token_energy_consumptions,
                    },
                )
            },
            None => Err(InferError::IncompleteGeneration),
        }
    }
}

} // verus!
