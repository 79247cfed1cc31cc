//! The stream driver: the state machine that turns the events of one or more
//! backend schedules into the single stream the caller sees.
//!
//! The driver performs no outside work itself. Each [`StreamDriver::step`]
//! takes the outcome of the work that the previous step asked for and
//! answers with the next thing to do: yield an event, read the energy
//! counter, validate the extended request, schedule it, or stop.

use crate::error::{InferError, InferErrorView, ValidationError};
use crate::health::{latch, HealthEvent, HealthTracker};
use crate::types::{
    FinishReason, GenerateParameters, GenerateRequest, GenerateRequestView, GeneratedText,
    GeneratedTextView, InferStreamResponse, StreamEvent, Token, ValidGenerateRequest,
    ValidGenerateRequestView,
};
use tokio::time::Instant;
use vstd::prelude::*;
use vstd::string::*;

verus! {

/// What the driver is waiting for.
#[derive(Debug)]
pub enum Phase {
    /// The next item of the backend's stream.
    Running,
    /// A counter reading for the token of an intermediate event.
    StepEnergy { token: Token, top_tokens: Vec<Token> },
    /// The outcome of validating the extended request.
    Validating { token: Token, top_tokens: Vec<Token> },
    /// The outcome of scheduling the validated request.
    Scheduling { token: Token, top_tokens: Vec<Token> },
    /// The counter reading that closes the request.
    FinalEnergy { token: Token, top_tokens: Vec<Token> },
    /// Nothing: the stream has ended.
    Terminal,
}

/// The value of a [`Phase`].
pub enum PhaseView {
    Running,
    StepEnergy { token: Token, top_tokens: Seq<Token> },
    Validating { token: Token, top_tokens: Seq<Token> },
    Scheduling { token: Token, top_tokens: Seq<Token> },
    FinalEnergy { token: Token, top_tokens: Seq<Token> },
    Terminal,
}

impl View for Phase {
    type V = PhaseView;

    open spec fn view(&self) -> PhaseView {
        match *self {
            Phase::Running => PhaseView::Running,
            Phase::StepEnergy { token, top_tokens } => PhaseView::StepEnergy {
                token,
                top_tokens: top_tokens@,
            },
            Phase::Validating { token, top_tokens } => PhaseView::Validating {
                token,
                top_tokens: top_tokens@,
            },
            Phase::Scheduling { token, top_tokens } => PhaseView::Scheduling {
                token,
                top_tokens: top_tokens@,
            },
            Phase::FinalEnergy { token, top_tokens } => PhaseView::FinalEnergy {
                token,
                top_tokens: top_tokens@,
            },
            Phase::Terminal => PhaseView::Terminal,
        }
    }
}

/// The outcome of the work that the driver asked for.
#[derive(Debug)]
pub enum DriverInput {
    /// The next item of the backend's stream.
    Backend(Result<InferStreamResponse, InferError>),
    /// The backend's stream has ended.
    Closed,
    /// A reading of the energy counter in millijoules, or why it failed.
    Energy(Result<u64, String>),
    /// The outcome of validating the extended request.
    Validated(Result<ValidGenerateRequest, ValidationError>),
    /// The outcome of scheduling the validated request. On success the
    /// caller has replaced the backend's stream with the new one.
    Scheduled(Result<(), InferError>),
}

/// The value of a [`DriverInput`].
pub enum DriverInputView {
    Backend(Result<StreamEvent, InferErrorView>),
    Closed,
    Energy(Result<u64, Seq<char>>),
    Validated(Result<ValidGenerateRequestView, Seq<char>>),
    Scheduled(Result<(), InferErrorView>),
}

impl View for DriverInput {
    type V = DriverInputView;

    open spec fn view(&self) -> DriverInputView {
        match *self {
            DriverInput::Backend(Ok(event)) => DriverInputView::Backend(Ok(event@)),
            DriverInput::Backend(Err(error)) => DriverInputView::Backend(Err(error@)),
            DriverInput::Closed => DriverInputView::Closed,
            DriverInput::Energy(Ok(reading)) => DriverInputView::Energy(Ok(reading)),
            DriverInput::Energy(Err(cause)) => DriverInputView::Energy(Err(cause@)),
            DriverInput::Validated(Ok(valid)) => DriverInputView::Validated(Ok(valid@)),
            DriverInput::Validated(Err(error)) => DriverInputView::Validated(Err(error.message@)),
            DriverInput::Scheduled(Ok(())) => DriverInputView::Scheduled(Ok(())),
            DriverInput::Scheduled(Err(error)) => DriverInputView::Scheduled(Err(error@)),
        }
    }
}

/// What the caller of the driver does next.
#[derive(Debug)]
pub enum DriverAction {
    /// Yield the event, then hand over the next item of the backend's stream.
    Emit(InferStreamResponse),
    /// Read the energy counter and hand over the reading.
    ReadEnergy,
    /// Validate the request and hand over the outcome.
    Validate(GenerateRequest),
    /// Schedule the request on the backend and hand over the outcome.
    Schedule(ValidGenerateRequest),
    /// Yield the event and end the stream.
    Finish(InferStreamResponse),
    /// Yield the error and end the stream.
    Fail(InferError),
    /// End the stream without a further item.
    Stop,
}

/// The value of a [`DriverAction`].
pub enum DriverActionView {
    Emit(StreamEvent),
    ReadEnergy,
    Validate(GenerateRequestView),
    Schedule(ValidGenerateRequestView),
    Finish(StreamEvent),
    Fail(InferErrorView),
    Stop,
}

impl View for DriverAction {
    type V = DriverActionView;

    open spec fn view(&self) -> DriverActionView {
        match *self {
            DriverAction::Emit(event) => DriverActionView::Emit(event@),
            DriverAction::ReadEnergy => DriverActionView::ReadEnergy,
            DriverAction::Validate(request) => DriverActionView::Validate(request@),
            DriverAction::Schedule(valid) => DriverActionView::Schedule(valid@),
            DriverAction::Finish(event) => DriverActionView::Finish(event@),
            DriverAction::Fail(error) => DriverActionView::Fail(error@),
            DriverAction::Stop => DriverActionView::Stop,
        }
    }
}

/// The value of a [`StreamDriver`].
pub struct DriverState {
    pub phase: PhaseView,
    /// The working request: the caller's, with the seed made concrete and
    /// the text of every continued segment appended to its input.
    pub request: GenerateRequestView,
    pub max_total_new_tokens: u32,
    /// Token-bearing backend events taken so far.
    pub total_generated_tokens: u32,
    /// Start of inference, as the first final event of a segment reported it.
    pub first_start: Option<Instant>,
    /// Time of queueing, as the first final event of a segment reported it.
    pub first_queued: Option<Instant>,
    /// The generated text over all segments that have ended.
    pub accumulated: Option<GeneratedTextView>,
    /// The counter when the request began.
    pub energy_start: u64,
    /// The counter at the latest token boundary.
    pub energy_last: u64,
    /// The latest reading less the first, once a reading has been taken.
    pub total_energy: Option<u64>,
}

/// One step of the driver: where it goes and what it asks for.
pub struct Transition {
    pub state: DriverState,
    pub action: DriverActionView,
}

/// The health latch after a step that answered with `action`: an error that
/// ends the stream clears it, every other step leaves it as it was.
pub open spec fn health_after(before: bool, action: DriverActionView) -> bool {
    if action is Fail {
        latch(before, HealthEvent::StreamError)
    } else {
        before
    }
}

/// The cause given when the energy counter reads less than it did before.
pub open spec fn energy_decreased() -> Seq<char> {
    "energy counter decreased"@
}

/// The cause given when the backend delivers more tokens than can be counted.
pub open spec fn too_many_tokens() -> Seq<char> {
    "generated token count out of range"@
}

/// The text generated over all segments once a further segment has ended
/// with `segment`, the running count being `total`.
pub open spec fn merge_text(
    accumulated: Option<GeneratedTextView>,
    segment: GeneratedTextView,
    total: u32,
) -> GeneratedTextView {
    match accumulated {
        Some(all) => GeneratedTextView {
            text: all.text + segment.text,
            generated_tokens: total,
            finish_reason: segment.finish_reason,
            seed: all.seed,
        },
        None => segment,
    }
}

/// Whether a segment that ended for `reason` is continued: it stopped for
/// length and the budget is not used up.
pub open spec fn continues(reason: FinishReason, total: u32, max_total_new_tokens: u32) -> bool {
    reason == FinishReason::Length && total < max_total_new_tokens
}

impl DriverState {
    /// The state in which a request starts: the seed that validation
    /// settled on is written back to the working request, nothing has been
    /// generated, and the counter stands at its first reading.
    pub open spec fn initial(
        request: GenerateRequestView,
        valid: ValidGenerateRequestView,
        energy_start: u64,
    ) -> DriverState {
        DriverState {
            phase: PhaseView::Running,
            request: GenerateRequestView {
                parameters: GenerateParameters {
                    seed: Some(valid.parameters.seed),
                    ..request.parameters
                },
                ..request
            },
            max_total_new_tokens: valid.stopping_parameters.max_total_new_tokens,
            total_generated_tokens: 0,
            first_start: None,
            first_queued: None,
            accumulated: None,
            energy_start,
            energy_last: energy_start,
            total_energy: None,
        }
    }

    /// The invariant of the driver.
    pub open spec fn wf(self) -> bool {
        &&& self.energy_start <= self.energy_last
        &&& match self.total_energy {
            Some(total) => total == self.energy_last - self.energy_start,
            None => self.energy_last == self.energy_start,
        }
        &&& self.request.parameters.seed is Some
        &&& (self.phase is Validating || self.phase is Scheduling || self.phase is FinalEnergy) ==> {
            &&& self.accumulated is Some
            &&& self.first_start is Some
            &&& self.first_queued is Some
        }
    }

    /// The step that ends the stream with an error.
    pub open spec fn fail(self, error: InferErrorView) -> Transition {
        Transition {
            state: DriverState { phase: PhaseView::Terminal, ..self },
            action: DriverActionView::Fail(error),
        }
    }

    /// The step that hands a token to the counter reading it waits for.
    pub open spec fn on_intermediate(
        self,
        token: Token,
        top_tokens: Seq<Token>,
    ) -> Transition {
        if self.total_generated_tokens == u32::MAX {
            self.fail(InferErrorView::GenerationError(too_many_tokens()))
        } else {
            Transition {
                state: DriverState {
                    phase: PhaseView::StepEnergy { token, top_tokens },
                    total_generated_tokens: (self.total_generated_tokens + 1) as u32,
                    ..self
                },
                action: DriverActionView::ReadEnergy,
            }
        }
    }

    /// The step on the final event of a segment: the segment's text joins
    /// what was generated before, and the segment is either continued or
    /// the request is closed.
    pub open spec fn on_end(
        self,
        token: Token,
        top_tokens: Seq<Token>,
        segment: GeneratedTextView,
        start: Instant,
        queued: Instant,
    ) -> Transition {
        if self.total_generated_tokens == u32::MAX {
            self.fail(InferErrorView::GenerationError(too_many_tokens()))
        } else {
            let total = (self.total_generated_tokens + 1) as u32;
            let counted = DriverState {
                total_generated_tokens: total,
                first_start: Some(
                    match self.first_start {
                        Some(first) => first,
                        None => start,
                    },
                ),
                first_queued: Some(
                    match self.first_queued {
                        Some(first) => first,
                        None => queued,
                    },
                ),
                accumulated: Some(merge_text(self.accumulated, segment, total)),
                ..self
            };
            if continues(segment.finish_reason, total, self.max_total_new_tokens) {
                let request = GenerateRequestView {
                    inputs: self.request.inputs + segment.text,
                    ..self.request
                };
                Transition {
                    state: DriverState {
                        phase: PhaseView::Validating { token, top_tokens },
                        request,
                        ..counted
                    },
                        action: DriverActionView::Validate(request),
                }
            } else {
                Transition {
                    state: DriverState {
                        phase: PhaseView::FinalEnergy { token, top_tokens },
                        ..counted
                    },
                        action: DriverActionView::ReadEnergy,
                }
            }
        }
    }

    /// The step on a reading taken for an intermediate token: the event is
    /// yielded with the energy consumed since the request began.
    pub open spec fn on_step_energy(
        self,
        token: Token,
        top_tokens: Seq<Token>,
        reading: Result<u64, Seq<char>>,
    ) -> Transition {
        match reading {
            Ok(now) => if now < self.energy_last {
                self.fail(InferErrorView::EnergyConsumptionError(energy_decreased()))
            } else {
                let total = (now - self.energy_start) as u64;
                Transition {
                    state: DriverState {
                        phase: PhaseView::Running,
                        energy_last: now,
                        total_energy: Some(total),
                        ..self
                    },
                        action: DriverActionView::Emit(
                        StreamEvent::Intermediate {
                            token,
                            top_tokens,
                            energy_consumption: Some(total),
                        },
                    ),
                }
            },
            Err(cause) => self.fail(InferErrorView::EnergyConsumptionError(cause)),
        }
    }

    /// The step that closes the request once continuing is over: the driver
    /// asks for the last reading.
    pub open spec fn close(self, token: Token, top_tokens: Seq<Token>) -> Transition {
        Transition {
            state: DriverState { phase: PhaseView::FinalEnergy { token, top_tokens }, ..self },
            action: DriverActionView::ReadEnergy,
        }
    }

    /// The step on the last reading: the single final event, with the text
    /// of all segments, the instants of the first, and the energy consumed
    /// since the request began.
    pub open spec fn on_final_energy(
        self,
        token: Token,
        top_tokens: Seq<Token>,
        reading: Result<u64, Seq<char>>,
    ) -> Transition {
        match reading {
            Ok(end) => if end < self.energy_last {
                self.fail(InferErrorView::GenerationError(energy_decreased()))
            } else {
                let total = (end - self.energy_start) as u64;
                Transition {
                    state: DriverState {
                        phase: PhaseView::Terminal,
                        accumulated: None,
                        energy_last: end,
                        total_energy: Some(total),
                        ..self
                    },
                        action: DriverActionView::Finish(
                        StreamEvent::End {
                            token,
                            top_tokens,
                            generated_text: self.accumulated->0,
                            start: self.first_start->0,
                            queued: self.first_queued->0,
                            energy_consumption: Some(total),
                        },
                    ),
                }
            },
            Err(cause) => self.fail(InferErrorView::GenerationError(cause)),
        }
    }

    /// The step of the driver in state `self` on `input`.
    ///
    /// An input that the phase does not wait for ends the stream with
    /// `IncompleteGenerationStream`; after the end every input is answered
    /// with `Stop`.
    pub open spec fn step(self, input: DriverInputView) -> Transition {
        let out_of_order = self.fail(InferErrorView::IncompleteGenerationStream);
        match self.phase {
            PhaseView::Terminal => Transition {
                state: self,
                action: DriverActionView::Stop,
            },
            PhaseView::Running => match input {
                DriverInputView::Backend(Ok(StreamEvent::Prefill(tokens))) => Transition {
                    state: self,
                        action: DriverActionView::Emit(StreamEvent::Prefill(tokens)),
                },
                DriverInputView::Backend(Ok(StreamEvent::Intermediate { token, top_tokens, .. })) => {
                    self.on_intermediate(token, top_tokens)
                },
                DriverInputView::Backend(
                    Ok(StreamEvent::End { token, top_tokens, generated_text, start, queued, .. }),
                ) => self.on_end(token, top_tokens, generated_text, start, queued),
                DriverInputView::Backend(Err(error)) => self.fail(error),
                DriverInputView::Closed => Transition {
                    state: DriverState { phase: PhaseView::Terminal, ..self },
                        action: DriverActionView::Stop,
                },
                _ => out_of_order,
            },
            PhaseView::StepEnergy { token, top_tokens } => match input {
                DriverInputView::Energy(reading) => self.on_step_energy(
                        token,
                    top_tokens,
                    reading,
                ),
                _ => out_of_order,
            },
            PhaseView::Validating { token, top_tokens } => match input {
                DriverInputView::Validated(Ok(valid)) => Transition {
                    state: DriverState {
                        phase: PhaseView::Scheduling { token, top_tokens },
                        ..self
                    },
                        action: DriverActionView::Schedule(valid),
                },
                DriverInputView::Validated(Err(_)) => self.close(token, top_tokens),
                _ => out_of_order,
            },
            PhaseView::Scheduling { token, top_tokens } => match input {
                DriverInputView::Scheduled(Ok(())) => Transition {
                    state: DriverState { phase: PhaseView::Running, ..self },
                        action: DriverActionView::Emit(
                        StreamEvent::Intermediate {
                            token,
                            top_tokens,
                            energy_consumption: self.total_energy,
                        },
                    ),
                },
                DriverInputView::Scheduled(Err(_)) => self.close(token, top_tokens),
                _ => out_of_order,
            },
            PhaseView::FinalEnergy { token, top_tokens } => match input {
                DriverInputView::Energy(reading) => self.on_final_energy(
                        token,
                    top_tokens,
                    reading,
                ),
                _ => out_of_order,
            },
        }
    }
}

/// The state machine that drives one generation.
#[derive(Debug)]
pub struct StreamDriver {
    phase: Phase,
    request: GenerateRequest,
    max_total_new_tokens: u32,
    total_generated_tokens: u32,
    first_start: Option<Instant>,
    first_queued: Option<Instant>,
    accumulated: Option<GeneratedText>,
    energy_start: u64,
    energy_last: u64,
    total_energy: Option<u64>,
}

impl View for StreamDriver {
    type V = DriverState;

    closed spec fn view(&self) -> DriverState {
        DriverState {
            phase: self.phase@,
            request: self.request@,
            max_total_new_tokens: self.max_total_new_tokens,
            total_generated_tokens: self.total_generated_tokens,
            first_start: self.first_start,
            first_queued: self.first_queued,
            accumulated: match self.accumulated {
                Some(text) => Some(text@),
                None => None,
            },
            energy_start: self.energy_start,
            energy_last: self.energy_last,
            total_energy: self.total_energy,
        }
    }
}

impl StreamDriver {
    /// The driver for a request that validation has accepted and whose
    /// first counter reading is `energy_start`.
    pub fn new(request: GenerateRequest, valid: &ValidGenerateRequest, energy_start: u64) -> (driver:
        StreamDriver)
        ensures
            driver@ == DriverState::initial(request@, valid@, energy_start),
            driver@.wf(),
    {
        let mut request = request;
        request.parameters.seed = Some(valid.parameters.seed);
        StreamDriver {
            phase: Phase::Running,
            request,
            max_total_new_tokens: valid.stopping_parameters.max_total_new_tokens,
            total_generated_tokens: 0,
            first_start: None,
            first_queued: None,
            accumulated: None,
            energy_start,
            energy_last: energy_start,
            total_energy: None,
        }
    }

    /// Whether the stream has ended.
    pub fn is_terminal(&self) -> (ended: bool)
        ensures
            ended == (self@.phase is Terminal),
    {
        match self.phase {
            Phase::Terminal => true,
            _ => false,
        }
    }

    /// Token-bearing backend events taken so far.
    pub fn total_generated_tokens(&self) -> (total: u32)
        ensures
            total == self@.total_generated_tokens,
    {
        self.total_generated_tokens
    }

    /// Ends the stream with `error` and clears the health latch.
    fn fail(&mut self, health: &mut HealthTracker, error: InferError) -> (action: DriverAction)
        ensures
            (Transition { state: final(self)@, action: action@ }) == old(self)@.fail(error@),
            final(health)@ == latch(old(health)@, HealthEvent::StreamError),
    {
        self.phase = Phase::Terminal;
        health.mark_unhealthy();
        DriverAction::Fail(error)
    }

    /// Takes the final event of a segment.
    fn on_end(
        &mut self,
        health: &mut HealthTracker,
        token: Token,
        top_tokens: Vec<Token>,
        generated_text: GeneratedText,
        start: Instant,
        queued: Instant,
    ) -> (action: DriverAction)
        requires
            old(self)@.wf(),
        ensures
            final(self)@.wf(),
            (Transition { state: final(self)@, action: action@ }) == old(self)@.on_end(
                token,
                top_tokens@,
                generated_text@,
                start,
                queued,
            ),
            final(health)@ == health_after(old(health)@, action@),
    {
        if self.total_generated_tokens == u32::MAX {
            return self.fail(
                health,
                InferError::GenerationError(String::from_str("generated token count out of range")),
            );
        }
        self.total_generated_tokens = self.total_generated_tokens + 1;
        if self.first_start.is_none() {
            self.first_start = Some(start);
        }
        if self.first_queued.is_none() {
            self.first_queued = Some(queued);
        }
        let continuing = match generated_text.finish_reason {
            FinishReason::Length => self.total_generated_tokens < self.max_total_new_tokens,
            _ => false,
        };
        if continuing {
            self.request.inputs.append(generated_text.text.as_str());
        }
        let merged = match self.accumulated.take() {
            Some(all) => {
                let mut all = all;
                all.text.append(generated_text.text.as_str());
                all.generated_tokens = self.total_generated_tokens;
                all.finish_reason = generated_text.finish_reason;
                all
            },
            None => generated_text,
        };
        self.accumulated = Some(merged);
        if continuing {
            self.phase = Phase::Validating { token, top_tokens };
            DriverAction::Validate(self.request.duplicate())
        } else {
            self.phase = Phase::FinalEnergy { token, top_tokens };
            DriverAction::ReadEnergy
        }
    }

    /// Takes the last reading and yields the final event.
    fn on_final_energy(
        &mut self,
        health: &mut HealthTracker,
        token: Token,
        top_tokens: Vec<Token>,
        reading: Result<u64, String>,
    ) -> (action: DriverAction)
        requires
            old(self)@.wf(),
            old(self)@.accumulated is Some,
            old(self)@.first_start is Some,
            old(self)@.first_queued is Some,
        ensures
            final(self)@.wf(),
            final(health)@ == health_after(old(health)@, action@),
            (Transition { state: final(self)@, action: action@ }) == old(self)@.on_final_energy(
                token,
                top_tokens@,
                match reading {
                    Ok(end) => Ok(end),
                    Err(cause) => Err(cause@),
                },
            ),
    {
        match reading {
            Ok(end) => {
                if end < self.energy_last {
                    return self.fail(
                        health,
                        InferError::GenerationError(String::from_str("energy counter decreased")),
                    );
                }
                let total = end - self.energy_start;
                self.energy_last = end;
                self.total_energy = Some(total);
                self.phase = Phase::Terminal;
                let generated_text = self.accumulated.take().unwrap();
                DriverAction::Finish(
                    InferStreamResponse::End {
                        token,
                        top_tokens,
                        generated_text,
                        start: self.first_start.unwrap(),
                        queued: self.first_queued.unwrap(),
                        energy_consumption: Some(total),
                    },
                )
            },
            Err(cause) => self.fail(health, InferError::GenerationError(cause)),
        }
    }

    /// Takes the outcome of the work that the previous step asked for and
    /// says what to do next.
    pub fn step(&mut self, health: &mut HealthTracker, input: DriverInput) -> (action:
        DriverAction)
        requires
            old(self)@.wf(),
        ensures
            final(self)@.wf(),
            (Transition { state: final(self)@, action: action@ }) == old(self)@.step(input@),
            final(health)@ == health_after(old(health)@, action@),
    {
        let mut phase = Phase::Terminal;
        core::mem::swap(&mut self.phase, &mut phase);
        match phase {
            Phase::Terminal => DriverAction::Stop,
            Phase::Running => {
                self.phase = Phase::Running;
                match input {
                    DriverInput::Backend(Ok(InferStreamResponse::Prefill(tokens))) => {
                        DriverAction::Emit(InferStreamResponse::Prefill(tokens))
                    },
                    DriverInput::Backend(
                        Ok(InferStreamResponse::Intermediate { token, top_tokens, .. }),
                    ) => {
                        if self.total_generated_tokens == u32::MAX {
                            self.fail(
                                health,
                                InferError::GenerationError(
                                    String::from_str("generated token count out of range"),
                                ),
                            )
                        } else {
                            self.total_generated_tokens = self.total_generated_tokens + 1;
                            self.phase = Phase::StepEnergy { token, top_tokens };
                            DriverAction::ReadEnergy
                        }
                    },
                    DriverInput::Backend(
                        Ok(
                            InferStreamResponse::End {
                                token,
                                top_tokens,
                                generated_text,
                                start,
                                queued,
                                ..
                            },
                        ),
                    ) => self.on_end(health, token, top_tokens, generated_text, start, queued),
                    DriverInput::Backend(Err(error)) => self.fail(health, error),
                    DriverInput::Closed => {
                        self.phase = Phase::Terminal;
                        DriverAction::Stop
                    },
                    _ => self.fail(health, InferError::IncompleteGenerationStream),
                }
            },
            Phase::StepEnergy { token, top_tokens } => {
                match input {
                    DriverInput::Energy(Ok(now)) => {
                        if now < self.energy_last {
                            self.fail(
                                health,
                                InferError::EnergyConsumptionError(
                                    String::from_str("energy counter decreased"),
                                ),
                            )
                        } else {
                            let total = now - self.energy_start;
                            self.energy_last = now;
                            self.total_energy = Some(total);
                            self.phase = Phase::Running;
                            DriverAction::Emit(
                                InferStreamResponse::Intermediate {
                                    token,
                                    top_tokens,
                                    energy_consumption: Some(total),
                                },
                            )
                        }
                    },
                    DriverInput::Energy(Err(cause)) => self.fail(
                        health,
                        InferError::EnergyConsumptionError(cause),
                    ),
                    _ => self.fail(health, InferError::IncompleteGenerationStream),
                }
            },
            Phase::Validating { token, top_tokens } => {
                match input {
                    DriverInput::Validated(Ok(valid)) => {
                        self.phase = Phase::Scheduling { token, top_tokens };
                        DriverAction::Schedule(valid)
                    },
                    DriverInput::Validated(Err(_)) => {
                        self.phase = Phase::FinalEnergy { token, top_tokens };
                        DriverAction::ReadEnergy
                    },
                    _ => self.fail(health, InferError::IncompleteGenerationStream),
                }
            },
            Phase::Scheduling { token, top_tokens } => {
                match input {
                    DriverInput::Scheduled(Ok(())) => {
                        self.phase = Phase::Running;
                        DriverAction::Emit(
                            InferStreamResponse::Intermediate {
                                token,
                                top_tokens,
                                energy_consumption: self.total_energy,
                            },
                        )
                    },
                    DriverInput::Scheduled(Err(_)) => {
                        self.phase = Phase::FinalEnergy { token, top_tokens };
                        DriverAction::ReadEnergy
                    },
                    _ => self.fail(health, InferError::IncompleteGenerationStream),
                }
            },
            Phase::FinalEnergy { token, top_tokens } => {
                match input {
                    DriverInput::Energy(reading) => self.on_final_energy(
                        health,
                        token,
                        top_tokens,
                        reading,
                    ),
                    _ => self.fail(health, InferError::IncompleteGenerationStream),
                }
            },
        }
    }
}

} // verus!
