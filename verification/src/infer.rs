//! The service's entry points, as far as they decide anything: admission,
//! the start of a generation and of its aggregation, the choice among
//! several completions, the chat template, and the health latch.
//!
//! The caller does the outside work between them: it reads the energy
//! counter, validates, schedules on the backend, polls the backend's
//! stream and probes the backend's health, and hands each outcome in.

use crate::aggregate::{AggregateState, Aggregator};
use crate::best_of::{best_index, winner};
use crate::driver::{health_after, DriverAction, DriverInput, DriverState, StreamDriver, Transition};
use crate::error::{InferError, TemplateError, ValidationError};
use crate::gate::{max_permits, AdmissionGate};
use crate::health::{latch, HealthEvent, HealthTracker};
use crate::template::{
    resolve_chat_template, resolved, ChatTemplate, HubProcessorConfig, HubTokenizerConfig,
};
use crate::types::{GenerateRequest, InferResponse, ValidGenerateRequest};
use tokio::sync::OwnedSemaphorePermit;
use vstd::prelude::*;

verus! {

/// A request that holds a permit.
#[derive(Debug)]
pub struct Admission {
    /// The slot that the request holds for as long as it lives.
    pub permit: OwnedSemaphorePermit,
    /// The energy counter when the request came in.
    pub energy_start: u64,
}

/// A generation that is ready to be scheduled.
#[derive(Debug)]
pub struct Generation {
    /// The slot of the request, to be kept until its stream is dropped.
    pub permit: OwnedSemaphorePermit,
    /// Length of the input as validation counted it.
    pub input_length: u32,
    /// The request to schedule on the backend.
    pub valid_request: ValidGenerateRequest,
    /// The driver of the stream.
    pub driver: StreamDriver,
}

/// The inference service.
#[derive(Debug)]
pub struct Infer {
    /// Chat template.
    chat_template: Option<ChatTemplate>,
    /// Inference limit.
    limit_concurrent_requests: AdmissionGate,
    /// Backend health.
    backend_health: HealthTracker,
}

impl Infer {
    /// The latched health of the backend.
    pub closed spec fn healthy(&self) -> bool {
        self.backend_health@
    }

    /// The chat template that the service is configured with.
    pub closed spec fn configured_template(&self) -> Option<ChatTemplate> {
        self.chat_template
    }

    /// A service that admits `max_concurrent_requests` requests at a time,
    /// with the chat template that the two configurations stand for and
    /// the health that the backend reports on startup.
    pub fn new(
        start_health: bool,
        max_concurrent_requests: usize,
        tokenizer_config: HubTokenizerConfig,
        processor_config: HubProcessorConfig,
    ) -> (infer: Infer)
        requires
            max_concurrent_requests <= max_permits(),
        ensures
            infer.healthy() == start_health,
            match infer.configured_template() {
                Some(configured) => {
                    &&& resolved(tokenizer_config.chat_template, processor_config.chat_template)
                        == Some(configured.template@)
                    &&& configured.bos_token == tokenizer_config.bos_token
                    &&& configured.eos_token == tokenizer_config.eos_token
                },
                None => resolved(tokenizer_config.chat_template, processor_config.chat_template)
                    is None,
            },
    {
        let chat_template = resolve_chat_template(tokenizer_config, processor_config);
        Infer {
            chat_template,
            limit_concurrent_requests: AdmissionGate::new(max_concurrent_requests),
            backend_health: HealthTracker::new(start_health),
        }
    }

    /// Lets a request in, given the first reading of the energy counter.
    /// A reading that failed is an energy error, and no permit is asked
    /// for. Otherwise the request takes a permit or is refused as
    /// overload.
    pub fn try_enter(&self, reading: Result<u64, String>) -> (outcome: Result<Admission, InferError>)
        ensures
            match reading {
                Err(cause) => outcome matches Err(InferError::EnergyConsumptionError(c)) && c
                    == cause,
                Ok(energy_start) => match outcome {
                    Ok(admission) => admission.energy_start == energy_start,
                    Err(error) => error is Overloaded,
                },
            },
    {
        match reading {
            Err(cause) => Err(InferError::EnergyConsumptionError(cause)),
            Ok(energy_start) => match self.limit_concurrent_requests.try_acquire() {
                Ok(permit) => Ok(Admission { permit, energy_start }),
                Err(error) => Err(error),
            },
        }
    }

    /// Starts the generation of an admitted request, given the outcome of
    /// validating it. A request that validation rejected fails with the
    /// rejection, and its permit is given up. Otherwise the generation
    /// keeps the permit and gets a fresh driver, whose working request is
    /// the caller's with the seed that validation settled on.
    pub fn generate_stream(
        &self,
        admission: Admission,
        request: GenerateRequest,
        validated: Result<ValidGenerateRequest, ValidationError>,
    ) -> (outcome: Result<Generation, InferError>)
        ensures
            match validated {
                Err(rejection) => outcome matches Err(InferError::ValidationError(r)) && r
                    == rejection,
                Ok(valid) => outcome matches Ok(generation) && {
                    &&& generation.permit == admission.permit
                    &&& generation.input_length == valid.input_length
                    &&& generation.valid_request == valid
                    &&& generation.driver@ == DriverState::initial(
                        request@,
                        valid@,
                        admission.energy_start,
                    )
                    &&& generation.driver@.wf()
                },
            },
    {
        match validated {
            Err(rejection) => Err(InferError::ValidationError(rejection)),
            Ok(valid_request) => {
                let driver = StreamDriver::new(request, &valid_request, admission.energy_start);
                Ok(
                    Generation {
                        permit: admission.permit,
                        input_length: valid_request.input_length,
                        valid_request,
                        driver,
                    },
                )
            },
        }
    }

    /// Takes the outcome of the work that the driver asked for, says what
    /// to do next, and clears the health latch if the stream ends in an
    /// error.
    pub fn step(&mut self, driver: &mut StreamDriver, input: DriverInput) -> (action: DriverAction)
        requires
            old(driver)@.wf(),
        ensures
            final(driver)@.wf(),
            (Transition { state: final(driver)@, action: action@ }) == old(driver)@.step(input@),
            final(self).healthy() == health_after(old(self).healthy(), action@),
            final(self).configured_template() == old(self).configured_template(),
    {
        driver.step(&mut self.backend_health, input)
    }

    /// Starts the aggregation of a request, given the first reading of the
    /// energy counter. A reading that failed is an energy error.
    pub fn generate(&self, request: &GenerateRequest, reading: Result<u64, String>) -> (outcome:
        Result<Aggregator, InferError>)
        ensures
            match reading {
                Err(cause) => outcome matches Err(InferError::EnergyConsumptionError(c)) && c
                    == cause,
                Ok(energy_start) => outcome matches Ok(aggregator) && aggregator@
                    == AggregateState::initial(request.parameters.top_n_tokens, energy_start)
                    && aggregator@.wf(),
            },
    {
        match reading {
            Err(cause) => Err(InferError::EnergyConsumptionError(cause)),
            Ok(energy_start) => Ok(Aggregator::new(request.parameters.top_n_tokens, energy_start)),
        }
    }

    /// Of several completions of one request, the best by `scores`, and
    /// the others in their order.
    pub fn generate_best_of(responses: Vec<InferResponse>, scores: &Vec<Option<i64>>) -> (chosen: (
        InferResponse,
        Vec<InferResponse>,
    ))
        requires
            responses.len() > 0,
            scores.len() == responses.len(),
        ensures
            chosen.0 == responses[winner(scores@)],
            chosen.1@ == responses@.remove(winner(scores@)),
    {
        let mut responses = responses;
        let best = best_index(scores);
        let best_response = responses.remove(best);
        (best_response, responses)
    }

    /// The chat template to render with. A service without one fails with
    /// a template error, the engine's for a template that is not found.
    pub fn apply_chat_template(&self) -> (outcome: Result<&ChatTemplate, InferError>)
        ensures
            match self.configured_template() {
                Some(configured) => outcome matches Ok(template) && *template == configured,
                None => outcome matches Err(error) && error is TemplateError,
            },
    {
        match &self.chat_template {
            Some(template) => Ok(template),
            None => Err(InferError::TemplateError(TemplateError::not_found())),
        }
    }

    /// The latched health of the backend, which a probe hands to the
    /// backend as a hint.
    pub fn current_health(&self) -> (healthy: bool)
        ensures
            healthy == self.healthy(),
    {
        self.backend_health.current()
    }

    /// Latches the backend's answer to a probe and returns it.
    pub fn health(&mut self, answer: bool) -> (healthy: bool)
        ensures
            healthy == answer,
            final(self).healthy() == latch(old(self).healthy(), HealthEvent::Probe(answer)),
            final(self).configured_template() == old(self).configured_template(),
    {
        self.backend_health.record_probe(answer)
    }
}

} // verus!
