use inference_core::aggregate::Aggregator;
use inference_core::driver::{DriverAction, DriverInput, StreamDriver};
use inference_core::error::{InferError, ValidationError};
use inference_core::health::HealthTracker;
use inference_core::types::{
    FinishReason, GenerateParameters, GenerateRequest, GeneratedText, InferResponse,
    InferStreamResponse, PrefillToken, Token, ValidGenerateRequest, ValidParameters,
    ValidStoppingParameters,
};
use tokio::time::Instant;

fn token(id: u32, text: &str) -> Token {
    Token {
        id,
        text: text.to_string(),
        logprob_bits: (-0.5f32).to_bits(),
        special: false,
        energy_consumption: None,
    }
}

fn request(inputs: &str, seed: Option<u64>, top_n_tokens: Option<u32>) -> GenerateRequest {
    GenerateRequest {
        inputs: inputs.to_string(),
        add_special_tokens: true,
        parameters: GenerateParameters { seed, top_n_tokens, truncate: None },
    }
}

fn valid(inputs: &str, seed: u64, max_total_new_tokens: u32) -> ValidGenerateRequest {
    ValidGenerateRequest {
        inputs: inputs.to_string(),
        input_length: 3,
        add_special_tokens: true,
        truncate: 0,
        parameters: ValidParameters { seed, top_n_tokens: 0 },
        stopping_parameters: ValidStoppingParameters { max_total_new_tokens },
    }
}

fn intermediate(id: u32) -> Result<InferStreamResponse, InferError> {
    Ok(InferStreamResponse::Intermediate {
        token: token(id, "t"),
        top_tokens: vec![token(id + 1000, "top")],
        energy_consumption: Some(999_999),
    })
}

fn end(
    id: u32,
    text: &str,
    generated_tokens: u32,
    finish_reason: FinishReason,
    start: Instant,
    queued: Instant,
) -> Result<InferStreamResponse, InferError> {
    Ok(InferStreamResponse::End {
        token: token(id, "e"),
        top_tokens: vec![token(id + 1000, "top")],
        generated_text: GeneratedText {
            text: text.to_string(),
            generated_tokens,
            finish_reason,
            seed: Some(7),
        },
        start,
        queued,
        energy_consumption: Some(999_999),
    })
}

/// What a scripted run hands to the driver: the segments that the backend
/// delivers, one per schedule, the counter readings, and the outcomes of
/// validation and scheduling, each consumed in order.
struct Script {
    segments: Vec<Vec<Result<InferStreamResponse, InferError>>>,
    readings: Vec<Result<u64, String>>,
    validations: Vec<Result<ValidGenerateRequest, ValidationError>>,
    schedules: Vec<Result<(), InferError>>,
}

/// What a scripted run gave: the stream, the requests that were handed to
/// validation, and how many schedules were asked for.
struct Outcome {
    stream: Vec<Result<InferStreamResponse, InferError>>,
    validated: Vec<GenerateRequest>,
    scheduled: usize,
}

fn drive(driver: &mut StreamDriver, health: &mut HealthTracker, script: Script) -> Outcome {
    let mut segments = script.segments.into_iter();
    let mut current = segments.next().unwrap_or_default().into_iter();
    let mut readings = script.readings.into_iter();
    let mut validations = script.validations.into_iter();
    let mut schedules = script.schedules.into_iter();
    let mut outcome = Outcome { stream: Vec::new(), validated: Vec::new(), scheduled: 0 };
    let poll = |current: &mut std::vec::IntoIter<Result<InferStreamResponse, InferError>>| {
        match current.next() {
            Some(item) => DriverInput::Backend(item),
            None => DriverInput::Closed,
        }
    };
    let mut input = poll(&mut current);
    loop {
        match driver.step(health, input) {
            DriverAction::Emit(event) => {
                outcome.stream.push(Ok(event));
                input = poll(&mut current);
            }
            DriverAction::ReadEnergy => {
                input = DriverInput::Energy(readings.next().expect("a reading"));
            }
            DriverAction::Validate(again) => {
                outcome.validated.push(again);
                input = DriverInput::Validated(validations.next().expect("a validation"));
            }
            DriverAction::Schedule(_) => {
                outcome.scheduled += 1;
                let scheduled = schedules.next().expect("a schedule");
                if scheduled.is_ok() {
                    current = segments.next().unwrap_or_default().into_iter();
                }
                input = DriverInput::Scheduled(scheduled);
            }
            DriverAction::Finish(event) => {
                outcome.stream.push(Ok(event));
                return outcome;
            }
            DriverAction::Fail(error) => {
                outcome.stream.push(Err(error));
                return outcome;
            }
            DriverAction::Stop => return outcome,
        }
    }
}

fn aggregate(
    stream: Vec<Result<InferStreamResponse, InferError>>,
    top_n_tokens: Option<u32>,
    energy_start: u64,
    last_reading: Result<u64, String>,
) -> Result<InferResponse, InferError> {
    let mut aggregator = Aggregator::new(top_n_tokens, energy_start);
    let mut last_reading = Some(last_reading);
    for item in stream {
        if aggregator.push(item)? {
            aggregator.record_energy(last_reading.take().expect("one final event"))?;
        }
    }
    aggregator.finish(3)
}

fn kinds(stream: &[Result<InferStreamResponse, InferError>]) -> String {
    stream
        .iter()
        .map(|item| match item {
            Ok(InferStreamResponse::Prefill(_)) => 'P',
            Ok(InferStreamResponse::Intermediate { .. }) => 'I',
            Ok(InferStreamResponse::End { .. }) => 'E',
            Err(_) => 'X',
        })
        .collect()
}

fn energies(stream: &[Result<InferStreamResponse, InferError>]) -> Vec<Option<u64>> {
    stream
        .iter()
        .filter_map(|item| match item {
            Ok(InferStreamResponse::Intermediate { energy_consumption, .. }) => {
                Some(*energy_consumption)
            }
            Ok(InferStreamResponse::End { energy_consumption, .. }) => Some(*energy_consumption),
            _ => None,
        })
        .collect()
}

fn ids(stream: &[Result<InferStreamResponse, InferError>]) -> Vec<u32> {
    stream
        .iter()
        .filter_map(|item| match item {
            Ok(InferStreamResponse::Intermediate { token, .. }) => Some(token.id),
            Ok(InferStreamResponse::End { token, .. }) => Some(token.id),
            _ => None,
        })
        .collect()
}

#[test]
fn happy_path_gives_both_tokens_and_the_text() {
    let queued = Instant::now();
    let start = Instant::now();
    let mut health = HealthTracker::new(true);
    let mut driver = StreamDriver::new(request("hi", None, None), &valid("hi", 7, 20), 1_000);
    let script = Script {
        segments: vec![vec![
            Ok(InferStreamResponse::Prefill(vec![PrefillToken {
                id: 1,
                text: "hi".to_string(),
                logprob_bits: 0,
            }])),
            intermediate(10),
            end(11, "A", 2, FinishReason::EosToken, start, queued),
        ]],
        readings: vec![Ok(1_040), Ok(1_100)],
        validations: vec![],
        schedules: vec![],
    };
    let outcome = drive(&mut driver, &mut health, script);
    assert_eq!(kinds(&outcome.stream), "PIE");
    assert_eq!(energies(&outcome.stream), vec![Some(40), Some(100)]);
    assert!(driver.is_terminal());
    assert_eq!(driver.total_generated_tokens(), 2);
    assert!(health.current());

    let response = aggregate(outcome.stream, None, 990, Ok(1_120)).unwrap();
    assert_eq!(response.input_length, 3);
    assert_eq!(response.prefill.len(), 1);
    assert_eq!(response.prefill[0].id, 1);
    assert_eq!(response.tokens.len(), 2);
    assert_eq!(response.tokens[0].id, 10);
    assert_eq!(response.tokens[0].energy_consumption, Some(40));
    assert_eq!(response.tokens[1].id, 11);
    assert_eq!(response.tokens[1].energy_consumption, None);
    assert_eq!(response.generated_text.text, "A");
    assert_eq!(response.generated_text.generated_tokens, 2);
    assert_eq!(response.generated_text.finish_reason, FinishReason::EosToken);
    assert_eq!(response.energy_consumption, Some(130));
    assert!(response.energy_consumption.unwrap() > 0);
    assert_eq!(response.token_energy_consumptions, vec![Some(40), Some(100)]);
    assert!(response.top_tokens.is_empty());
    assert_eq!(response.start, start);
    assert_eq!(response.queued, queued);
}

#[test]
fn continuation_splices_two_segments_into_one_stream() {
    let queued = Instant::now();
    let start = Instant::now();
    let later = Instant::now();
    let mut health = HealthTracker::new(true);
    let mut driver = StreamDriver::new(request("in:", None, Some(1)), &valid("in:", 42, 6), 500);
    let script = Script {
        segments: vec![
            vec![
                intermediate(1),
                intermediate(2),
                intermediate(3),
                end(4, "foo", 4, FinishReason::Length, start, queued),
            ],
            vec![
                intermediate(5),
                intermediate(6),
                end(7, "bar", 3, FinishReason::EosToken, later, later),
            ],
        ],
        readings: vec![Ok(510), Ok(520), Ok(530), Ok(540), Ok(550), Ok(560)],
        validations: vec![Ok(valid("in:foo", 42, 6))],
        schedules: vec![Ok(())],
    };
    let outcome = drive(&mut driver, &mut health, script);
    assert_eq!(kinds(&outcome.stream), "IIIIIIE");
    assert_eq!(ids(&outcome.stream), vec![1, 2, 3, 4, 5, 6, 7]);
    // The splice event carries the energy of the last reading before it.
    assert_eq!(
        energies(&outcome.stream),
        vec![Some(10), Some(20), Some(30), Some(30), Some(40), Some(50), Some(60)]
    );
    assert_eq!(outcome.scheduled, 1);
    assert_eq!(outcome.validated.len(), 1);
    assert_eq!(outcome.validated[0].inputs, "in:foo");
    assert_eq!(outcome.validated[0].parameters.seed, Some(42));
    assert_eq!(outcome.validated[0].parameters.top_n_tokens, Some(1));
    match outcome.stream.last() {
        Some(Ok(InferStreamResponse::End { generated_text, start: s, queued: q, .. })) => {
            assert_eq!(generated_text.text, "foobar");
            assert_eq!(generated_text.generated_tokens, 7);
            assert_eq!(generated_text.finish_reason, FinishReason::EosToken);
            assert_eq!(generated_text.seed, Some(7));
            assert_eq!(*s, start);
            assert_eq!(*q, queued);
        }
        _ => panic!("the stream ends with its final event"),
    }
    let response = aggregate(outcome.stream, Some(1), 500, Ok(560)).unwrap();
    assert_eq!(response.tokens.len(), 7);
    assert_eq!(response.generated_text.generated_tokens as usize, response.tokens.len());
    assert_eq!(response.token_energy_consumptions.len(), response.tokens.len());
    assert_eq!(response.top_tokens.len(), response.tokens.len());
    assert_eq!(response.top_tokens[3][0].id, 1004);
    assert_eq!(response.energy_consumption, Some(60));
}

#[test]
fn three_segments_of_equal_length_give_one_end_with_all_text() {
    let now = Instant::now();
    let k: u32 = 4;
    let segment = |first: u32, text: &str| {
        let mut events: Vec<Result<InferStreamResponse, InferError>> =
            (0..k - 1).map(|i| intermediate(first + i)).collect();
        events.push(end(first + k - 1, text, k, FinishReason::Length, now, now));
        events
    };
    let mut health = HealthTracker::new(true);
    let mut driver = StreamDriver::new(request("", Some(5), None), &valid("", 5, 3 * k), 0);
    let script = Script {
        segments: vec![segment(0, "one "), segment(k, "two "), segment(2 * k, "three")],
        readings: (1..=3 * k as u64).map(Ok).collect(),
        validations: vec![Ok(valid("one ", 5, 3 * k)), Ok(valid("one two ", 5, 3 * k))],
        schedules: vec![Ok(()), Ok(())],
    };
    let outcome = drive(&mut driver, &mut health, script);
    let shape = kinds(&outcome.stream);
    assert_eq!(shape.len(), (3 * k) as usize);
    assert_eq!(shape.matches('E').count(), 1);
    assert!(shape.ends_with('E'));
    assert_eq!(outcome.validated[0].inputs, "one ");
    assert_eq!(outcome.validated[1].inputs, "one two ");
    assert_eq!(outcome.validated[1].parameters.seed, Some(5));
    match outcome.stream.last() {
        Some(Ok(InferStreamResponse::End { generated_text, .. })) => {
            assert_eq!(generated_text.text, "one two three");
            assert_eq!(generated_text.generated_tokens, 3 * k);
            assert_eq!(generated_text.finish_reason, FinishReason::Length);
        }
        _ => panic!("the stream ends with its final event"),
    }
}

#[test]
fn a_length_stop_on_the_exact_budget_is_not_continued() {
    let now = Instant::now();
    let mut health = HealthTracker::new(true);
    let mut driver = StreamDriver::new(request("", None, None), &valid("", 1, 2), 100);
    let script = Script {
        segments: vec![vec![intermediate(1), end(2, "ab", 2, FinishReason::Length, now, now)]],
        readings: vec![Ok(100), Ok(100)],
        validations: vec![],
        schedules: vec![],
    };
    let outcome = drive(&mut driver, &mut health, script);
    assert_eq!(kinds(&outcome.stream), "IE");
    assert!(outcome.validated.is_empty());
    assert_eq!(energies(&outcome.stream), vec![Some(0), Some(0)]);
}

#[test]
fn a_stop_for_another_reason_is_not_continued() {
    let now = Instant::now();
    let mut health = HealthTracker::new(true);
    let mut driver = StreamDriver::new(request("", None, None), &valid("", 1, 50), 100);
    let script = Script {
        segments: vec![vec![end(1, "x", 1, FinishReason::StopSequence, now, now)]],
        readings: vec![Ok(105)],
        validations: vec![],
        schedules: vec![],
    };
    let outcome = drive(&mut driver, &mut health, script);
    assert_eq!(kinds(&outcome.stream), "E");
    assert_eq!(energies(&outcome.stream), vec![Some(5)]);
}

#[test]
fn a_failed_validation_ends_the_stream_with_what_was_generated() {
    let queued = Instant::now();
    let start = Instant::now();
    let mut health = HealthTracker::new(true);
    let mut driver = StreamDriver::new(request("in:", None, None), &valid("in:", 42, 6), 500);
    let script = Script {
        segments: vec![vec![
            intermediate(1),
            intermediate(2),
            intermediate(3),
            end(4, "foo", 4, FinishReason::Length, start, queued),
        ]],
        readings: vec![Ok(510), Ok(520), Ok(530), Ok(545)],
        validations: vec![Err(ValidationError { message: "too long".to_string() })],
        schedules: vec![],
    };
    let outcome = drive(&mut driver, &mut health, script);
    assert_eq!(kinds(&outcome.stream), "IIIE");
    assert_eq!(outcome.scheduled, 0);
    assert_eq!(energies(&outcome.stream), vec![Some(10), Some(20), Some(30), Some(45)]);
    match outcome.stream.last() {
        Some(Ok(InferStreamResponse::End { token, generated_text, start: s, queued: q, .. })) => {
            assert_eq!(token.id, 4);
            assert_eq!(generated_text.text, "foo");
            assert_eq!(generated_text.generated_tokens, 4);
            assert_eq!(generated_text.finish_reason, FinishReason::Length);
            assert_eq!(*s, start);
            assert_eq!(*q, queued);
        }
        _ => panic!("the stream ends with its final event"),
    }
    assert!(health.current());
}

#[test]
fn a_failed_schedule_ends_the_stream_with_what_was_generated() {
    let now = Instant::now();
    let mut health = HealthTracker::new(true);
    let mut driver = StreamDriver::new(request("in:", None, None), &valid("in:", 42, 6), 500);
    let script = Script {
        segments: vec![vec![intermediate(1), end(2, "foo", 2, FinishReason::Length, now, now)]],
        readings: vec![Ok(510), Ok(512)],
        validations: vec![Ok(valid("in:foo", 42, 6))],
        schedules: vec![Err(InferError::GenerationError("queue is gone".to_string()))],
    };
    let outcome = drive(&mut driver, &mut health, script);
    assert_eq!(kinds(&outcome.stream), "IE");
    assert_eq!(outcome.scheduled, 1);
    assert_eq!(energies(&outcome.stream), vec![Some(10), Some(12)]);
    assert!(health.current());
}

#[test]
fn a_backend_error_ends_the_stream_and_clears_the_latch() {
    let mut health = HealthTracker::new(true);
    let mut driver = StreamDriver::new(request("", None, None), &valid("", 1, 50), 100);
    let script = Script {
        segments: vec![vec![
            intermediate(1),
            Err(InferError::GenerationError("shard crashed".to_string())),
            intermediate(2),
        ]],
        readings: vec![Ok(110)],
        validations: vec![],
        schedules: vec![],
    };
    let outcome = drive(&mut driver, &mut health, script);
    assert_eq!(kinds(&outcome.stream), "IX");
    assert!(!health.current());
    assert!(driver.is_terminal());
    let error = aggregate(outcome.stream, None, 100, Ok(110)).unwrap_err();
    assert!(matches!(&error, InferError::GenerationError(cause) if cause == "shard crashed"));
    assert_eq!(error.message(), "Request failed during generation: shard crashed");
    // The latch stays cleared until the backend answers a probe with true.
    assert!(!health.record_probe(false));
    assert!(!health.current());
    assert!(health.record_probe(true));
    assert!(health.current());
}

#[test]
fn a_stream_that_closes_early_is_an_incomplete_generation() {
    let mut health = HealthTracker::new(true);
    let mut driver = StreamDriver::new(request("", None, None), &valid("", 1, 50), 100);
    let script = Script {
        segments: vec![vec![intermediate(1)]],
        readings: vec![Ok(110)],
        validations: vec![],
        schedules: vec![],
    };
    let outcome = drive(&mut driver, &mut health, script);
    assert_eq!(kinds(&outcome.stream), "I");
    assert!(driver.is_terminal());
    assert!(health.current());
    let error = aggregate(outcome.stream, None, 100, Ok(110)).unwrap_err();
    assert!(matches!(error, InferError::IncompleteGeneration));
}

#[test]
fn a_failed_reading_for_a_token_is_an_energy_error() {
    let mut health = HealthTracker::new(true);
    let mut driver = StreamDriver::new(request("", None, None), &valid("", 1, 50), 100);
    let script = Script {
        segments: vec![vec![intermediate(1), intermediate(2)]],
        readings: vec![Ok(110), Err("device lost".to_string())],
        validations: vec![],
        schedules: vec![],
    };
    let outcome = drive(&mut driver, &mut health, script);
    assert_eq!(kinds(&outcome.stream), "IX");
    assert!(matches!(
        outcome.stream.last(),
        Some(Err(InferError::EnergyConsumptionError(cause))) if cause == "device lost"
    ));
    assert!(!health.current());
}

#[test]
fn a_failed_last_reading_is_a_generation_error() {
    let now = Instant::now();
    let mut health = HealthTracker::new(true);
    let mut driver = StreamDriver::new(request("", None, None), &valid("", 1, 50), 100);
    let script = Script {
        segments: vec![vec![end(1, "x", 1, FinishReason::EosToken, now, now)]],
        readings: vec![Err("device lost".to_string())],
        validations: vec![],
        schedules: vec![],
    };
    let outcome = drive(&mut driver, &mut health, script);
    assert_eq!(kinds(&outcome.stream), "X");
    assert!(matches!(
        outcome.stream.last(),
        Some(Err(InferError::GenerationError(cause))) if cause == "device lost"
    ));
}

#[test]
fn a_counter_that_goes_back_is_an_error() {
    let now = Instant::now();
    let mut health = HealthTracker::new(true);
    let mut driver = StreamDriver::new(request("", None, None), &valid("", 1, 50), 100);
    let script = Script {
        segments: vec![vec![intermediate(1), intermediate(2)]],
        readings: vec![Ok(110), Ok(109)],
        validations: vec![],
        schedules: vec![],
    };
    let outcome = drive(&mut driver, &mut health, script);
    assert_eq!(kinds(&outcome.stream), "IX");
    assert!(matches!(
        outcome.stream.last(),
        Some(Err(InferError::EnergyConsumptionError(cause))) if cause == "energy counter decreased"
    ));

    let mut health = HealthTracker::new(true);
    let mut driver = StreamDriver::new(request("", None, None), &valid("", 1, 50), 100);
    let script = Script {
        segments: vec![vec![intermediate(1), end(2, "x", 2, FinishReason::EosToken, now, now)]],
        readings: vec![Ok(110), Ok(105)],
        validations: vec![],
        schedules: vec![],
    };
    let outcome = drive(&mut driver, &mut health, script);
    assert_eq!(kinds(&outcome.stream), "IX");
    assert!(matches!(
        outcome.stream.last(),
        Some(Err(InferError::GenerationError(cause))) if cause == "energy counter decreased"
    ));
}

#[test]
fn an_input_out_of_order_ends_the_stream() {
    let mut health = HealthTracker::new(true);
    let mut driver = StreamDriver::new(request("", None, None), &valid("", 1, 50), 100);
    let action = driver.step(&mut health, DriverInput::Energy(Ok(120)));
    assert!(matches!(action, DriverAction::Fail(InferError::IncompleteGenerationStream)));
    assert!(driver.is_terminal());
    assert!(!health.current());
    // Nothing follows the end of the stream.
    assert!(matches!(driver.step(&mut health, intermediate_input(1)), DriverAction::Stop));
    assert!(matches!(driver.step(&mut health, DriverInput::Closed), DriverAction::Stop));
    assert_eq!(driver.total_generated_tokens(), 0);
}

fn intermediate_input(id: u32) -> DriverInput {
    DriverInput::Backend(intermediate(id))
}

#[test]
fn the_driver_overrides_the_energy_that_the_backend_reports() {
    let mut health = HealthTracker::new(false);
    let mut driver = StreamDriver::new(request("", None, None), &valid("", 1, 50), 100);
    assert!(matches!(driver.step(&mut health, intermediate_input(1)), DriverAction::ReadEnergy));
    match driver.step(&mut health, DriverInput::Energy(Ok(175))) {
        DriverAction::Emit(InferStreamResponse::Intermediate {
            token,
            top_tokens,
            energy_consumption,
        }) => {
            assert_eq!(token.id, 1);
            assert_eq!(top_tokens.len(), 1);
            assert_eq!(top_tokens[0].id, 1001);
            assert_eq!(energy_consumption, Some(75));
        }
        _ => panic!("an intermediate event"),
    }
    assert!(!health.current());
}

#[test]
fn a_prefill_passes_through_unchanged() {
    let mut health = HealthTracker::new(true);
    let mut driver = StreamDriver::new(request("", None, None), &valid("", 1, 50), 100);
    let prefill = InferStreamResponse::Prefill(vec![
        PrefillToken { id: 3, text: "a".to_string(), logprob_bits: 1 },
        PrefillToken { id: 4, text: "b".to_string(), logprob_bits: 2 },
    ]);
    match driver.step(&mut health, DriverInput::Backend(Ok(prefill))) {
        DriverAction::Emit(InferStreamResponse::Prefill(tokens)) => {
            assert_eq!(tokens.len(), 2);
            assert_eq!(tokens[0].id, 3);
            assert_eq!(tokens[1].text, "b");
            assert_eq!(tokens[1].logprob_bits, 2);
        }
        _ => panic!("the prefill"),
    }
    assert_eq!(driver.total_generated_tokens(), 0);
    assert!(!driver.is_terminal());
}

#[test]
fn top_tokens_are_kept_only_when_asked_for() {
    let now = Instant::now();
    let stream = || {
        vec![intermediate(1), intermediate(2), end(3, "x", 3, FinishReason::EosToken, now, now)]
    };
    let none = aggregate(stream(), None, 0, Ok(5)).unwrap();
    assert!(none.top_tokens.is_empty());
    assert_eq!(none.tokens.len(), 3);
    let zero = aggregate(stream(), Some(0), 0, Ok(5)).unwrap();
    assert!(zero.top_tokens.is_empty());
    let two = aggregate(stream(), Some(2), 0, Ok(5)).unwrap();
    assert_eq!(two.top_tokens.len(), 3);
    assert_eq!(two.top_tokens[0][0].id, 1001);
    assert_eq!(two.top_tokens[2][0].id, 1003);
    assert_eq!(two.token_energy_consumptions, vec![Some(999_999), Some(999_999), Some(999_999)]);
    assert_eq!(two.tokens[0].energy_consumption, Some(999_999));
    assert_eq!(two.energy_consumption, Some(5));
}

#[test]
fn the_aggregator_reports_a_failed_or_decreased_last_reading() {
    let now = Instant::now();
    let stream = || vec![end(3, "x", 1, FinishReason::EosToken, now, now)];
    let failed = aggregate(stream(), None, 10, Err("no device".to_string())).unwrap_err();
    assert!(matches!(&failed, InferError::GenerationError(cause) if cause == "no device"));
    let decreased = aggregate(stream(), None, 10, Ok(9)).unwrap_err();
    assert!(
        matches!(&decreased, InferError::GenerationError(cause) if cause == "energy counter decreased")
    );
    let same = aggregate(stream(), None, 10, Ok(10)).unwrap();
    assert_eq!(same.energy_consumption, Some(0));
}

#[test]
fn the_aggregator_hands_an_error_back_and_keeps_what_it_has() {
    let mut aggregator = Aggregator::new(Some(1), 0);
    assert!(matches!(aggregator.push(intermediate(1)), Ok(false)));
    let outcome = aggregator.push(Err(InferError::ToolError("bad grammar".to_string())));
    assert!(matches!(outcome, Err(InferError::ToolError(cause)) if cause == "bad grammar"));
    let now = Instant::now();
    assert!(matches!(aggregator.push(end(2, "x", 2, FinishReason::EosToken, now, now)), Ok(true)));
    assert!(aggregator.record_energy(Ok(4)).is_ok());
    let response = aggregator.finish(9).unwrap();
    assert_eq!(response.input_length, 9);
    assert_eq!(response.tokens.len(), 2);
    assert_eq!(response.top_tokens.len(), 2);
}

#[test]
fn a_copy_of_a_request_holds_the_same_values() {
    let first = request("prompt", Some(3), Some(4));
    let copy = first.duplicate();
    assert_eq!(copy.inputs, "prompt");
    assert_eq!(copy.add_special_tokens, first.add_special_tokens);
    assert_eq!(copy.parameters.seed, Some(3));
    assert_eq!(copy.parameters.top_n_tokens, Some(4));
    assert_eq!(copy.parameters.truncate, None);
}
