//! What holds of every stream that the driver produces, whatever the
//! backend, the validator and the energy counter hand to it.
//!
//! A run is a sequence of inputs given to a driver in its initial state.
//! The laws speak of the stream that the run yields: the events and the
//! error that the driver asks its caller to hand on, in order.

use crate::driver::{DriverActionView, DriverInputView, DriverState};
use crate::error::InferErrorView;
use crate::types::{GenerateRequestView, StreamEvent, ValidGenerateRequestView};
use vstd::prelude::*;

verus! {

/// One item of the stream that the caller sees.
pub type StreamItem = Result<StreamEvent, InferErrorView>;

/// The state of a driver that started in `start` and has taken `inputs`,
/// oldest first.
pub open spec fn state_after(start: DriverState, inputs: Seq<DriverInputView>) -> DriverState
    decreases inputs.len(),
{
    if inputs.len() == 0 {
        start
    } else {
        state_after(start, inputs.drop_last()).step(inputs.last()).state
    }
}

/// The action with which the driver answers input `i` of `inputs`.
pub open spec fn action_at(start: DriverState, inputs: Seq<DriverInputView>, i: int)
    -> DriverActionView {
    state_after(start, inputs.take(i)).step(inputs[i]).action
}

/// The item that an action puts on the stream, if any.
pub open spec fn yielded(action: DriverActionView) -> Option<StreamItem> {
    match action {
        DriverActionView::Emit(event) => Some(Ok(event)),
        DriverActionView::Finish(event) => Some(Ok(event)),
        DriverActionView::Fail(error) => Some(Err(error)),
        _ => None,
    }
}

/// The stream that a driver yields which started in `start` and has taken
/// `inputs`.
pub open spec fn stream(start: DriverState, inputs: Seq<DriverInputView>) -> Seq<StreamItem>
    decreases inputs.len(),
{
    if inputs.len() == 0 {
        Seq::empty()
    } else {
        let before = stream(start, inputs.drop_last());
        match yielded(state_after(start, inputs.drop_last()).step(inputs.last()).action) {
            Some(item) => before.push(item),
            None => before,
        }
    }
}

/// Whether the driver is in the state in which a request starts.
pub open spec fn is_initial(start: DriverState) -> bool {
    exists|request: GenerateRequestView, valid: ValidGenerateRequestView, energy_start: u64|
        start == DriverState::initial(request, valid, energy_start)
}

/// An item after which the stream goes on: a prefill or an intermediate
/// event.
pub open spec fn goes_on(item: StreamItem) -> bool {
    item matches Ok(event) && !(event is End)
}

/// Whether the item is a prefill.
pub open spec fn is_prefill(item: StreamItem) -> bool {
    item matches Ok(event) && event is Prefill
}

/// Whether the item is an event with a generated token.
pub open spec fn has_token(item: StreamItem) -> bool {
    item matches Ok(event) && event.has_token()
}

/// The cumulative energy that an item with a token reports.
pub open spec fn energy_of(item: StreamItem) -> nat {
    match item {
        Ok(event) => event.energy(),
        Err(_) => 0,
    }
}

/// Only the last item of the stream may be a final event or an error.
pub open spec fn ends_at_most_once(items: Seq<StreamItem>) -> bool {
    forall|i: int| 0 <= i < items.len() - 1 ==> goes_on(#[trigger] items[i])
}

/// A prefill, if there is one, is the first item.
pub open spec fn prefill_leads(items: Seq<StreamItem>) -> bool {
    forall|i: int| 0 <= i < items.len() && is_prefill(#[trigger] items[i]) ==> i == 0
}

/// Whether the input is a prefill from the backend.
pub open spec fn is_prefill_input(input: DriverInputView) -> bool {
    input matches DriverInputView::Backend(Ok(event)) && event is Prefill
}

/// The backend sends a prefill only as the first thing of all.
pub open spec fn prefill_only_first(inputs: Seq<DriverInputView>) -> bool {
    forall|i: int| 0 <= i < inputs.len() && is_prefill_input(#[trigger] inputs[i]) ==> i == 0
}

/// The energies that the events with a token report never decrease.
pub open spec fn energies_never_decrease(items: Seq<StreamItem>) -> bool {
    forall|i: int, j: int|
        0 <= i <= j < items.len() && has_token(#[trigger] items[i]) && has_token(
            #[trigger] items[j],
        ) ==> energy_of(items[i]) <= energy_of(items[j])
}

/// The text of the segment that an input ends, empty if it ends none.
pub open spec fn segment_text(input: DriverInputView) -> Seq<char> {
    match input {
        DriverInputView::Backend(Ok(StreamEvent::End { generated_text, .. })) => generated_text.text,
        _ => Seq::empty(),
    }
}

/// The texts of all segments that the backend has ended, joined in order.
pub open spec fn segment_texts(inputs: Seq<DriverInputView>) -> Seq<char>
    decreases inputs.len(),
{
    if inputs.len() == 0 {
        Seq::empty()
    } else {
        segment_texts(inputs.drop_last()) + segment_text(inputs.last())
    }
}

/// Whether the input is a backend event with a generated token.
pub open spec fn is_token_input(input: DriverInputView) -> bool {
    input matches DriverInputView::Backend(Ok(event)) && event.has_token()
}

/// Whether the input is the final event of a backend segment.
pub open spec fn is_end_input(input: DriverInputView) -> bool {
    input matches DriverInputView::Backend(Ok(event)) && event is End
}

/// How many events with a token the backend has delivered.
pub open spec fn backend_tokens(inputs: Seq<DriverInputView>) -> nat
    decreases inputs.len(),
{
    if inputs.len() == 0 {
        0
    } else {
        backend_tokens(inputs.drop_last()) + if is_token_input(inputs.last()) {
            1nat
        } else {
            0nat
        }
    }
}

/// How many segments the backend has ended.
pub open spec fn backend_ends(inputs: Seq<DriverInputView>) -> nat
    decreases inputs.len(),
{
    if inputs.len() == 0 {
        0
    } else {
        backend_ends(inputs.drop_last()) + if is_end_input(inputs.last()) {
            1nat
        } else {
            0nat
        }
    }
}

/// The token count that the backend reported with the segment it ended
/// last.
pub open spec fn last_reported_count(inputs: Seq<DriverInputView>) -> u32
    decreases inputs.len(),
{
    if inputs.len() == 0 {
        0
    } else {
        match inputs.last() {
            DriverInputView::Backend(Ok(StreamEvent::End { generated_text, .. })) => {
                generated_text.generated_tokens
            },
            _ => last_reported_count(inputs.drop_last()),
        }
    }
}

/// How many items of the stream carry a generated token.
pub open spec fn token_count(items: Seq<StreamItem>) -> nat
    decreases items.len(),
{
    if items.len() == 0 {
        0
    } else {
        token_count(items.drop_last()) + if has_token(items.last()) {
            1nat
        } else {
            0nat
        }
    }
}

/// The text generated over the segments that have ended.
pub open spec fn text_so_far(state: DriverState) -> Seq<char> {
    match state.accumulated {
        Some(all) => all.text,
        None => Seq::empty(),
    }
}

/// Whether the driver holds a token that it has counted and not yet
/// yielded.
pub open spec fn holds_token(state: DriverState) -> bool {
    state.phase is StepEnergy || state.phase is Validating || state.phase is Scheduling
        || state.phase is FinalEnergy
}

/// Whether the driver has taken the final event of a segment and not yet
/// answered it with an event of its own.
pub open spec fn holds_end(state: DriverState) -> bool {
    state.phase is Validating || state.phase is Scheduling || state.phase is FinalEnergy
}

proof fn lemma_unfold(start: DriverState, inputs: Seq<DriverInputView>, n: int)
    requires
        0 <= n < inputs.len(),
    ensures
        inputs.take(n + 1).drop_last() == inputs.take(n),
        inputs.take(n + 1).last() == inputs[n],
        inputs.take(inputs.len() as int) == inputs,
        state_after(start, inputs.take(n + 1)) == state_after(start, inputs.take(n)).step(
            inputs[n],
        ).state,
        stream(start, inputs.take(n + 1)) == (match yielded(action_at(start, inputs, n)) {
            Some(item) => stream(start, inputs.take(n)).push(item),
            None => stream(start, inputs.take(n)),
        }),
{
    assert(inputs.take(n + 1).drop_last() =~= inputs.take(n));
    assert(inputs.take(inputs.len() as int) =~= inputs);
}

proof fn lemma_token_count_push(items: Seq<StreamItem>, item: StreamItem)
    ensures
        token_count(items.push(item)) == token_count(items) + if has_token(item) {
            1nat
        } else {
            0nat
        },
{
    assert(items.push(item).drop_last() =~= items);
}

/// The driver's invariant holds after every run, and neither the first
/// counter reading nor the sampling parameters of the working request
/// change.
proof fn lemma_state(start: DriverState, inputs: Seq<DriverInputView>)
    requires
        start.wf(),
    ensures
        state_after(start, inputs).wf(),
        state_after(start, inputs).energy_start == start.energy_start,
        state_after(start, inputs).request.parameters == start.request.parameters,
        state_after(start, inputs).request.add_special_tokens
            == start.request.add_special_tokens,
    decreases inputs.len(),
{
    if inputs.len() > 0 {
        lemma_state(start, inputs.drop_last());
    }
}

proof fn lemma_shape(start: DriverState, inputs: Seq<DriverInputView>)
    requires
        start.phase is Running,
    ensures
        ends_at_most_once(stream(start, inputs)),
        !(state_after(start, inputs).phase is Terminal) ==> forall|i: int|
            0 <= i < stream(start, inputs).len() ==> goes_on(#[trigger] stream(start, inputs)[i]),
        prefill_only_first(inputs) ==> prefill_leads(stream(start, inputs)),
    decreases inputs.len(),
{
    if inputs.len() > 0 {
        let before = inputs.drop_last();
        lemma_shape(start, before);
        assert(forall|i: int| 0 <= i < before.len() ==> before[i] == inputs[i]);
        if prefill_only_first(inputs) && is_prefill_input(inputs.last()) {
            assert(before.len() == 0);
        }
    }
}

proof fn lemma_energy(start: DriverState, inputs: Seq<DriverInputView>)
    requires
        start.wf(),
    ensures
        energies_never_decrease(stream(start, inputs)),
        forall|i: int|
            0 <= i < stream(start, inputs).len() && has_token(#[trigger] stream(start, inputs)[i])
                ==> energy_of(stream(start, inputs)[i]) <= state_after(start, inputs).energy_last
                - start.energy_start,
    decreases inputs.len(),
{
    lemma_state(start, inputs);
    if inputs.len() > 0 {
        lemma_energy(start, inputs.drop_last());
        lemma_state(start, inputs.drop_last());
    }
}

proof fn lemma_text(start: DriverState, inputs: Seq<DriverInputView>)
    requires
        start.wf(),
        start.phase is Running,
        start.accumulated is None,
    ensures
        !(state_after(start, inputs).phase is Terminal) ==> {
            &&& text_so_far(state_after(start, inputs)) == segment_texts(inputs)
            &&& !(state_after(start, inputs).phase is FinalEnergy) ==> state_after(
                start,
                inputs,
            ).request.inputs == start.request.inputs + segment_texts(inputs)
        },
    decreases inputs.len(),
{
    if inputs.len() > 0 {
        lemma_text(start, inputs.drop_last());
        lemma_state(start, inputs.drop_last());
        let told = segment_texts(inputs.drop_last());
        let more = segment_text(inputs.last());
        assert(told + Seq::<char>::empty() =~= told);
        assert(Seq::<char>::empty() + more =~= more);
        assert((start.request.inputs + told) + more =~= start.request.inputs + (told + more));
        assert((start.request.inputs + told) + Seq::<char>::empty() =~= start.request.inputs
            + told);
    } else {
        assert(start.request.inputs + Seq::<char>::empty() =~= start.request.inputs);
    }
}

proof fn lemma_count(start: DriverState, inputs: Seq<DriverInputView>)
    requires
        start.wf(),
        start.phase is Running,
        start.accumulated is None,
        start.total_generated_tokens == 0,
    ensures
        !(state_after(start, inputs).phase is Terminal) ==> {
            let state = state_after(start, inputs);
            &&& state.total_generated_tokens == backend_tokens(inputs)
            &&& token_count(stream(start, inputs)) + (if holds_token(state) {
                1nat
            } else {
                0nat
            }) == state.total_generated_tokens
            &&& (state.accumulated is Some <==> backend_ends(inputs) >= 1)
            &&& holds_end(state) ==> {
                &&& backend_ends(inputs) >= 2 ==> state.accumulated->0.generated_tokens
                    == state.total_generated_tokens
                &&& backend_ends(inputs) == 1 ==> state.accumulated->0.generated_tokens
                    == last_reported_count(inputs)
            }
        },
    decreases inputs.len(),
{
    if inputs.len() > 0 {
        lemma_count(start, inputs.drop_last());
        lemma_state(start, inputs.drop_last());
        let step = state_after(start, inputs.drop_last()).step(inputs.last());
        if let Some(item) = yielded(step.action) {
            lemma_token_count_push(stream(start, inputs.drop_last()), item);
        }
    }
}

/// Stream shape. In the stream of any run from the initial state, only the
/// last item can be a final event or an error: a stream that ends well is
/// prefill and intermediate events followed by one final event, one that
/// fails is such events followed by one error, and nothing follows either.
/// Where the backend sends a prefill only as the first thing of all, a
/// prefill in the stream is its first item.
pub proof fn law_stream_shape(start: DriverState, inputs: Seq<DriverInputView>)
    requires
        is_initial(start),
    ensures
        ends_at_most_once(stream(start, inputs)),
        prefill_only_first(inputs) ==> prefill_leads(stream(start, inputs)),
        forall|i: int|
            0 <= i < inputs.len() ==> match #[trigger] action_at(start, inputs, i) {
                DriverActionView::Emit(event) => !(event is End),
                DriverActionView::Finish(event) => event is End,
                _ => true,
            },
{
    lemma_shape(start, inputs);
}

/// Energy monotonicity. Along the stream of any run from the initial state
/// the energies that the events with a token report never decrease, and
/// the final event reports the last counter reading less the first one.
pub proof fn law_energy_monotone(start: DriverState, inputs: Seq<DriverInputView>)
    requires
        is_initial(start),
    ensures
        energies_never_decrease(stream(start, inputs)),
        forall|i: int|
            0 <= i < inputs.len() ==> (#[trigger] action_at(start, inputs, i) matches DriverActionView::Finish(
                StreamEvent::End { energy_consumption, .. },
            ) ==> inputs[i] matches DriverInputView::Energy(Ok(reading)) && reading
                >= start.energy_start && energy_consumption == Some(
                (reading - start.energy_start) as u64,
            )),
{
    lemma_energy(start, inputs);
    assert forall|i: int| 0 <= i < inputs.len() implies (#[trigger] action_at(start, inputs, i) matches DriverActionView::Finish(
        StreamEvent::End { energy_consumption, .. },
    ) ==> inputs[i] matches DriverInputView::Energy(Ok(reading)) && reading >= start.energy_start
        && energy_consumption == Some((reading - start.energy_start) as u64)) by {
        lemma_state(start, inputs.take(i));
    }
}

/// Continuation transparency. Whenever a run from the initial state yields
/// its final event, the text of that event is the texts of all segments
/// that the backend has ended, joined in order, however many there were.
pub proof fn law_continuation_text(start: DriverState, inputs: Seq<DriverInputView>, n: int)
    requires
        is_initial(start),
        0 <= n < inputs.len(),
        action_at(start, inputs, n) is Finish,
    ensures
        action_at(start, inputs, n) matches DriverActionView::Finish(
            StreamEvent::End { generated_text, .. },
        ) && generated_text.text == segment_texts(inputs.take(n)),
{
    lemma_text(start, inputs.take(n));
    lemma_state(start, inputs.take(n));
}

/// Seed stability and input growth across continuation. Every request that
/// a run from the initial state hands to validation has the seed that the
/// first validation settled on, and for input the caller's input followed
/// by the texts of all segments that the backend has ended.
pub proof fn law_continuation_request(
    request: GenerateRequestView,
    valid: ValidGenerateRequestView,
    energy_start: u64,
    inputs: Seq<DriverInputView>,
    n: int,
)
    requires
        0 <= n < inputs.len(),
        action_at(DriverState::initial(request, valid, energy_start), inputs, n) is Validate,
    ensures
        action_at(
            DriverState::initial(request, valid, energy_start),
            inputs,
            n,
        ) matches DriverActionView::Validate(again) && again.parameters.seed == Some(
            valid.parameters.seed,
        ) && again.parameters.top_n_tokens == request.parameters.top_n_tokens
            && again.parameters.truncate == request.parameters.truncate
            && again.add_special_tokens == request.add_special_tokens && again.inputs
            == request.inputs + segment_texts(inputs.take(n + 1)),
{
    let start = DriverState::initial(request, valid, energy_start);
    lemma_unfold(start, inputs, n);
    lemma_text(start, inputs.take(n + 1));
    lemma_state(start, inputs.take(n + 1));
}

/// Token count. Whenever a run from the initial state yields its final
/// event, the token count of that event is the number of events with a
/// token that the stream holds, the final one included. Where the backend
/// ended one segment only, the count is the backend's own, and the law
/// holds if the backend reported as many tokens as it delivered.
pub proof fn law_token_count(start: DriverState, inputs: Seq<DriverInputView>, n: int)
    requires
        is_initial(start),
        0 <= n < inputs.len(),
        action_at(start, inputs, n) is Finish,
        backend_ends(inputs.take(n)) == 1 ==> last_reported_count(inputs.take(n))
            == backend_tokens(inputs.take(n)),
    ensures
        action_at(start, inputs, n) matches DriverActionView::Finish(
            StreamEvent::End { generated_text, .. },
        ) && generated_text.generated_tokens == token_count(stream(start, inputs.take(n + 1))),
{
    lemma_unfold(start, inputs, n);
    lemma_count(start, inputs.take(n));
    lemma_state(start, inputs.take(n));
    let item = yielded(action_at(start, inputs, n))->0;
    lemma_token_count_push(stream(start, inputs.take(n)), item);
}

} // verus!
