//! What holds of every response that the aggregator builds, alone and
//! behind the stream driver.

use crate::aggregate::AggregateState;
use crate::driver::{DriverInputView, DriverState};
use crate::error::InferErrorView;
use crate::stream_laws::{
    action_at, backend_ends, backend_tokens, goes_on, is_initial, last_reported_count,
    law_stream_shape, law_token_count, stream, token_count, StreamItem,
};
use crate::types::StreamEvent;
use vstd::prelude::*;

verus! {

/// What the aggregator holds after the items of a stream, oldest first: it
/// collects events up to the first error, which it hands on.
pub open spec fn collected(start: AggregateState, items: Seq<StreamItem>) -> Result<
    AggregateState,
    InferErrorView,
>
    decreases items.len(),
{
    if items.len() == 0 {
        Ok(start)
    } else {
        match collected(start, items.drop_last()) {
            Ok(state) => match items.last() {
                Ok(event) => Ok(state.push(event)),
                Err(error) => Err(error),
            },
            Err(error) => Err(error),
        }
    }
}

proof fn lemma_collected(start: AggregateState, items: Seq<StreamItem>)
    requires
        start.wf(),
        forall|i: int| 0 <= i < items.len() ==> (#[trigger] items[i]) is Ok,
    ensures
        collected(start, items) matches Ok(state) && {
            &&& state.wf()
            &&& state.use_top_tokens == start.use_top_tokens
            &&& state.tokens.len() == start.tokens.len() + token_count(items)
            &&& items.len() > 0 ==> (items.last() matches Ok(
                StreamEvent::End { generated_text, .. },
            ) ==> state.generated_text == Some(generated_text))
        },
    decreases items.len(),
{
    if items.len() > 0 {
        lemma_collected(start, items.drop_last());
    }
}

/// Series lengths and top-token gating. However many events the aggregator
/// has collected, and whatever the last counter reading was, a response it
/// builds has one energy entry per token; its top tokens are one list per
/// token if the request asked for them, and none if it did not.
pub proof fn law_series_lengths(
    top_n_tokens: Option<u32>,
    energy_start: u64,
    items: Seq<StreamItem>,
    reading: Result<u64, Seq<char>>,
    input_length: u32,
)
    requires
        collected(AggregateState::initial(top_n_tokens, energy_start), items) is Ok,
    ensures
        ({
            let state = collected(AggregateState::initial(top_n_tokens, energy_start), items)->Ok_0;
            let asked = top_n_tokens matches Some(n) && n > 0;
            &&& state.finish(input_length) matches Ok(response) ==> {
                &&& response.token_energy_consumptions.len() == response.tokens.len()
                &&& asked ==> response.top_tokens.len() == response.tokens.len()
                &&& !asked ==> response.top_tokens.len() == 0
            }
            &&& state.record_energy(reading) matches Ok(closed) ==> (closed.finish(
                input_length,
            ) matches Ok(response) ==> {
                &&& response.token_energy_consumptions.len() == response.tokens.len()
                &&& asked ==> response.top_tokens.len() == response.tokens.len()
                &&& !asked ==> response.top_tokens.len() == 0
            })
        }),
{
    let start = AggregateState::initial(top_n_tokens, energy_start);
    lemma_oks(start, items);
    lemma_collected(start, items);
}

proof fn lemma_oks(start: AggregateState, items: Seq<StreamItem>)
    requires
        collected(start, items) is Ok,
    ensures
        forall|i: int| 0 <= i < items.len() ==> (#[trigger] items[i]) is Ok,
    decreases items.len(),
{
    if items.len() > 0 {
        lemma_oks(start, items.drop_last());
        assert forall|i: int| 0 <= i < items.len() implies (#[trigger] items[i]) is Ok by {
            if i < items.len() - 1 {
                assert(items.drop_last()[i] == items[i]);
            }
        }
    }
}

/// The first error of a stream is what aggregation answers with.
pub proof fn law_first_error_surfaces(start: AggregateState, items: Seq<StreamItem>, at: int)
    requires
        0 <= at < items.len(),
        items[at] is Err,
        forall|i: int| 0 <= i < at ==> (#[trigger] items[i]) is Ok,
    ensures
        collected(start, items) == Err::<AggregateState, InferErrorView>(items[at]->Err_0),
    decreases items.len(),
{
    if at < items.len() - 1 {
        law_first_error_surfaces(start, items.drop_last(), at);
    } else {
        let before = items.drop_last();
        lemma_collected_ok(start, before);
    }
}

proof fn lemma_collected_ok(start: AggregateState, items: Seq<StreamItem>)
    requires
        forall|i: int| 0 <= i < items.len() ==> (#[trigger] items[i]) is Ok,
    ensures
        collected(start, items) is Ok,
    decreases items.len(),
{
    if items.len() > 0 {
        lemma_collected_ok(start, items.drop_last());
    }
}

/// Token count of a response. Whenever a run of the driver from its
/// initial state yields its final event, the response that the aggregator
/// builds from the stream up to that event reports as many generated
/// tokens as it holds, whatever the last counter reading was. Where the
/// backend ended one segment only, the count is the backend's own, and the
/// law holds if the backend reported as many tokens as it delivered.
pub proof fn law_response_token_count(
    start: DriverState,
    inputs: Seq<DriverInputView>,
    n: int,
    top_n_tokens: Option<u32>,
    energy_start: u64,
    reading: Result<u64, Seq<char>>,
    input_length: u32,
)
    requires
        is_initial(start),
        0 <= n < inputs.len(),
        action_at(start, inputs, n) is Finish,
        backend_ends(inputs.take(n)) == 1 ==> last_reported_count(inputs.take(n))
            == backend_tokens(inputs.take(n)),
    ensures
        collected(
            AggregateState::initial(top_n_tokens, energy_start),
            stream(start, inputs.take(n + 1)),
        ) matches Ok(state) && {
            &&& state.finish(input_length) matches Ok(response)
                && response.generated_text.generated_tokens == response.tokens.len()
            &&& state.record_energy(reading) matches Ok(closed) ==> closed.finish(
                input_length,
            ) matches Ok(response) && response.generated_text.generated_tokens
                == response.tokens.len()
        },
{
    let items = stream(start, inputs.take(n + 1));
    let prefix = inputs.take(n + 1);
    law_token_count(start, inputs, n);
    law_stream_shape(start, prefix);
    assert(prefix.take(n) =~= inputs.take(n));
    assert(prefix[n] == inputs[n]);
    assert(action_at(start, prefix, n) == action_at(start, inputs, n));
    assert(prefix.drop_last() =~= inputs.take(n));
    assert(items.len() > 0);
    assert(items.last() is Ok);
    assert forall|i: int| 0 <= i < items.len() implies (#[trigger] items[i]) is Ok by {
        if i < items.len() - 1 {
            assert(goes_on(items[i]));
        }
    }
    lemma_collected(AggregateState::initial(top_n_tokens, energy_start), items);
}

} // verus!
