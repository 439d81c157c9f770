//! What holds of request validation and of stream translation on every
//! input.

use vstd::prelude::*;

use crate::llm::{
    advanced, fresh, model_is, supports, token_refusal, validate, workload_is, yielded,
    BuildErrorView, LlmErrorView, LlmRequestView, StreamEventView, TranslatorState,
};
use crate::seqs::{find_first, is_first, lemma_find_first_none};
use crate::orch_client::{SnapshotRules, StreamEvent, WorkloadKind};

verus! {

/// A model identifier that no entry of the snapshot carries is refused as
/// unknown, whatever workload and token ceiling go with it.
pub proof fn lemma_unknown_model_is_refused(
    snapshot: SnapshotRules,
    id: Seq<char>,
    workload: Option<WorkloadKind>,
    max_tokens: Option<u32>,
)
    requires
        forall|i: int| 0 <= i < snapshot.models.len() ==> snapshot.models[i].id != id,
    ensures
        validate(snapshot, Some(id), workload, max_tokens) == Err::<
            LlmRequestView,
            BuildErrorView,
        >(BuildErrorView::UnknownModel { model: id }),
{
    assert forall|k: int| 0 <= k < snapshot.models.len() implies !model_is(id)(
        #[trigger] snapshot.models[k],
    ) by {}
    lemma_find_first_none(snapshot.models, model_is(id));
}

/// An accepted request names a model of the snapshot and a workload of the
/// snapshot that lists this model.
pub proof fn lemma_accepted_request_is_supported(
    snapshot: SnapshotRules,
    model: Option<Seq<char>>,
    workload: Option<WorkloadKind>,
    max_tokens: Option<u32>,
)
    requires
        validate(snapshot, model, workload, max_tokens) is Ok,
    ensures
        ({
            let request = validate(snapshot, model, workload, max_tokens)->Ok_0;
            &&& model == Some(request.model)
            &&& workload is Some ==> workload == Some(request.workload)
            &&& request.max_tokens == max_tokens
            &&& exists|i: int|
                0 <= i < snapshot.models.len() && #[trigger] snapshot.models[i].id == request.model
            &&& exists|j: int|
                {
                    &&& 0 <= j < snapshot.workloads.len()
                    &&& (#[trigger] snapshot.workloads[j]).workload == request.workload
                    &&& snapshot.workloads[j].supported_models.contains(request.model)
                }
        }),
{
}

/// A token ceiling that passes is positive and within the tighter of the
/// model's limit and the global limit, as far as each is declared.
pub proof fn lemma_accepted_tokens_within_both_limits(
    requested: u32,
    model_limit: Option<u32>,
    global_limit: Option<u32>,
    model: Seq<char>,
)
    ensures
        token_refusal(Some(requested), model_limit, global_limit, model) is None <==> {
            &&& requested > 0
            &&& model_limit is Some ==> requested <= model_limit->0
            &&& global_limit is Some ==> requested <= global_limit->0
        },
{
}

/// A ceiling above the model's limit is refused in the model's name, also
/// where it is above the global limit as well.
pub proof fn lemma_model_limit_is_held_first(
    requested: u32,
    model_limit: u32,
    global_limit: Option<u32>,
    model: Seq<char>,
)
    requires
        requested > model_limit,
    ensures
        token_refusal(Some(requested), Some(model_limit), global_limit, model) == Some(
            BuildErrorView::TokenLimitExceededForModel { requested, limit: model_limit, model },
        ),
{
}

/// A request that validation accepts keeps its token ceiling within the
/// limit of the first model entry that carries its identifier and within the
/// snapshot's global limit.
pub proof fn lemma_accepted_request_respects_limits(
    snapshot: SnapshotRules,
    model: Option<Seq<char>>,
    workload: Option<WorkloadKind>,
    max_tokens: Option<u32>,
)
    requires
        validate(snapshot, model, workload, max_tokens) is Ok,
        max_tokens is Some,
    ensures
        ({
            let entry = snapshot.models[find_first(snapshot.models, model_is(model->0))->0];
            &&& max_tokens->0 > 0
            &&& entry.max_tokens_out is Some ==> max_tokens->0 <= entry.max_tokens_out->0
            &&& snapshot.max_tokens_out is Some ==> max_tokens->0 <= snapshot.max_tokens_out->0
        }),
{
}

/// Whether a raw event ends its stream.
pub open spec fn is_terminal(raw: StreamEvent) -> bool {
    raw is End || raw is Error
}

/// The state of a translator that started in `state` and was handed `raws`
/// in order.
pub open spec fn state_after(state: TranslatorState, raws: Seq<StreamEvent>) -> TranslatorState
    decreases raws.len(),
{
    if raws.len() == 0 {
        state
    } else {
        advanced(state_after(state, raws.drop_last()), raws.last())
    }
}

/// The items a translator that started in `state` hands out for `raws`.
pub open spec fn translated(state: TranslatorState, raws: Seq<StreamEvent>) -> Seq<
    Result<StreamEventView, LlmErrorView>,
>
    decreases raws.len(),
{
    if raws.len() == 0 {
        Seq::empty()
    } else {
        let before = translated(state, raws.drop_last());
        match yielded(state_after(state, raws.drop_last()), raws.last()) {
            Some(item) => before.push(item),
            None => before,
        }
    }
}

/// The number of tokens among `raws`.
pub open spec fn token_count(raws: Seq<StreamEvent>) -> nat
    decreases raws.len(),
{
    if raws.len() == 0 {
        0
    } else {
        token_count(raws.drop_last()) + if raws.last() is Token {
            1nat
        } else {
            0nat
        }
    }
}

/// While no terminal event has come, every raw event yields one item, at
/// its own position, and a token's index is the number of tokens before it.
pub proof fn lemma_running_stream(raws: Seq<StreamEvent>)
    requires
        forall|j: int| 0 <= j < raws.len() ==> !is_terminal(#[trigger] raws[j]),
    ensures
        state_after(fresh(), raws) == (TranslatorState {
            next_token_index: token_count(raws),
            finished: false,
        }),
        translated(fresh(), raws).len() == raws.len(),
        forall|j: int|
            0 <= j < raws.len() ==> Some(#[trigger] translated(fresh(), raws)[j]) == yielded(
                TranslatorState { next_token_index: token_count(raws.take(j)), finished: false },
                raws[j],
            ),
    decreases raws.len(),
{
    if raws.len() > 0 {
        let front = raws.drop_last();
        lemma_running_stream(front);
        assert forall|j: int| 0 <= j < raws.len() implies Some(
            #[trigger] translated(fresh(), raws)[j],
        ) == yielded(
            TranslatorState { next_token_index: token_count(raws.take(j)), finished: false },
            raws[j],
        ) by {
            if j < front.len() {
                assert(front.take(j) == raws.take(j));
            }
        }
    }
}

/// A finished translator hands out nothing more and stays as it is,
/// whatever it is handed.
pub proof fn lemma_finished_stream_is_silent(state: TranslatorState, raws: Seq<StreamEvent>)
    requires
        state.finished,
    ensures
        state_after(state, raws) == state,
        translated(state, raws) == Seq::<Result<StreamEventView, LlmErrorView>>::empty(),
    decreases raws.len(),
{
    if raws.len() > 0 {
        lemma_finished_stream_is_silent(state, raws.drop_last());
    }
}

/// Handing a translator `front` and then `back` is handing it both in one
/// go.
pub proof fn lemma_translated_in_two_parts(
    state: TranslatorState,
    front: Seq<StreamEvent>,
    back: Seq<StreamEvent>,
)
    ensures
        state_after(state, front + back) == state_after(state_after(state, front), back),
        translated(state, front + back) == translated(state, front) + translated(
            state_after(state, front),
            back,
        ),
    decreases back.len(),
{
    if back.len() > 0 {
        lemma_translated_in_two_parts(state, front, back.drop_last());
        assert((front + back).drop_last() == front + back.drop_last());
    }
}

/// A stream ends with its first `End` or `Error`: what was sent before it is
/// translated item for item, the terminal event yields the last item, and
/// nothing that the source sends afterwards yields anything.
pub proof fn lemma_stream_ends_at_first_terminal(raws: Seq<StreamEvent>, k: int)
    requires
        0 <= k < raws.len(),
        is_terminal(raws[k]),
        forall|j: int| 0 <= j < k ==> !is_terminal(#[trigger] raws[j]),
    ensures
        translated(fresh(), raws) == translated(fresh(), raws.take(k + 1)),
        translated(fresh(), raws).len() == k + 1,
        translated(fresh(), raws).take(k) == translated(fresh(), raws.take(k)),
        Some(translated(fresh(), raws)[k]) == yielded(
            TranslatorState { next_token_index: token_count(raws.take(k)), finished: false },
            raws[k],
        ),
        state_after(fresh(), raws).finished,
{
    let head = raws.take(k);
    let upto = raws.take(k + 1);
    let rest = raws.skip(k + 1);
    assert(raws == upto + rest);
    assert(upto.drop_last() == head);
    assert forall|j: int| 0 <= j < head.len() implies !is_terminal(#[trigger] head[j]) by {}
    lemma_running_stream(head);
    lemma_translated_in_two_parts(fresh(), upto, rest);
    lemma_finished_stream_is_silent(state_after(fresh(), upto), rest);
}

} // verus!
