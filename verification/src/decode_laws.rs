//! What a decoding loop does as a whole.
use crate::action::{ActionView, Slot};
use crate::decoder::{DecodePhase, DecodeView};
use crate::tensor::{FloatTensorView, IntTensorView};
use vstd::prelude::*;

verus! {

/// What one run of the decoder returns.
pub struct StepOutcome {
    pub logits: FloatTensorView,
    pub hidden_states: FloatTensorView,
}

impl StepOutcome {
    /// The token that the run predicts.
    pub open spec fn token(self) -> i64 {
        self.logits.greedy_token()
    }
}

/// The tokens that a list of runs predicts.
pub open spec fn predictions(outcomes: Seq<StepOutcome>) -> Seq<i64> {
    outcomes.map_values(|o: StepOutcome| o.token())
}

/// The predictions before the first `eos_id`, and at most `limit` of them.
pub open spec fn generated(predicted: Seq<i64>, eos_id: i64, limit: nat) -> Seq<i64>
    decreases limit,
{
    if limit == 0 || predicted.len() == 0 || predicted[0] == eos_id {
        seq![]
    } else {
        seq![predicted[0]] + generated(predicted.drop_first(), eos_id, (limit - 1) as nat)
    }
}

impl DecodeView {
    /// A loop whose empty cache has been created.
    pub open spec fn begun(
        prompt_tokens: Seq<i64>,
        eos_id: i64,
        max_sequence_length: usize,
        num_layers: usize,
        hidden_dim: usize,
    ) -> DecodeView {
        DecodeView::start(prompt_tokens, eos_id, max_sequence_length).after_shape(
            num_layers,
            hidden_dim,
        ).after_created()
    }

    /// The loop after one more run, where a run is due.
    pub open spec fn after_step(self, outcome: StepOutcome) -> DecodeView {
        if self.phase == DecodePhase::CreateInputIds {
            let scored = self.after_created().after_run().after_float(outcome.logits);
            if scored.phase == DecodePhase::Finished {
                scored
            } else {
                scored.after_float(outcome.hidden_states).after_created()
            }
        } else {
            self
        }
    }

    /// The loop after a list of runs, or after as many of them as it wants.
    pub open spec fn after_steps(self, outcomes: Seq<StepOutcome>) -> DecodeView
        decreases outcomes.len(),
    {
        if outcomes.len() == 0 {
            self
        } else {
            self.after_step(outcomes[0]).after_steps(outcomes.drop_first())
        }
    }
}

/// A finished loop stays as it is.
proof fn lemma_finished_stays(v: DecodeView, outcomes: Seq<StepOutcome>)
    requires
        v.phase == DecodePhase::Finished,
    ensures
        v.after_steps(outcomes) == v,
    decreases outcomes.len(),
{
    if outcomes.len() > 0 {
        lemma_finished_stays(v, outcomes.drop_first());
    }
}

proof fn lemma_after_steps(v: DecodeView, outcomes: Seq<StepOutcome>)
    requires
        v.wf(),
        v.phase == DecodePhase::CreateInputIds || (v.phase == DecodePhase::Finished && v.step
            == v.max_sequence_length),
    ensures
        v.after_steps(outcomes).wf(),
        v.after_steps(outcomes).tokens == v.tokens + generated(
            predictions(outcomes),
            v.eos_id,
            (v.max_sequence_length - v.step) as nat,
        ),
        v.after_steps(outcomes).phase == DecodePhase::CreateInputIds || v.after_steps(
            outcomes,
        ).phase == DecodePhase::Finished,
        v.after_steps(outcomes).phase == DecodePhase::Finished <==> outcomes.len()
            >= v.max_sequence_length - v.step || predictions(outcomes).contains(v.eos_id),
    decreases outcomes.len(),
{
    let p = predictions(outcomes);
    let limit = (v.max_sequence_length - v.step) as nat;
    if v.phase == DecodePhase::Finished {
        lemma_finished_stays(v, outcomes);
    } else if outcomes.len() > 0 {
        let o = outcomes[0];
        let rest = outcomes.drop_first();
        let next = v.after_step(o);
        assert(p[0] == o.token());
        assert(predictions(rest) =~= p.drop_first());
        if o.token() == v.eos_id {
            lemma_finished_stays(next, rest);
            assert(p.contains(v.eos_id));
        } else {
            assert(next.tokens == v.tokens.push(o.token()));
            assert(next.step == v.step + 1);
            lemma_after_steps(next, rest);
            assert(next.tokens + generated(p.drop_first(), v.eos_id, (limit - 1) as nat)
                =~= v.tokens + generated(p, v.eos_id, limit));
            assert(p.contains(v.eos_id) <==> p.drop_first().contains(v.eos_id)) by {
                if p.contains(v.eos_id) {
                    let i = choose|i: int| 0 <= i < p.len() && p[i] == v.eos_id;
                    assert(p.drop_first()[i - 1] == v.eos_id);
                }
                if p.drop_first().contains(v.eos_id) {
                    let i = choose|i: int|
                        0 <= i < p.drop_first().len() && p.drop_first()[i] == v.eos_id;
                    assert(p[i + 1] == v.eos_id);
                }
            }
        }
    } else {
        assert(v.tokens + generated(p, v.eos_id, limit) =~= v.tokens);
    }
}

/// The output of a loop is the prompt followed by the predictions before the
/// first end-of-sequence token, at most `max_sequence_length` of them; the
/// loop is finished exactly when that token was predicted or the limit is
/// reached.
pub proof fn law_decode_output(
    prompt_tokens: Seq<i64>,
    eos_id: i64,
    max_sequence_length: usize,
    num_layers: usize,
    hidden_dim: usize,
    outcomes: Seq<StepOutcome>,
)
    ensures
        ({
            let end = DecodeView::begun(
                prompt_tokens,
                eos_id,
                max_sequence_length,
                num_layers,
                hidden_dim,
            ).after_steps(outcomes);
            &&& end.tokens == prompt_tokens + generated(
                predictions(outcomes),
                eos_id,
                max_sequence_length as nat,
            )
            &&& end.phase == DecodePhase::Finished <==> outcomes.len() >= max_sequence_length
                || predictions(outcomes).contains(eos_id)
            &&& end.phase == DecodePhase::Finished ==> end.action()
                == (ActionView::Detokenize { tokens: end.tokens })
            &&& end.phase != DecodePhase::Finished ==> end.phase == DecodePhase::CreateInputIds
        }),
{
    lemma_after_steps(
        DecodeView::begun(prompt_tokens, eos_id, max_sequence_length, num_layers, hidden_dim),
        outcomes,
    );
}

/// No more tokens are generated than the limit allows, none of them is the
/// end-of-sequence token, and they are a prefix of the predictions.
pub proof fn law_generated(predicted: Seq<i64>, eos_id: i64, limit: nat)
    ensures
        generated(predicted, eos_id, limit).len() <= limit,
        generated(predicted, eos_id, limit).is_prefix_of(predicted),
        !generated(predicted, eos_id, limit).contains(eos_id),
        ({
            let n = generated(predicted, eos_id, limit).len();
            n == limit || n == predicted.len() || predicted[n as int] == eos_id
        }),
    decreases limit,
{
    let g = generated(predicted, eos_id, limit);
    if limit == 0 || predicted.len() == 0 || predicted[0] == eos_id {
    } else {
        let rest = generated(predicted.drop_first(), eos_id, (limit - 1) as nat);
        law_generated(predicted.drop_first(), eos_id, (limit - 1) as nat);
        assert(g =~= seq![predicted[0]] + rest);
        assert forall|i: int| 0 <= i < g.len() implies g[i] == predicted[i] && g[i] != eos_id by {
            if i > 0 {
                assert(g[i] == rest[i - 1]);
                assert(rest[i - 1] == predicted.drop_first()[i - 1]);
                assert(rest.contains(rest[i - 1]));
            }
        }
        assert(g =~= predicted.take(g.len() as int));
        if rest.len() < predicted.drop_first().len() {
            assert(predicted.drop_first()[rest.len() as int] == predicted[g.len() as int]);
        }
    }
}

/// The first thing a loop does, once it has the dimensions of the cache, is to
/// create a cache `[num_layers, 1, 0, hidden_dim]`, which has nothing in it.
pub proof fn law_cache_starts_empty(
    prompt_tokens: Seq<i64>,
    eos_id: i64,
    max_sequence_length: usize,
    num_layers: usize,
    hidden_dim: usize,
)
    ensures
        DecodeView::start(prompt_tokens, eos_id, max_sequence_length).action()
            == ActionView::InspectDecoder,
        DecodeView::start(prompt_tokens, eos_id, max_sequence_length).after_shape(
            num_layers,
            hidden_dim,
        ).action() == (ActionView::CreateEmpty {
            slot: Slot::DecoderMems,
            shape: seq![num_layers, 1, 0, hidden_dim],
        }),
{
}

/// On the first step the full prompt is fed.
pub proof fn law_first_step_feeds_prompt(
    prompt_tokens: Seq<i64>,
    eos_id: i64,
    max_sequence_length: usize,
    num_layers: usize,
    hidden_dim: usize,
)
    requires
        max_sequence_length > 0,
    ensures
        DecodeView::begun(
            prompt_tokens,
            eos_id,
            max_sequence_length,
            num_layers,
            hidden_dim,
        ).action() == (ActionView::CreateInt {
            slot: Slot::InputIds,
            ints: IntTensorView {
                shape: seq![1i64, prompt_tokens.len() as i64],
                data: prompt_tokens,
            },
        }),
{
}

/// On every later step only the last predicted token is fed, together with a
/// cache that holds exactly the hidden states of the run before.
pub proof fn law_later_steps_feed_last_token(v: DecodeView, outcome: StepOutcome)
    requires
        v.wf(),
        v.phase == DecodePhase::CreateInputIds,
        outcome.token() != v.eos_id,
        v.step + 1 < v.max_sequence_length,
    ensures
        v.after_step(outcome).action() == (ActionView::CreateInt {
            slot: Slot::InputIds,
            ints: IntTensorView { shape: seq![1i64, 1i64], data: seq![outcome.token()] },
        }),
        v.after_created().after_run().after_float(outcome.logits).after_float(
            outcome.hidden_states,
        ).action() == (ActionView::CreateFloat {
            slot: Slot::DecoderMems,
            floats: outcome.hidden_states,
        }),
{
    let next = v.after_step(outcome);
    assert(next.tokens == v.tokens.push(outcome.token()));
    assert(next.tokens.last() == outcome.token());
}

/// After any number of runs, if another one is due, it is fed the token that
/// the last run predicted and nothing before it, and its cache was made of the
/// hidden states that the last run returned.
pub proof fn law_every_later_run_continues_the_last(
    prompt_tokens: Seq<i64>,
    eos_id: i64,
    max_sequence_length: usize,
    num_layers: usize,
    hidden_dim: usize,
    outcomes: Seq<StepOutcome>,
)
    requires
        0 < outcomes.len() < max_sequence_length,
        !predictions(outcomes).contains(eos_id),
    ensures
        ({
            let v = DecodeView::begun(
                prompt_tokens,
                eos_id,
                max_sequence_length,
                num_layers,
                hidden_dim,
            ).after_steps(outcomes);
            &&& v.action() == ActionView::CreateInt {
                slot: Slot::InputIds,
                ints: IntTensorView {
                    shape: seq![1i64, 1i64],
                    data: seq![outcomes.last().token()],
                },
            }
            &&& v.mems == outcomes.last().hidden_states
        }),
{
    let begun = DecodeView::begun(
        prompt_tokens,
        eos_id,
        max_sequence_length,
        num_layers,
        hidden_dim,
    );
    let init = outcomes.drop_last();
    let last = outcomes.last();
    let p = predictions(outcomes);
    assert(p[outcomes.len() - 1] == last.token());
    assert(predictions(init) =~= p.drop_last());
    assert forall|i: int| 0 <= i < p.drop_last().len() implies p.drop_last()[i] != eos_id by {
        assert(p[i] == p.drop_last()[i]);
    }
    law_decode_output(
        prompt_tokens,
        eos_id,
        max_sequence_length,
        num_layers,
        hidden_dim,
        init,
    );
    law_decode_output(
        prompt_tokens,
        eos_id,
        max_sequence_length,
        num_layers,
        hidden_dim,
        outcomes,
    );
    assert(outcomes =~= init + seq![last]);
    lemma_after_steps_concat(begun, init, seq![last]);
    let before = begun.after_steps(init);
    assert(seq![last].drop_first() =~= seq![]);
    assert(before.after_steps(seq![last]) == before.after_step(last)) by {
        reveal_with_fuel(DecodeView::after_steps, 2);
    }
    lemma_after_steps(begun, init);
    law_later_steps_feed_last_token(before, last);
}

/// Decoding leaves the encoder's outputs alone: the only tensors it creates
/// are its cache and the tokens it feeds.
pub proof fn law_decoding_keeps_encoder_slots(v: DecodeView)
    ensures
        v.action() is CreateFloat ==> v.action()->CreateFloat_slot == Slot::DecoderMems,
        v.action() is CreateInt ==> v.action()->CreateInt_slot == Slot::InputIds,
        v.action() is CreateEmpty ==> v.action()->CreateEmpty_slot == Slot::DecoderMems,
{
}

/// After a failure nothing is due: no run follows, and no text is made of the
/// tokens that were predicted before.
pub proof fn law_failed_decoding_stops(v: DecodeView)
    ensures
        v.failed().action() == ActionView::Stopped,
{
}

/// A loop with a limit of zero runs nothing: its output is the prompt.
pub proof fn law_no_runs_at_limit_zero(
    prompt_tokens: Seq<i64>,
    eos_id: i64,
    num_layers: usize,
    hidden_dim: usize,
)
    ensures
        DecodeView::begun(prompt_tokens, eos_id, 0, num_layers, hidden_dim).action()
            == (ActionView::Detokenize { tokens: prompt_tokens }),
{
}

/// Predictions after the first end-of-sequence token change nothing.
pub proof fn law_nothing_after_eos(
    prompt_tokens: Seq<i64>,
    eos_id: i64,
    max_sequence_length: usize,
    num_layers: usize,
    hidden_dim: usize,
    outcomes: Seq<StepOutcome>,
    more: Seq<StepOutcome>,
)
    requires
        predictions(outcomes).contains(eos_id),
    ensures
        ({
            let v = DecodeView::begun(
                prompt_tokens,
                eos_id,
                max_sequence_length,
                num_layers,
                hidden_dim,
            );
            v.after_steps(outcomes + more) == v.after_steps(outcomes)
        }),
{
    let v = DecodeView::begun(
        prompt_tokens,
        eos_id,
        max_sequence_length,
        num_layers,
        hidden_dim,
    );
    law_decode_output(
        prompt_tokens,
        eos_id,
        max_sequence_length,
        num_layers,
        hidden_dim,
        outcomes,
    );
    lemma_after_steps_concat(v, outcomes, more);
    lemma_finished_stays(v.after_steps(outcomes), more);
}

/// Runs can be taken in two parts.
proof fn lemma_after_steps_concat(
    v: DecodeView,
    first: Seq<StepOutcome>,
    second: Seq<StepOutcome>,
)
    ensures
        v.after_steps(first + second) == v.after_steps(first).after_steps(second),
    decreases first.len(),
{
    if first.len() == 0 {
        assert(first + second =~= second);
    } else {
        assert((first + second).drop_first() =~= first.drop_first() + second);
        lemma_after_steps_concat(v.after_step(first[0]), first.drop_first(), second);
    }
}

} // verus!
