//! What holds of every schedule and of every commit, said of the requests
//! themselves.

use crate::ids::{ReqId, TokenId};
use crate::runtime::sampling::SamplingParams;
use crate::runtime::sched_state::{ReqState, Request, RequestView};
use crate::runtime::scheduler::{
    after_schedule, alive_count, bucket_for, committed, committed_all, decoding_of, first_with_id,
    plan_for, prompt_starts_are_prefix_sums, prompts, waiting_of, BatchPlan, PlanView, Scheduler,
};
use vstd::prelude::*;

verus! {

/// No two requests have the same identifier.
pub open spec fn distinct_ids(s: Seq<RequestView>) -> bool {
    forall|i: int, j: int|
        0 <= i < s.len() && 0 <= j < s.len() && i != j ==> (#[trigger] s[i]).id != (
        #[trigger] s[j]).id
}

/// The requests in this state, in the order in which they came.
pub open spec fn in_state(s: Seq<RequestView>, state: ReqState) -> Seq<RequestView> {
    s.filter(|r: RequestView| r.state == state)
}

/// The requests whose prompt has not been run, in the order in which they came.
pub open spec fn unrun(s: Seq<RequestView>) -> Seq<RequestView> {
    s.filter(|r: RequestView| r.state == ReqState::Queued || r.state == ReqState::Prefilling)
}

proof fn decoding_is_a_filter(s: Seq<RequestView>)
    ensures
        decoding_of(s) == in_state(s, ReqState::Decoding),
    decreases s.len(),
{
    reveal(Seq::filter);
    if s.len() > 0 {
        decoding_is_a_filter(s.drop_last());
    } else {
        assert(decoding_of(s) =~= s);
    }
}

proof fn waiting_is_a_filter(s: Seq<RequestView>)
    ensures
        waiting_of(s) == unrun(s),
    decreases s.len(),
{
    reveal(Seq::filter);
    if s.len() > 0 {
        waiting_is_a_filter(s.drop_last());
    } else {
        assert(waiting_of(s) =~= s);
    }
}

/// The requests that are alive are all but the finished and the aborted ones.
pub proof fn alive_requests_are_counted(s: Seq<RequestView>)
    ensures
        alive_count(s) == s.filter(
            |r: RequestView| r.state != ReqState::Finished && r.state != ReqState::Aborted,
        ).len(),
    decreases s.len(),
{
    reveal(Seq::filter);
    if s.len() > 0 {
        alive_requests_are_counted(s.drop_last());
    }
}

/// What kind of step comes next: a prefill while some prompt has not been run;
/// else a decode while some request decodes and no more than 256 do; else none.
pub proof fn step_kind_follows_the_states(s: Seq<RequestView>)
    requires
        s.len() <= u32::MAX,
    ensures
        plan_for(s) is Prefill <==> exists|i: int|
            0 <= i < s.len() && ((#[trigger] s[i]).state == ReqState::Queued || s[i].state
                == ReqState::Prefilling),
        plan_for(s) is Decode <==> !(plan_for(s) is Prefill) && 0 < in_state(
            s,
            ReqState::Decoding,
        ).len() <= 256,
        plan_for(s) matches PlanView::Decode { bucket, .. } ==> in_state(
            s,
            ReqState::Decoding,
        ).len() <= bucket <= 256,
{
    decoding_is_a_filter(s);
    waiting_is_a_filter(s);
    let p = |r: RequestView| r.state == ReqState::Queued || r.state == ReqState::Prefilling;
    s.lemma_filter_len(|r: RequestView| r.state == ReqState::Decoding);
    assert(usize::MAX >= u32::MAX);
    if s.filter(p).len() > 0 {
        s.lemma_filter_pred(p, 0);
        s.lemma_filter_contains_rev(p, s.filter(p)[0]);
        let k = choose|k: int| 0 <= k < s.len() && s[k] == s.filter(p)[0];
        assert(p(s[k]));
    }
    if exists|i: int|
        0 <= i < s.len() && ((#[trigger] s[i]).state == ReqState::Queued || s[i].state
            == ReqState::Prefilling) {
        let i = choose|i: int|
            0 <= i < s.len() && ((#[trigger] s[i]).state == ReqState::Queued || s[i].state
                == ReqState::Prefilling);
        assert(p(s[i]));
        s.lemma_filter_contains(p, i);
    }
}

/// A decode has one row per decoding request, in the order in which they came.
/// Of prompt and output together, a row holds the length, the position of the
/// last token, and the token that stands at that position.
pub proof fn decode_rows_hold_the_newest_tokens(s: Seq<RequestView>, i: int)
    requires
        plan_for(s) is Decode,
        0 <= i < in_state(s, ReqState::Decoding).len(),
        in_state(s, ReqState::Decoding)[i].prompt.len() > 0,
        in_state(s, ReqState::Decoding)[i].prompt.len() + in_state(
            s,
            ReqState::Decoding,
        )[i].output.len() <= u32::MAX,
    ensures
        ({
            let rows = in_state(s, ReqState::Decoding);
            let r = rows[i];
            let all = r.prompt + r.output;
            plan_for(s) matches PlanView::Decode {
                req_ids,
                last_tokens,
                positions,
                context_lens,
                sampling,
                ..
            } && {
                &&& req_ids.len() == rows.len()
                &&& last_tokens.len() == rows.len()
                &&& positions.len() == rows.len()
                &&& context_lens.len() == rows.len()
                &&& sampling.len() == rows.len()
                &&& req_ids[i] == r.id
                &&& context_lens[i] == all.len()
                &&& positions[i] + 1 == all.len()
                &&& last_tokens[i] == all[positions[i] as int]
                &&& sampling[i] == r.sampling
            }
        }),
{
    decoding_is_a_filter(s);
    assert(usize::MAX >= u32::MAX);
}

/// A prefill has one row per prompt that has not been run, in the order in which
/// the requests came: the tokens between the row's start and the next are the
/// prompt, and there are no other tokens.
pub proof fn prefill_rows_hold_the_prompts(s: Seq<RequestView>, i: int)
    requires
        plan_for(s) is Prefill,
        0 <= i < unrun(s).len(),
        prompts(unrun(s)).len() <= u32::MAX,
    ensures
        plan_for(s) matches PlanView::Prefill { req_ids, prompt_tokens_flat, cu_seqlens_q } && {
            &&& req_ids.len() == unrun(s).len()
            &&& req_ids[i] == unrun(s)[i].id
            &&& cu_seqlens_q.len() == unrun(s).len() + 1
            &&& cu_seqlens_q[0] == 0
            &&& cu_seqlens_q.last() == prompt_tokens_flat.len()
            &&& 0 <= cu_seqlens_q[i] <= cu_seqlens_q[i + 1] <= prompt_tokens_flat.len()
            &&& prompt_tokens_flat.subrange(cu_seqlens_q[i] as int, cu_seqlens_q[i + 1] as int)
                == unrun(s)[i].prompt
        },
{
    waiting_is_a_filter(s);
    prompt_starts_are_prefix_sums(waiting_of(s), i);
    starts_are_inside(waiting_of(s), i + 1);
}

proof fn starts_are_inside(s: Seq<RequestView>, n: int)
    requires
        0 <= n <= s.len(),
    ensures
        prompts(s.take(n)).len() <= prompts(s).len(),
    decreases s.len(),
{
    if n == s.len() {
        assert(s.take(n) =~= s);
    } else {
        starts_are_inside(s.drop_last(), n);
        assert(s.drop_last().take(n) =~= s.take(n));
    }
}

/// Scheduling touches nothing but states: a prompt that had not been run is
/// decoding afterwards, and every other request is as it was.
pub proof fn scheduling_only_starts_decoding(s: Seq<RequestView>, i: int)
    requires
        0 <= i < s.len(),
    ensures
        after_schedule(s).len() == s.len(),
        s[i].state == ReqState::Queued || s[i].state == ReqState::Prefilling ==> after_schedule(
            s,
        )[i] == (RequestView { state: ReqState::Decoding, ..s[i] }),
        s[i].state != ReqState::Queued && s[i].state != ReqState::Prefilling ==> after_schedule(
            s,
        )[i] == s[i],
{
}

proof fn found_by_id(s: Seq<RequestView>, id: ReqId)
    ensures
        match first_with_id(s, id) {
            Some(k) => 0 <= k < s.len() && s[k].id == id,
            None => forall|j: int| 0 <= j < s.len() ==> (#[trigger] s[j]).id != id,
        },
    decreases s.len(),
{
    if s.len() > 0 {
        found_by_id(s.drop_last(), id);
        if first_with_id(s, id) is None {
            assert forall|j: int| 0 <= j < s.len() implies (#[trigger] s[j]).id != id by {
                if j < s.len() - 1 {
                    assert(s.drop_last()[j] == s[j]);
                }
            }
        }
    }
}

/// A committed token goes to the end of the output of its request, whatever was
/// there before, and finishes the request if that was decoding and has reached
/// its limit. No other request changes.
pub proof fn commit_appends_to_its_request(
    s: Seq<RequestView>,
    id: ReqId,
    tok: TokenId,
    i: int,
)
    requires
        distinct_ids(s),
        0 <= i < s.len(),
        s[i].output.len() < u32::MAX,
    ensures
        committed(s, id, tok).len() == s.len(),
        s[i].id != id ==> committed(s, id, tok)[i] == s[i],
        s[i].id == id ==> {
            let after = committed(s, id, tok)[i];
            &&& after.output == s[i].output.push(tok)
            &&& after.prompt == s[i].prompt
            &&& after.id == id
            &&& after.max_output_tokens == s[i].max_output_tokens
            &&& after.sampling == s[i].sampling
            &&& after.state == ReqState::Finished <==> s[i].state == ReqState::Finished || (
            s[i].state == ReqState::Decoding && s[i].output.len() + 1 >= s[i].max_output_tokens)
            &&& after.state != ReqState::Finished ==> after.state == s[i].state
        },
{
    found_by_id(s, id);
    assert(usize::MAX >= u32::MAX);
    if s[i].id == id {
        assert(first_with_id(s, id) == Some(i));
    }
}

/// A token for a request that is not there changes nothing.
pub proof fn tokens_for_strangers_are_dropped(s: Seq<RequestView>, id: ReqId, tok: TokenId)
    requires
        forall|j: int| 0 <= j < s.len() ==> (#[trigger] s[j]).id != id,
    ensures
        committed(s, id, tok) == s,
{
    found_by_id(s, id);
}

/// The tokens that a list of commits pairs with a request, in order.
pub open spec fn paired_with(toks: Seq<(ReqId, TokenId)>, id: ReqId) -> Seq<TokenId> {
    toks.filter(|p: (ReqId, TokenId)| p.0 == id).map_values(|p: (ReqId, TokenId)| p.1)
}

/// Over a list of commits the output of each request grows by exactly the tokens
/// that are paired with it, in order; a decoding request is finished by them if
/// there are any and its limit is reached, and nothing else changes.
pub proof fn commits_append_in_order(s: Seq<RequestView>, toks: Seq<(ReqId, TokenId)>, i: int)
    requires
        distinct_ids(s),
        0 <= i < s.len(),
        s[i].output.len() + toks.len() <= u32::MAX,
    ensures
        committed_all(s, toks).len() == s.len(),
        distinct_ids(committed_all(s, toks)),
        ({
            let new = paired_with(toks, s[i].id);
            &&& new.len() <= toks.len()
            &&& committed_all(s, toks)[i] == (RequestView {
                output: s[i].output + new,
                state: if s[i].state == ReqState::Decoding && new.len() > 0 && s[i].output.len()
                    + new.len() >= s[i].max_output_tokens {
                    ReqState::Finished
                } else {
                    s[i].state
                },
                ..s[i]
            })
        }),
    decreases toks.len(),
{
    reveal(Seq::filter);
    let id = s[i].id;
    if toks.len() == 0 {
        assert(paired_with(toks, id) =~= Seq::empty());
        assert(s[i].output + paired_with(toks, id) =~= s[i].output);
    } else {
        let rest = toks.drop_last();
        let (last_id, tok) = toks.last();
        let mid = committed_all(s, rest);
        commits_append_in_order(s, rest, i);
        committing_keeps_ids(s, rest);
        committing_one_keeps_ids(mid, last_id, tok);
        commit_appends_to_its_request(mid, last_id, tok, i);
        let before = paired_with(rest, id);
        if last_id == id {
            assert(paired_with(toks, id) =~= before.push(tok));
            assert(s[i].output + before.push(tok) =~= (s[i].output + before).push(tok));
        } else {
            assert(paired_with(toks, id) =~= before);
        }
    }
}

proof fn committing_one_keeps_ids(s: Seq<RequestView>, id: ReqId, tok: TokenId)
    ensures
        committed(s, id, tok).len() == s.len(),
        forall|j: int| 0 <= j < s.len() ==> (#[trigger] committed(s, id, tok)[j]).id == s[j].id,
        distinct_ids(s) ==> distinct_ids(committed(s, id, tok)),
{
    found_by_id(s, id);
    let t = committed(s, id, tok);
    assert forall|j: int| 0 <= j < s.len() implies (#[trigger] t[j]).id == s[j].id by {}
    if distinct_ids(s) {
        assert forall|j: int, k: int|
            0 <= j < t.len() && 0 <= k < t.len() && j != k implies (#[trigger] t[j]).id != (
        #[trigger] t[k]).id by {
            assert(s[j].id != s[k].id);
        }
    }
}

proof fn committing_keeps_ids(s: Seq<RequestView>, toks: Seq<(ReqId, TokenId)>)
    ensures
        committed_all(s, toks).len() == s.len(),
        distinct_ids(s) ==> distinct_ids(committed_all(s, toks)),
    decreases toks.len(),
{
    if toks.len() > 0 {
        committing_keeps_ids(s, toks.drop_last());
        committing_one_keeps_ids(
            committed_all(s, toks.drop_last()),
            toks.last().0,
            toks.last().1,
        );
    }
}

/// The token that was committed last is the one that the next decode feeds to
/// its request, at the position behind what was there before.
pub proof fn next_decode_feeds_the_committed_token(s: Seq<RequestView>, i: int, tok: TokenId)
    requires
        distinct_ids(s),
        0 <= i < s.len(),
        s[i].state == ReqState::Decoding,
        s[i].prompt.len() > 0,
        s[i].prompt.len() + s[i].output.len() < u32::MAX,
        s[i].output.len() + 1 < s[i].max_output_tokens,
        plan_for(committed(s, s[i].id, tok)) is Decode,
    ensures
        plan_for(committed(s, s[i].id, tok)) matches PlanView::Decode {
            req_ids,
            last_tokens,
            positions,
            ..
        } && exists|row: int|
            #![trigger req_ids[row]]
            0 <= row < req_ids.len() && req_ids[row] == s[i].id && last_tokens[row] == tok
                && positions[row] == s[i].prompt.len() + s[i].output.len(),
{
    let t = committed(s, s[i].id, tok);
    commit_appends_to_its_request(s, s[i].id, tok, i);
    let p = |r: RequestView| r.state == ReqState::Decoding;
    assert(p(t[i]));
    t.lemma_filter_contains(p, i);
    let row = choose|row: int| 0 <= row < t.filter(p).len() && t.filter(p)[row] == t[i];
    assert(in_state(t, ReqState::Decoding)[row] == t[i]);
    decode_rows_hold_the_newest_tokens(t, row);
    assert(plan_for(t)->Decode_req_ids[row] == s[i].id);
}

/// A request that its last token has finished is in no later plan.
pub proof fn finished_requests_are_not_decoded(s: Seq<RequestView>, i: int, tok: TokenId)
    requires
        distinct_ids(s),
        0 <= i < s.len(),
        s[i].state == ReqState::Decoding,
        s[i].output.len() < u32::MAX,
        s[i].output.len() + 1 >= s[i].max_output_tokens,
    ensures
        match plan_for(committed(s, s[i].id, tok)) {
            PlanView::Idle => true,
            PlanView::Prefill { req_ids, .. } => !req_ids.contains(s[i].id),
            PlanView::Decode { req_ids, .. } => !req_ids.contains(s[i].id),
        },
{
    let id = s[i].id;
    let t = committed(s, id, tok);
    commit_appends_to_its_request(s, id, tok, i);
    committing_one_keeps_ids(s, id, tok);
    decoding_is_a_filter(t);
    waiting_is_a_filter(t);
    let d = |r: RequestView| r.state == ReqState::Decoding;
    let w = |r: RequestView| r.state == ReqState::Queued || r.state == ReqState::Prefilling;
    assert forall|k: int| 0 <= k < decoding_of(t).len() implies (#[trigger] decoding_of(t)[k]).id
        != id by {
        let r = t.filter(d)[k];
        t.lemma_filter_pred(d, k);
        t.lemma_filter_contains_rev(d, r);
        let j = choose|j: int| 0 <= j < t.len() && t[j] == r;
        assert(j != i);
        assert(t[j].id != t[i].id);
    }
    assert forall|k: int| 0 <= k < waiting_of(t).len() implies (#[trigger] waiting_of(t)[k]).id
        != id by {
        let r = t.filter(w)[k];
        t.lemma_filter_pred(w, k);
        t.lemma_filter_contains_rev(w, r);
        let j = choose|j: int| 0 <= j < t.len() && t[j] == r;
        assert(j != i);
        assert(t[j].id != t[i].id);
    }
}

/// A decode that the scheduler plans has one row per decoding request, in the
/// order in which they came, and feeds each its newest token. Of the buckets it
/// takes one with room for the rows that is less than twice their number.
pub proof fn decodes_hold_the_newest_tokens(
    scheduler: &mut Scheduler,
    plan: BatchPlan,
    i: int,
)
    requires
        call_ensures(Scheduler::schedule, (scheduler,), plan),
        plan is Decode,
        old(scheduler)@.len() <= u32::MAX,
        0 <= i < in_state(old(scheduler)@, ReqState::Decoding).len(),
        in_state(old(scheduler)@, ReqState::Decoding)[i].prompt.len() > 0,
        in_state(old(scheduler)@, ReqState::Decoding)[i].prompt.len() + in_state(
            old(scheduler)@,
            ReqState::Decoding,
        )[i].output.len() <= u32::MAX,
    ensures
        ({
            let rows = in_state(old(scheduler)@, ReqState::Decoding);
            let all = rows[i].prompt + rows[i].output;
            plan matches BatchPlan::Decode {
                req_ids,
                bucket,
                last_tokens,
                positions,
                context_lens,
                sampling,
            } && {
                &&& req_ids@.len() == rows.len() && last_tokens@.len() == rows.len()
                &&& positions@.len() == rows.len() && context_lens@.len() == rows.len()
                &&& sampling@.len() == rows.len()
                &&& rows.len() <= bucket < 2 * rows.len()
                &&& req_ids@[i] == rows[i].id
                &&& last_tokens@[i] == all.last()
                &&& positions@[i] == all.len() - 1
                &&& context_lens@[i] == all.len()
                &&& sampling@[i] == rows[i].sampling
            }
        }),
        final(scheduler)@ == old(scheduler)@,
{
    let s = old(scheduler)@;
    decode_rows_hold_the_newest_tokens(s, i);
    step_kind_follows_the_states(s);
    decoding_is_a_filter(s);
    s.lemma_filter_len(|r: RequestView| r.state == ReqState::Decoding);
    assert(usize::MAX >= u32::MAX);
    assert forall|k: int| 0 <= k < s.len() implies after_schedule(s)[k] == s[k] by {
        scheduling_only_starts_decoding(s, k);
        assert(s[k].state != ReqState::Queued && s[k].state != ReqState::Prefilling);
    }
    assert(after_schedule(s) =~= s);
}

/// A prefill that the scheduler plans has one row per prompt that has not been
/// run, in the order in which the requests came. The tokens between a row's start
/// and the next are the prompt, and afterwards the request is decoding.
pub proof fn prefills_hold_the_prompts(scheduler: &mut Scheduler, plan: BatchPlan, i: int)
    requires
        call_ensures(Scheduler::schedule, (scheduler,), plan),
        plan is Prefill,
        0 <= i < unrun(old(scheduler)@).len(),
        prompts(unrun(old(scheduler)@)).len() <= u32::MAX,
    ensures
        ({
            let rows = unrun(old(scheduler)@);
            plan matches BatchPlan::Prefill { req_ids, prompt_tokens_flat, cu_seqlens_q } && {
                &&& req_ids@.len() == rows.len()
                &&& req_ids@[i] == rows[i].id
                &&& cu_seqlens_q@.len() == rows.len() + 1
                &&& cu_seqlens_q@[0] == 0
                &&& cu_seqlens_q@.last() == prompt_tokens_flat@.len()
                &&& cu_seqlens_q@[i] <= cu_seqlens_q@[i + 1] <= prompt_tokens_flat@.len()
                &&& prompt_tokens_flat@.subrange(
                    cu_seqlens_q@[i] as int,
                    cu_seqlens_q@[i + 1] as int,
                ) == rows[i].prompt
            }
        }),
        final(scheduler)@.len() == old(scheduler)@.len(),
        forall|k: int|
            0 <= k < old(scheduler)@.len() ==> {
                let before = #[trigger] old(scheduler)@[k];
                let after = final(scheduler)@[k];
                if before.state == ReqState::Queued || before.state == ReqState::Prefilling {
                    after == (RequestView { state: ReqState::Decoding, ..before })
                } else {
                    after == before
                }
            },
{
    prefill_rows_hold_the_prompts(old(scheduler)@, i);
}

/// Which kind of step the scheduler plans: a prefill while some prompt has not
/// been run, else a decode of up to 256 requests, else none.
pub proof fn steps_follow_the_states(scheduler: &mut Scheduler, plan: BatchPlan)
    requires
        call_ensures(Scheduler::schedule, (scheduler,), plan),
        old(scheduler)@.len() <= u32::MAX,
    ensures
        plan is Prefill <==> unrun(old(scheduler)@).len() > 0,
        plan is Decode <==> unrun(old(scheduler)@).len() == 0 && 0 < in_state(
            old(scheduler)@,
            ReqState::Decoding,
        ).len() <= 256,
{
    let s = old(scheduler)@;
    step_kind_follows_the_states(s);
    waiting_is_a_filter(s);
}

/// Committing a list of tokens appends to the output of each request exactly the
/// tokens that are paired with it, in order, finishes a decoding request that has
/// then reached its limit, and changes nothing else.
pub proof fn committed_tokens_are_appended(
    scheduler: &mut Scheduler,
    toks: &[(ReqId, TokenId)],
    i: int,
)
    requires
        call_ensures(Scheduler::commit_decode, (scheduler, toks), ()),
        distinct_ids(old(scheduler)@),
        0 <= i < old(scheduler)@.len(),
        old(scheduler)@[i].output.len() + toks@.len() <= u32::MAX,
    ensures
        final(scheduler)@.len() == old(scheduler)@.len(),
        ({
            let before = old(scheduler)@[i];
            let new = paired_with(toks@, before.id);
            final(scheduler)@[i] == (RequestView {
                output: before.output + new,
                state: if before.state == ReqState::Decoding && new.len() > 0
                    && before.output.len() + new.len() >= before.max_output_tokens {
                    ReqState::Finished
                } else {
                    before.state
                },
                ..before
            })
        }),
{
    commits_append_in_order(old(scheduler)@, toks@, i);
}

/// A request that is handed in comes last, and the others stay as they are.
pub proof fn requests_queue_up(scheduler: &mut Scheduler, req: Request)
    requires
        call_ensures(Scheduler::enqueue, (scheduler, req), ()),
    ensures
        final(scheduler)@.len() == old(scheduler)@.len() + 1,
        final(scheduler)@.drop_last() == old(scheduler)@,
        final(scheduler)@.last().id == req.id,
        final(scheduler)@.last().state == req.state,
        final(scheduler)@.last().prompt == req.prompt_tokens@,
        final(scheduler)@.last().output == req.output_tokens@,
        final(scheduler)@.last().max_output_tokens == req.max_output_tokens,
        final(scheduler)@.last().sampling == req.sampling,
{
    assert(final(scheduler)@.drop_last() =~= old(scheduler)@);
}

/// A token that a request takes goes to the end of its output. A decoding request
/// is finished by it if its limit is reached; else its state stays.
pub proof fn taken_tokens_are_appended(req: &mut Request, tok: TokenId)
    requires
        call_ensures(Request::push_output, (req, tok), ()),
        old(req).output_tokens@.len() < u32::MAX,
    ensures
        final(req).output_tokens@ == old(req).output_tokens@.push(tok),
        final(req).prompt_tokens@ == old(req).prompt_tokens@,
        final(req).id == old(req).id,
        final(req).max_output_tokens == old(req).max_output_tokens,
        final(req).sampling == old(req).sampling,
        final(req).state == if old(req).state == ReqState::Decoding
            && old(req).output_tokens@.len() + 1 >= old(req).max_output_tokens {
            ReqState::Finished
        } else {
            old(req).state
        },
{
    assert(usize::MAX >= u32::MAX);
    assert(final(req)@ == old(req)@.pushed(tok));
}

/// A new request waits with its prompt and has no output.
pub proof fn new_requests_wait(
    id: ReqId,
    prompt: Vec<TokenId>,
    limit: u32,
    sampling: SamplingParams,
    r: Request,
)
    requires
        call_ensures(Request::new_with_sampling, (id, prompt, limit, sampling), r),
    ensures
        r.id == id,
        r.state == ReqState::Queued,
        r.prompt_tokens@ == prompt@,
        r.output_tokens@.len() == 0,
        r.max_output_tokens == limit,
        r.sampling == sampling,
{
    assert(r@.id == r.id && r@.state == r.state && r@.prompt == r.prompt_tokens@ && r@.output
        == r.output_tokens@ && r@.sampling == r.sampling && r@.max_output_tokens
        == r.max_output_tokens);
}

/// A request's context is its prompt and its output together.
pub proof fn contexts_are_prompt_and_output(req: Request, r: u32)
    requires
        call_ensures(Request::context_len, (&req,), r),
        req.prompt_tokens@.len() + req.output_tokens@.len() <= u32::MAX,
    ensures
        r == req.prompt_tokens@.len() + req.output_tokens@.len(),
{
    assert(usize::MAX >= u32::MAX);
    assert(req@.tokens().len() == req.prompt_tokens@.len() + req.output_tokens@.len());
}

/// A graph can be replayed for decodes alone, and only where every row has
/// temperature zero.
pub proof fn replay_is_for_greedy_decodes(plan: BatchPlan, r: bool)
    requires
        call_ensures(BatchPlan::is_graph_replay_eligible, (&plan,), r),
    ensures
        r <==> (plan matches BatchPlan::Decode { sampling, .. } && forall|i: int|
            0 <= i < sampling@.len() ==> (#[trigger] sampling@[i]).temperature.0 == 0
                || sampling@[i].temperature.0 == 0x8000_0000),
{
    if plan is Decode {
        let rows = plan->Decode_sampling@;
        assert forall|i: int| 0 <= i < rows.len() implies ((#[trigger] rows[i]).greedy_spec()
            <==> rows[i].temperature.0 == 0 || rows[i].temperature.0 == 0x8000_0000) by {}
    }
}

/// A bucket is the smallest with room: buckets double up to sixteen, go up by
/// eight to 32, by sixteen to 64 and by 32 to 192, and the last is 256.
pub proof fn buckets_are_the_smallest_with_room(n: u32, r: Option<u32>)
    requires
        call_ensures(bucket_for, (n,), r),
        n > 0,
    ensures
        r is Some <==> n <= 256,
        r matches Some(b) ==> {
            &&& b >= n
            &&& n <= 16 ==> (b == 1 || b == 2 || b == 4 || b == 8 || b == 16) && b < 2 * n
            &&& 16 < n <= 32 ==> b % 8 == 0 && b < n + 8
            &&& 32 < n <= 64 ==> b % 16 == 0 && b < n + 16
            &&& 64 < n <= 192 ==> b % 32 == 0 && b < n + 32
            &&& n > 192 ==> b == 256
        },
{
}

/// The scheduler counts the requests that are neither finished nor aborted.
pub proof fn the_alive_are_counted(scheduler: Scheduler, r: usize)
    requires
        call_ensures(Scheduler::num_alive, (&scheduler,), r),
    ensures
        r == scheduler@.filter(
            |q: RequestView| q.state != ReqState::Finished && q.state != ReqState::Aborted,
        ).len(),
{
    alive_requests_are_counted(scheduler@);
}

/// A request is alive until it is finished or aborted, and decodes in the decoding
/// state alone.
pub proof fn states_say_what_a_request_does(req: Request, alive: bool, decoding: bool)
    requires
        call_ensures(Request::is_alive, (&req,), alive),
        call_ensures(Request::is_decoding, (&req,), decoding),
    ensures
        alive <==> req.state == ReqState::Queued || req.state == ReqState::Prefilling
            || req.state == ReqState::Decoding,
        decoding <==> req.state == ReqState::Decoding,
{
    assert(req@.state == req.state);
}

/// A request that names no sampling is greedy: its temperature is zero.
pub proof fn requests_are_greedy_unless_told_otherwise(
    id: ReqId,
    prompt: Vec<TokenId>,
    limit: u32,
    r: Request,
    greedy: bool,
)
    requires
        call_ensures(Request::new, (id, prompt, limit), r),
        call_ensures(SamplingParams::is_greedy, (&r.sampling,), greedy),
    ensures
        r.id == id,
        r.state == ReqState::Queued,
        r.prompt_tokens@ == prompt@,
        r.output_tokens@.len() == 0,
        r.max_output_tokens == limit,
        r.sampling.temperature.0 == 0,
        greedy,
{
    assert(r@.id == r.id && r@.state == r.state && r@.prompt == r.prompt_tokens@ && r@.output
        == r.output_tokens@ && r@.sampling == r.sampling && r@.max_output_tokens
        == r.max_output_tokens);
}

} // verus!
