//! The scheduler: one plan per step, of one kind. Prefill and decode never mix
//! in a step.

use crate::ids::{ReqId, TokenId};
use crate::runtime::sampling::SamplingParams;
use crate::runtime::sched_state::{ReqState, Request, RequestView};
use vstd::prelude::*;

verus! {

/// Decode batch sizes, ascending. Graphs are captured for exactly these.
pub const DECODE_BUCKETS: [u32; 14] = [1, 2, 4, 8, 16, 24, 32, 48, 64, 96, 128, 160, 192, 256];

/// The decode buckets as a sequence.
pub open spec fn buckets() -> Seq<u32> {
    seq![1, 2, 4, 8, 16, 24, 32, 48, 64, 96, 128, 160, 192, 256]
}

/// Whether `r` is the smallest bucket that holds `actual` sequences.
pub open spec fn is_bucket_for(actual: u32, r: Option<u32>) -> bool {
    match r {
        Some(b) => buckets().contains(b) && b >= actual && forall|c: u32|
            #[trigger] buckets().contains(c) && c >= actual ==> b <= c,
        None => forall|c: u32| #[trigger] buckets().contains(c) ==> c < actual,
    }
}

/// The smallest bucket that holds `actual` sequences.
pub open spec fn bucket_of(actual: u32) -> Option<u32> {
    if actual <= 1 {
        Some(1)
    } else if actual <= 2 {
        Some(2)
    } else if actual <= 4 {
        Some(4)
    } else if actual <= 8 {
        Some(8)
    } else if actual <= 16 {
        Some(16)
    } else if actual <= 24 {
        Some(24)
    } else if actual <= 32 {
        Some(32)
    } else if actual <= 48 {
        Some(48)
    } else if actual <= 64 {
        Some(64)
    } else if actual <= 96 {
        Some(96)
    } else if actual <= 128 {
        Some(128)
    } else if actual <= 160 {
        Some(160)
    } else if actual <= 192 {
        Some(192)
    } else if actual <= 256 {
        Some(256)
    } else {
        None
    }
}

proof fn buckets_are_listed(c: u32)
    ensures
        buckets().contains(c) <==> c == 1 || c == 2 || c == 4 || c == 8 || c == 16 || c == 24 || c
            == 32 || c == 48 || c == 64 || c == 96 || c == 128 || c == 160 || c == 192 || c == 256,
{
    assert(buckets()[0] == 1);
    assert(buckets()[1] == 2);
    assert(buckets()[2] == 4);
    assert(buckets()[3] == 8);
    assert(buckets()[4] == 16);
    assert(buckets()[5] == 24);
    assert(buckets()[6] == 32);
    assert(buckets()[7] == 48);
    assert(buckets()[8] == 64);
    assert(buckets()[9] == 96);
    assert(buckets()[10] == 128);
    assert(buckets()[11] == 160);
    assert(buckets()[12] == 192);
    assert(buckets()[13] == 256);
}

/// The bucket of a batch is the smallest that holds it, and there is none only
/// for a batch that no bucket holds.
pub proof fn bucket_is_smallest(actual: u32)
    ensures
        is_bucket_for(actual, bucket_of(actual)),
{
    assert forall|c: u32| #[trigger] buckets().contains(c) implies c <= 256 && (c >= actual
        ==> bucket_of(actual) is Some && bucket_of(actual)->0 <= c) by {
        buckets_are_listed(c);
    }
    if bucket_of(actual) is Some {
        buckets_are_listed(bucket_of(actual)->0);
    }
}

/// Smallest decode bucket that holds `actual` sequences.
pub fn bucket_for(actual: u32) -> (r: Option<u32>)
    ensures
        r == bucket_of(actual),
        is_bucket_for(actual, r),
{
    proof {
        bucket_is_smallest(actual);
        assert(DECODE_BUCKETS@ =~= buckets());
    }
    let mut i: usize = 0;
    while i < 14
        invariant
            i <= 14,
            DECODE_BUCKETS@ =~= buckets(),
            forall|j: int| 0 <= j < i ==> #[trigger] buckets()[j] < actual,
        decreases 14 - i,
    {
        let b: u32 = DECODE_BUCKETS[i];
        if b >= actual {
            proof {
                bucket_is_smallest(actual);
                assert(buckets()[i as int] == b);
                assert(buckets().contains(b));
                let w = bucket_of(actual)->0;
                let k = choose|k: int| 0 <= k < buckets().len() && buckets()[k] == w;
                assert(k >= i);
                assert(buckets()[k] <= b);
                ascending(i as int, k);
            }
            return Some(b);
        }
        i = i + 1;
    }
    proof {
        assert(buckets()[13] == 256);
    }
    None
}

proof fn ascending(i: int, k: int)
    requires
        0 <= i <= k < 14,
    ensures
        buckets()[i] <= buckets()[k],
{
    assert(buckets()[0] == 1 && buckets()[1] == 2 && buckets()[2] == 4 && buckets()[3] == 8);
    assert(buckets()[4] == 16 && buckets()[5] == 24 && buckets()[6] == 32 && buckets()[7] == 48);
    assert(buckets()[8] == 64 && buckets()[9] == 96 && buckets()[10] == 128);
    assert(buckets()[11] == 160 && buckets()[12] == 192 && buckets()[13] == 256);
}

/// The scheduler's output for one step.
#[derive(Debug)]
pub enum BatchPlan {
    Idle,
    Prefill { req_ids: Vec<ReqId>, prompt_tokens_flat: Vec<TokenId>, cu_seqlens_q: Vec<u32> },
    Decode {
        req_ids: Vec<ReqId>,
        bucket: u32,
        last_tokens: Vec<TokenId>,
        positions: Vec<u32>,
        context_lens: Vec<u32>,
        sampling: Vec<SamplingParams>,
    },
}

/// The contents of a plan.
pub enum PlanView {
    Idle,
    Prefill { req_ids: Seq<ReqId>, prompt_tokens_flat: Seq<TokenId>, cu_seqlens_q: Seq<u32> },
    Decode {
        req_ids: Seq<ReqId>,
        bucket: u32,
        last_tokens: Seq<TokenId>,
        positions: Seq<u32>,
        context_lens: Seq<u32>,
        sampling: Seq<SamplingParams>,
    },
}

impl View for BatchPlan {
    type V = PlanView;

    open spec fn view(&self) -> PlanView {
        match *self {
            BatchPlan::Idle => PlanView::Idle,
            BatchPlan::Prefill { req_ids, prompt_tokens_flat, cu_seqlens_q } => PlanView::Prefill {
                req_ids: req_ids@,
                prompt_tokens_flat: prompt_tokens_flat@,
                cu_seqlens_q: cu_seqlens_q@,
            },
            BatchPlan::Decode {
                req_ids,
                bucket,
                last_tokens,
                positions,
                context_lens,
                sampling,
            } => PlanView::Decode {
                req_ids: req_ids@,
                bucket,
                last_tokens: last_tokens@,
                positions: positions@,
                context_lens: context_lens@,
                sampling: sampling@,
            },
        }
    }
}

/// Whether every row is greedy.
pub open spec fn greedy_rows(sampling: Seq<SamplingParams>) -> bool {
    forall|i: int| 0 <= i < sampling.len() ==> (#[trigger] sampling[i]).greedy_spec()
}

fn all_greedy(sampling: &Vec<SamplingParams>) -> (r: bool)
    ensures
        r == greedy_rows(sampling@),
{
    let mut i: usize = 0;
    while i < sampling.len()
        invariant
            i <= sampling@.len(),
            forall|j: int| 0 <= j < i ==> (#[trigger] sampling@[j]).greedy_spec(),
        decreases sampling@.len() - i,
    {
        if !sampling[i].is_greedy() {
            assert(!sampling@[i as int].greedy_spec());
            return false;
        }
        i = i + 1;
    }
    true
}

impl BatchPlan {
    /// A captured graph ends in an argmax, so it can be replayed only for a
    /// decode batch in which every row is greedy.
    pub fn is_graph_replay_eligible(&self) -> (r: bool)
        ensures
            r == match self@ {
                PlanView::Decode { sampling, .. } => greedy_rows(sampling),
                _ => false,
            },
    {
        match self {
            BatchPlan::Decode { sampling, .. } => all_greedy(sampling),
            BatchPlan::Idle | BatchPlan::Prefill { .. } => false,
        }
    }
}

/// The requests whose prompts have not been run, in order.
pub open spec fn waiting_of(s: Seq<RequestView>) -> Seq<RequestView>
    decreases s.len(),
{
    if s.len() == 0 {
        Seq::empty()
    } else if s.last().waiting() {
        waiting_of(s.drop_last()).push(s.last())
    } else {
        waiting_of(s.drop_last())
    }
}

/// The requests that are decoding, in order.
pub open spec fn decoding_of(s: Seq<RequestView>) -> Seq<RequestView>
    decreases s.len(),
{
    if s.len() == 0 {
        Seq::empty()
    } else if s.last().decoding() {
        decoding_of(s.drop_last()).push(s.last())
    } else {
        decoding_of(s.drop_last())
    }
}

/// How many requests are alive.
pub open spec fn alive_count(s: Seq<RequestView>) -> nat
    decreases s.len(),
{
    if s.len() == 0 {
        0
    } else {
        alive_count(s.drop_last()) + if s.last().alive() {
            1nat
        } else {
            0nat
        }
    }
}

/// The prompts of a list of requests, one behind the other.
pub open spec fn prompts(s: Seq<RequestView>) -> Seq<TokenId>
    decreases s.len(),
{
    if s.len() == 0 {
        Seq::empty()
    } else {
        prompts(s.drop_last()) + s.last().prompt
    }
}

/// Where each prompt starts among the prompts, and where the last one ends.
pub open spec fn prompt_starts(s: Seq<RequestView>) -> Seq<u32> {
    Seq::new(s.len() + 1, |i: int| (prompts(s.take(i)).len() as usize) as u32)
}

/// The identifiers of a list of requests.
pub open spec fn ids_of(s: Seq<RequestView>) -> Seq<ReqId> {
    s.map_values(|r: RequestView| r.id)
}

/// The newest token of a request: its last output, or the end of its prompt.
pub open spec fn newest_token(r: RequestView) -> TokenId {
    if r.output.len() > 0 {
        r.output.last()
    } else {
        r.prompt.last()
    }
}

/// A request once its prompt was run.
pub open spec fn prefilled(r: RequestView) -> RequestView {
    if r.waiting() {
        RequestView { state: ReqState::Decoding, ..r }
    } else {
        r
    }
}

/// The plan for a list of requests: the prompts that have not been run, or a
/// decode of all that are decoding, or nothing. Too many to decode at once is
/// nothing too.
pub open spec fn plan_for(s: Seq<RequestView>) -> PlanView {
    let waiting = waiting_of(s);
    let active = decoding_of(s);
    if waiting.len() > 0 {
        PlanView::Prefill {
            req_ids: ids_of(waiting),
            prompt_tokens_flat: prompts(waiting),
            cu_seqlens_q: prompt_starts(waiting),
        }
    } else if active.len() == 0 {
        PlanView::Idle
    } else {
        match bucket_of((active.len() as usize) as u32) {
            None => PlanView::Idle,
            Some(bucket) => PlanView::Decode {
                req_ids: ids_of(active),
                bucket,
                last_tokens: active.map_values(|r: RequestView| newest_token(r)),
                positions: active.map_values(|r: RequestView| (r.context_len() - 1) as u32),
                context_lens: active.map_values(|r: RequestView| r.context_len()),
                sampling: active.map_values(|r: RequestView| r.sampling),
            },
        }
    }
}

/// The requests once the plan for them was made.
pub open spec fn after_schedule(s: Seq<RequestView>) -> Seq<RequestView> {
    s.map_values(|r: RequestView| prefilled(r))
}

/// Whether a request can be part of a decode batch: it has a prompt, and its
/// length can be represented.
pub open spec fn can_decode(r: RequestView) -> bool {
    r.prompt.len() > 0 && r.tokens().len() <= usize::MAX && r.context_len() > 0
}

/// The first request with this identifier.
pub open spec fn first_with_id(s: Seq<RequestView>, id: ReqId) -> Option<int>
    decreases s.len(),
{
    if s.len() == 0 {
        None
    } else if first_with_id(s.drop_last(), id) is Some {
        first_with_id(s.drop_last(), id)
    } else if s.last().id == id {
        Some(s.len() - 1)
    } else {
        None
    }
}

/// The requests once a token was committed. A token for an unknown request is
/// dropped.
pub open spec fn committed(s: Seq<RequestView>, id: ReqId, tok: TokenId) -> Seq<RequestView> {
    match first_with_id(s, id) {
        Some(i) => s.update(i, s[i].pushed(tok)),
        None => s,
    }
}

/// The requests once several tokens were committed, in order.
pub open spec fn committed_all(s: Seq<RequestView>, toks: Seq<(ReqId, TokenId)>) -> Seq<RequestView>
    decreases toks.len(),
{
    if toks.len() == 0 {
        s
    } else {
        committed(committed_all(s, toks.drop_last()), toks.last().0, toks.last().1)
    }
}

/// All requests, in the order in which they came.
pub struct Scheduler {
    requests: Vec<Request>,
}

impl View for Scheduler {
    type V = Seq<RequestView>;

    closed spec fn view(&self) -> Seq<RequestView> {
        self.requests@.map_values(|r: Request| r@)
    }
}

impl Scheduler {
    pub fn new() -> (r: Scheduler)
        ensures
            r@ == Seq::<RequestView>::empty(),
    {
        let r = Scheduler { requests: Vec::with_capacity(256) };
        assert(r@ =~= Seq::<RequestView>::empty());
        r
    }

    pub fn enqueue(&mut self, req: Request)
        ensures
            final(self)@ == old(self)@.push(req@),
    {
        let ghost before = self@;
        self.requests.push(req);
        assert(self@ =~= before.push(req@));
    }

    pub fn num_alive(&self) -> (r: usize)
        ensures
            r == alive_count(self@),
    {
        let ghost all = self@;
        let mut n: usize = 0;
        let mut i: usize = 0;
        proof {
            assert(all.take(0) =~= Seq::empty());
        }
        while i < self.requests.len()
            invariant
                all == self@,
                all.len() == self.requests@.len(),
                i <= all.len(),
                n <= i,
                n == alive_count(all.take(i as int)),
            decreases all.len() - i,
        {
            proof {
                assert(all.take(i + 1).drop_last() =~= all.take(i as int));
                assert(all.take(i + 1).last() == self.requests@[i as int]@);
            }
            if self.requests[i].is_alive() {
                n = n + 1;
            }
            i = i + 1;
        }
        proof {
            assert(all.take(i as int) =~= all);
        }
        n
    }

    fn prefill(&mut self) -> (r: Option<BatchPlan>)
        ensures
            final(self)@ == after_schedule(old(self)@),
            match r {
                Some(p) => waiting_of(old(self)@).len() > 0 && p@ == plan_for(old(self)@),
                None => waiting_of(old(self)@).len() == 0,
            },
    {
        let ghost all = self@;
        let mut req_ids: Vec<ReqId> = Vec::new();
        let mut prompt_tokens_flat: Vec<TokenId> = Vec::new();
        let mut cu_seqlens_q: Vec<u32> = Vec::new();
        cu_seqlens_q.push(0);
        let mut i: usize = 0;
        let ghost mut waiting = Seq::<RequestView>::empty();
        proof {
            assert(all.take(0) =~= Seq::empty());
            assert(req_ids@ =~= ids_of(waiting));
            assert(waiting.take(0) =~= Seq::empty());
            assert(cu_seqlens_q@ =~= prompt_starts(waiting));
        }
        while i < self.requests.len()
            invariant
                self.requests@.len() == all.len(),
                i <= all.len(),
                forall|j: int|
                    0 <= j < i ==> (#[trigger] self.requests@[j])@ == prefilled(all[j]),
                forall|j: int| i <= j < all.len() ==> (#[trigger] self.requests@[j])@ == all[j],
                waiting == waiting_of(all.take(i as int)),
                req_ids@ == ids_of(waiting),
                prompt_tokens_flat@ == prompts(waiting),
                cu_seqlens_q@ == prompt_starts(waiting),
            decreases all.len() - i,
        {
            let ghost before = waiting;
            proof {
                assert(all.take(i + 1).drop_last() =~= all.take(i as int));
                assert(all.take(i + 1).last() == all[i as int]);
                waiting = waiting_of(all.take(i + 1));
            }
            let is_waiting = match self.requests[i].state {
                ReqState::Queued | ReqState::Prefilling => true,
                _ => false,
            };
            if is_waiting {
                let ghost r = all[i as int];
                req_ids.push(self.requests[i].id);
                prompt_tokens_flat.extend_from_slice(self.requests[i].prompt_tokens.as_slice());
                cu_seqlens_q.push(prompt_tokens_flat.len() as u32);
                self.requests[i].state = ReqState::Decoding;
                proof {
                    assert(waiting == before.push(r));
                    assert(waiting.drop_last() =~= before);
                    assert(req_ids@ =~= ids_of(waiting));
                    assert(prompt_tokens_flat@ =~= prompts(waiting));
                    assert forall|k: int| 0 <= k <= before.len() implies waiting.take(k)
                        == #[trigger] before.take(k) by {
                        assert(waiting.take(k) =~= before.take(k));
                    }
                    assert(waiting.take(waiting.len() as int) =~= waiting);
                    assert(cu_seqlens_q@ =~= prompt_starts(waiting));
                }
            }
            i = i + 1;
        }
        proof {
            assert(all.take(i as int) =~= all);
            assert(self@ =~= after_schedule(all));
        }
        if req_ids.len() == 0 {
            return None;
        }
        Some(BatchPlan::Prefill { req_ids, prompt_tokens_flat, cu_seqlens_q })
    }

    /// The plan of the next step. Prefill wins over decode while any prompt has
    /// not been run; a prompt is run in one step.
    pub fn schedule(&mut self) -> (r: BatchPlan)
        requires
            waiting_of(old(self)@).len() == 0 && bucket_of(
                (decoding_of(old(self)@).len() as usize) as u32,
            ) is Some ==> forall|i: int|
                0 <= i < decoding_of(old(self)@).len() ==> can_decode(
                    #[trigger] decoding_of(old(self)@)[i],
                ),
        ensures
            r@ == plan_for(old(self)@),
            final(self)@ == after_schedule(old(self)@),
    {
        let ghost all = self@;
        if let Some(plan) = self.prefill() {
            return plan;
        }
        proof {
            no_waiting_nothing_changes(all);
        }
        let mut active: Vec<usize> = Vec::new();
        let mut i: usize = 0;
        proof {
            assert(all.take(0) =~= Seq::empty());
            assert(active@.map_values(|k: usize| all[k as int]) =~= decoding_of(all.take(0)));
        }
        while i < self.requests.len()
            invariant
                self@ == all,
                self.requests@.len() == all.len(),
                i <= all.len(),
                forall|k: int| 0 <= k < active@.len() ==> #[trigger] active@[k] < i,
                active@.map_values(|k: usize| all[k as int]) == decoding_of(all.take(i as int)),
            decreases all.len() - i,
        {
            let ghost before = active@;
            proof {
                assert(all.take(i + 1).drop_last() =~= all.take(i as int));
                assert(all.take(i + 1).last() == self.requests@[i as int]@);
            }
            if self.requests[i].is_decoding() {
                active.push(i);
                proof {
                    assert(active@.map_values(|k: usize| all[k as int]) =~= before.map_values(
                        |k: usize| all[k as int],
                    ).push(all[i as int]));
                }
            }
            i = i + 1;
        }
        proof {
            assert(all.take(i as int) =~= all);
        }
        let ghost batch = decoding_of(all);
        if active.len() == 0 {
            return BatchPlan::Idle;
        }
        let bucket: u32 = match bucket_for(active.len() as u32) {
            Some(bucket) => bucket,
            None => {
                return BatchPlan::Idle;
            },
        };
        let mut req_ids: Vec<ReqId> = Vec::new();
        let mut last_tokens: Vec<TokenId> = Vec::new();
        let mut positions: Vec<u32> = Vec::new();
        let mut context_lens: Vec<u32> = Vec::new();
        let mut sampling: Vec<SamplingParams> = Vec::new();
        let mut k: usize = 0;
        while k < active.len()
            invariant
                self@ == all,
                self.requests@.len() == all.len(),
                k <= active@.len(),
                batch == active@.map_values(|k: usize| all[k as int]),
                forall|j: int| 0 <= j < active@.len() ==> #[trigger] active@[j] < all.len(),
                forall|j: int| 0 <= j < batch.len() ==> can_decode(#[trigger] batch[j]),
                req_ids@.len() == k,
                last_tokens@.len() == k,
                positions@.len() == k,
                context_lens@.len() == k,
                sampling@.len() == k,
                forall|j: int| 0 <= j < k ==> (#[trigger] req_ids@[j]) == batch[j].id,
                forall|j: int|
                    0 <= j < k ==> (#[trigger] last_tokens@[j]) == newest_token(batch[j]),
                forall|j: int|
                    0 <= j < k ==> (#[trigger] positions@[j]) == (batch[j].context_len()
                        - 1) as u32,
                forall|j: int|
                    0 <= j < k ==> (#[trigger] context_lens@[j]) == batch[j].context_len(),
                forall|j: int| 0 <= j < k ==> (#[trigger] sampling@[j]) == batch[j].sampling,
            decreases active@.len() - k,
        {
            let r = &self.requests[active[k]];
            proof {
                assert(batch[k as int] == r@);
                assert(can_decode(batch[k as int]));
            }
            req_ids.push(r.id);
            let newest = if r.output_tokens.len() > 0 {
                r.output_tokens[r.output_tokens.len() - 1]
            } else {
                r.prompt_tokens[r.prompt_tokens.len() - 1]
            };
            last_tokens.push(newest);
            positions.push(r.context_len() - 1);
            context_lens.push(r.context_len());
            sampling.push(r.sampling);
            k = k + 1;
        }
        proof {
            assert(req_ids@ =~= ids_of(batch));
            assert(last_tokens@ =~= batch.map_values(|r: RequestView| newest_token(r)));
            assert(positions@ =~= batch.map_values(
                |r: RequestView| (r.context_len() - 1) as u32,
            ));
            assert(context_lens@ =~= batch.map_values(|r: RequestView| r.context_len()));
            assert(sampling@ =~= batch.map_values(|r: RequestView| r.sampling));
        }
        BatchPlan::Decode { req_ids, bucket, last_tokens, positions, context_lens, sampling }
    }

    fn position_of(&self, id: ReqId) -> (r: Option<usize>)
        ensures
            match first_with_id(self@, id) {
                Some(i) => r is Some && r->0 == i && r->0 < self.requests@.len(),
                None => r is None,
            },
    {
        let ghost all = self@;
        let mut i: usize = 0;
        proof {
            assert(all.take(0) =~= Seq::empty());
        }
        while i < self.requests.len()
            invariant
                all == self@,
                all.len() == self.requests@.len(),
                i <= all.len(),
                first_with_id(all.take(i as int), id) is None,
            decreases all.len() - i,
        {
            proof {
                assert(all.take(i + 1).drop_last() =~= all.take(i as int));
                assert(all.take(i + 1).last() == self.requests@[i as int]@);
            }
            if self.requests[i].id == id {
                proof {
                    first_stays_first(all, i + 1, id);
                }
                return Some(i);
            }
            i = i + 1;
        }
        proof {
            assert(all.take(i as int) =~= all);
        }
        None
    }

    /// Commits the outputs of a decode step.
    pub fn commit_decode(&mut self, req_tokens: &[(ReqId, TokenId)])
        ensures
            final(self)@ == committed_all(old(self)@, req_tokens@),
    {
        let ghost start = self@;
        let mut i: usize = 0;
        proof {
            assert(req_tokens@.take(0) =~= Seq::empty());
        }
        while i < req_tokens.len()
            invariant
                i <= req_tokens@.len(),
                self@ == committed_all(start, req_tokens@.take(i as int)),
            decreases req_tokens@.len() - i,
        {
            let (id, tok) = req_tokens[i];
            let ghost before = self@;
            proof {
                assert(req_tokens@.take(i + 1).drop_last() =~= req_tokens@.take(i as int));
            }
            if let Some(k) = self.position_of(id) {
                self.requests[k].push_output(tok);
                proof {
                    assert(self@ =~= before.update(k as int, before[k as int].pushed(tok)));
                }
            }
            i = i + 1;
        }
        proof {
            assert(req_tokens@.take(i as int) =~= req_tokens@);
        }
    }
}

proof fn first_stays_first(s: Seq<RequestView>, n: int, id: ReqId)
    requires
        0 <= n <= s.len(),
        first_with_id(s.take(n), id) is Some,
    ensures
        first_with_id(s, id) == first_with_id(s.take(n), id),
    decreases s.len() - n,
{
    if n < s.len() {
        assert(s.take(n + 1).drop_last() =~= s.take(n));
        first_stays_first(s, n + 1, id);
    } else {
        assert(s.take(n) =~= s);
    }
}

proof fn no_waiting_nothing_changes(s: Seq<RequestView>)
    requires
        waiting_of(s).len() == 0,
    ensures
        after_schedule(s) == s,
        forall|i: int| 0 <= i < s.len() ==> !(#[trigger] s[i]).waiting(),
    decreases s.len(),
{
    if s.len() > 0 {
        no_waiting_nothing_changes(s.drop_last());
        assert forall|i: int| 0 <= i < s.len() implies !(#[trigger] s[i]).waiting() by {
            if i < s.len() - 1 {
                assert(s.drop_last()[i] == s[i]);
            }
        }
    }
    assert(after_schedule(s) =~= s);
}

impl Default for Scheduler {
    fn default() -> (r: Scheduler)
        ensures
            r@ == Seq::<RequestView>::empty(),
    {
        Scheduler::new()
    }
}

/// While a prompt has not been run, the step is a prefill of all such prompts,
/// and every request that was waiting decodes afterwards.
pub proof fn prefill_wins(s: Seq<RequestView>, i: int)
    requires
        0 <= i < s.len(),
        s[i].waiting(),
    ensures
        plan_for(s) is Prefill,
        after_schedule(s)[i].decoding(),
        waiting_of(after_schedule(s)).len() == 0,
{
    waiting_is_found(s, i);
    nothing_waits_after_schedule(s);
}

proof fn waiting_is_found(s: Seq<RequestView>, i: int)
    requires
        0 <= i < s.len(),
        s[i].waiting(),
    ensures
        waiting_of(s).len() > 0,
    decreases s.len(),
{
    if i < s.len() - 1 {
        assert(s.drop_last()[i] == s[i]);
        waiting_is_found(s.drop_last(), i);
    }
}

proof fn nothing_waits_after_schedule(s: Seq<RequestView>)
    ensures
        waiting_of(after_schedule(s)).len() == 0,
    decreases s.len(),
{
    if s.len() > 0 {
        nothing_waits_after_schedule(s.drop_last());
        assert(after_schedule(s).drop_last() =~= after_schedule(s.drop_last()));
    }
}

/// Scheduling twice in a row gives no second prefill.
pub proof fn prefill_is_followed_by_decode(s: Seq<RequestView>)
    ensures
        !(plan_for(after_schedule(s)) is Prefill),
        after_schedule(after_schedule(s)) == after_schedule(s),
{
    nothing_waits_after_schedule(s);
    no_waiting_nothing_changes(after_schedule(s));
}

/// A decode plan has one entry per decoding request in every list and fits its
/// bucket, which is a captured one.
pub proof fn decode_fits_its_bucket(s: Seq<RequestView>)
    requires
        plan_for(s) is Decode,
        decoding_of(s).len() <= u32::MAX,
    ensures
        plan_for(s) matches PlanView::Decode {
            req_ids,
            bucket,
            last_tokens,
            positions,
            context_lens,
            sampling,
        } && req_ids.len() == decoding_of(s).len() && last_tokens.len() == req_ids.len()
            && positions.len() == req_ids.len() && context_lens.len() == req_ids.len()
            && sampling.len() == req_ids.len() && 0 < req_ids.len() <= bucket
            && buckets().contains(bucket),
{
    assert(usize::MAX >= u32::MAX);
    bucket_is_smallest(decoding_of(s).len() as u32);
}

/// In a decode plan the position of a request's newest token is the last of its
/// context.
pub proof fn positions_end_the_context(s: Seq<RequestView>, i: int)
    requires
        plan_for(s) is Decode,
        0 <= i < decoding_of(s).len(),
        can_decode(decoding_of(s)[i]),
    ensures
        plan_for(s) matches PlanView::Decode { positions, context_lens, .. } && positions[i] + 1
            == context_lens[i],
{
}

/// The starts of the prompts are prefix sums: they begin at zero, and each
/// prompt's length lies between its start and the next.
pub proof fn prompt_starts_are_prefix_sums(waiting: Seq<RequestView>, i: int)
    requires
        prompts(waiting).len() <= u32::MAX,
        0 <= i < waiting.len(),
    ensures
        prompt_starts(waiting).len() == waiting.len() + 1,
        prompt_starts(waiting)[0] == 0,
        prompt_starts(waiting)[i + 1] - prompt_starts(waiting)[i] == waiting[i].prompt.len(),
        prompt_starts(waiting).last() == prompts(waiting).len(),
        prompts(waiting).subrange(
            prompt_starts(waiting)[i] as int,
            prompt_starts(waiting)[i + 1] as int,
        ) == waiting[i].prompt,
{
    assert(usize::MAX >= u32::MAX);
    assert(waiting.take(0) =~= Seq::empty());
    assert(waiting.take(waiting.len() as int) =~= waiting);
    prompts_are_a_prefix(waiting, i);
    prompts_are_a_prefix(waiting, i + 1);
    assert(waiting.take(i + 1).drop_last() =~= waiting.take(i));
    let start = prompts(waiting.take(i)).len() as int;
    let end = prompts(waiting.take(i + 1)).len() as int;
    assert(prompts(waiting).subrange(start, end) =~= waiting[i].prompt) by {
        assert(prompts(waiting).take(end) == prompts(waiting.take(i + 1)));
        assert forall|k: int| 0 <= k < end - start implies prompts(waiting)[start + k]
            == #[trigger] waiting[i].prompt[k] by {
            assert(prompts(waiting).take(end)[start + k] == waiting[i].prompt[k]);
        }
    }
}

proof fn prompts_are_a_prefix(s: Seq<RequestView>, n: int)
    requires
        0 <= n <= s.len(),
    ensures
        prompts(s.take(n)).len() <= prompts(s).len(),
        prompts(s).take(prompts(s.take(n)).len() as int) == prompts(s.take(n)),
    decreases s.len(),
{
    if n == s.len() {
        assert(s.take(n) =~= s);
        assert(prompts(s).take(prompts(s).len() as int) =~= prompts(s));
    } else {
        let t = s.drop_last();
        prompts_are_a_prefix(t, n);
        assert(t.take(n) =~= s.take(n));
        let m = prompts(s.take(n)).len() as int;
        assert(prompts(s).take(m) =~= prompts(t).take(m));
    }
}

/// There is nothing to do exactly where nothing waits and nothing decodes, or
/// more requests decode than the largest bucket holds.
pub proof fn idle_means_no_work(s: Seq<RequestView>)
    requires
        decoding_of(s).len() <= u32::MAX,
    ensures
        plan_for(s) is Idle <==> waiting_of(s).len() == 0 && (decoding_of(s).len() == 0
            || decoding_of(s).len() > 256),
{
    assert(usize::MAX >= u32::MAX);
}

/// A request that is finished or aborted is in no plan: whatever is prefilled or
/// decoded is a request of the list that is alive.
pub proof fn only_live_requests_are_scheduled(s: Seq<RequestView>, r: RequestView)
    requires
        waiting_of(s).contains(r) || decoding_of(s).contains(r),
    ensures
        s.contains(r),
        r.alive(),
    decreases s.len(),
{
    if s.len() > 0 {
        let rest = s.drop_last();
        assert(s[s.len() - 1] == s.last());
        if waiting_of(rest).contains(r) || decoding_of(rest).contains(r) {
            only_live_requests_are_scheduled(rest, r);
            let k = choose|k: int| 0 <= k < rest.len() && rest[k] == r;
            assert(s[k] == r);
        } else if waiting_of(s).contains(r) {
            let k = choose|k: int| 0 <= k < waiting_of(s).len() && waiting_of(s)[k] == r;
            assert(k < waiting_of(rest).len() ==> waiting_of(rest)[k] == r);
        } else {
            let k = choose|k: int| 0 <= k < decoding_of(s).len() && decoding_of(s)[k] == r;
            assert(k < decoding_of(rest).len() ==> decoding_of(rest)[k] == r);
        }
    }
}

/// Requests that are not named keep their state and output when tokens are
/// committed.
pub proof fn commit_touches_only_its_request(
    s: Seq<RequestView>,
    id: ReqId,
    tok: TokenId,
    i: int,
)
    requires
        0 <= i < s.len(),
        s[i].id != id,
    ensures
        committed(s, id, tok).len() == s.len(),
        committed(s, id, tok)[i] == s[i],
{
    found_has_the_id(s, id);
}

proof fn found_has_the_id(s: Seq<RequestView>, id: ReqId)
    ensures
        first_with_id(s, id) matches Some(k) ==> 0 <= k < s.len() && s[k].id == id,
    decreases s.len(),
{
    if s.len() > 0 {
        found_has_the_id(s.drop_last(), id);
    }
}

} // verus!
