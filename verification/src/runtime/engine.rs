//! The engine: a step is launched and then collected.
//!
//! `step_launch` returns a ticket that borrows the engine; `collect` consumes
//! it. A second launch while a ticket is live does not compile. There is one
//! code path: whether a graph is captured or replayed is a matter of the
//! launch.

use crate::error::RvllmError;
use crate::ids::{ReqId, TokenId};
use crate::runtime::sched_state::{ReqState, RequestView};
use crate::runtime::scheduler::{
    after_schedule, alive_count, bucket_of, can_decode, decoding_of, plan_for, waiting_of,
    BatchPlan, PlanView, Scheduler,
};
use vstd::prelude::*;

verus! {

/// One token that a step produced.
#[derive(Copy, Clone, Debug, PartialEq, Eq, Structural)]
pub struct StepOutput {
    pub req_id: ReqId,
    pub new_token: TokenId,
    pub finished: bool,
}

pub struct Engine {
    pub scheduler: Scheduler,
}

impl Engine {
    pub fn new() -> (r: Engine)
        ensures
            r.scheduler@ == Seq::<RequestView>::empty(),
    {
        Engine { scheduler: Scheduler::new() }
    }

    /// Whether a request is alive.
    pub fn has_pending_work(&self) -> (r: bool)
        ensures
            r == (alive_count(self.scheduler@) > 0),
    {
        self.scheduler.num_alive() > 0
    }

    /// Launches one step. The ticket must be collected; until then the engine
    /// cannot be used.
    pub fn step_launch(&mut self) -> (r: Result<PendingStep<'_>, RvllmError>)
        requires
            waiting_of(old(self).scheduler@).len() == 0 && bucket_of(
                (decoding_of(old(self).scheduler@).len() as usize) as u32,
            ) is Some ==> forall|i: int|
                0 <= i < decoding_of(old(self).scheduler@).len() ==> can_decode(
                    #[trigger] decoding_of(old(self).scheduler@)[i],
                ),
        ensures
            r is Ok,
            r->Ok_0.pending() == Some(plan_for(old(self).scheduler@)),
            r->Ok_0.borrowed().scheduler@ == after_schedule(old(self).scheduler@),
            *final(self) == *final(r->Ok_0.borrowed()),
    {
        let plan = self.scheduler.schedule();
        Ok(PendingStep { engine: self, plan: Some(plan) })
    }
}

impl Default for Engine {
    fn default() -> (r: Engine)
        ensures
            r.scheduler@ == Seq::<RequestView>::empty(),
    {
        Engine::new()
    }
}

/// The ticket of a launched step. Dropping it without collecting it loses the
/// step's plan.
#[must_use]
pub struct PendingStep<'e> {
    engine: &'e mut Engine,
    /// The plan of the step, until it is collected.
    plan: Option<BatchPlan>,
}

impl<'e> PendingStep<'e> {
    /// The plan of the step, until it is collected.
    pub closed spec fn pending(self) -> Option<PlanView> {
        match self.plan {
            Some(p) => Some(p@),
            None => None,
        }
    }

    /// The borrow of the engine that launched the step.
    pub closed spec fn borrowed(self) -> &'e mut Engine {
        self.engine
    }

    pub fn plan(&self) -> (r: Option<&BatchPlan>)
        ensures
            match r {
                Some(p) => self.pending() == Some(p@),
                None => self.pending() is None,
            },
    {
        self.plan.as_ref()
    }

    /// Drains the launched step and releases the engine. The step's tokens are
    /// committed by its caller; this returns none.
    pub fn collect(self) -> (r: Result<Vec<StepOutput>, RvllmError>)
        requires
            self.pending() is Some,
        ensures
            r is Ok,
            r->Ok_0@ == Seq::<StepOutput>::empty(),
            *final(self.borrowed()) == *old(self.borrowed()),
    {
        Ok(Vec::new())
    }
}

/// There is work exactly while some request is neither finished nor aborted.
pub proof fn work_is_pending_while_requests_are_alive(engine: Engine, r: bool)
    requires
        call_ensures(Engine::has_pending_work, (&engine,), r),
    ensures
        r <==> exists|i: int|
            0 <= i < engine.scheduler@.len() && (#[trigger] engine.scheduler@[i]).state
                != ReqState::Finished && engine.scheduler@[i].state != ReqState::Aborted,
{
    some_are_alive(engine.scheduler@);
}

proof fn some_are_alive(s: Seq<RequestView>)
    ensures
        alive_count(s) > 0 <==> exists|i: int|
            0 <= i < s.len() && (#[trigger] s[i]).state != ReqState::Finished && s[i].state
                != ReqState::Aborted,
    decreases s.len(),
{
    if s.len() > 0 {
        let t = s.drop_last();
        some_are_alive(t);
        if alive_count(t) > 0 {
            let i = choose|i: int|
                0 <= i < t.len() && (#[trigger] t[i]).state != ReqState::Finished && t[i].state
                    != ReqState::Aborted;
            assert(s[i] == t[i]);
        }
        assert(s.last() == s[s.len() - 1]);
        if exists|i: int|
            0 <= i < s.len() && (#[trigger] s[i]).state != ReqState::Finished && s[i].state
                != ReqState::Aborted {
            let i = choose|i: int|
                0 <= i < s.len() && (#[trigger] s[i]).state != ReqState::Finished && s[i].state
                    != ReqState::Aborted;
            if i < s.len() - 1 {
                assert(t[i] == s[i]);
            }
        }
    }
}

/// A launched step carries the plan of the scheduler's next step, and the engine
/// that it borrows has taken that step: what waited for its prompt is decoding.
pub proof fn launched_steps_carry_their_plan(engine: &mut Engine, step: PendingStep<'_>, i: int)
    requires
        call_ensures(Engine::step_launch, (engine,), Ok::<PendingStep<'_>, RvllmError>(step)),
        0 <= i < old(engine).scheduler@.len(),
    ensures
        step.pending() == Some(plan_for(old(engine).scheduler@)),
        step.borrowed().scheduler@.len() == old(engine).scheduler@.len(),
        step.borrowed().scheduler@[i].output == old(engine).scheduler@[i].output,
        step.borrowed().scheduler@[i].state != ReqState::Queued,
        step.borrowed().scheduler@[i].state != ReqState::Prefilling,
{
}

/// A ticket shows the plan of its step until it is collected.
pub proof fn tickets_show_their_plan(step: PendingStep<'_>, plan: Option<&BatchPlan>)
    requires
        call_ensures(PendingStep::plan, (&step,), plan),
    ensures
        plan matches Some(p) ==> step.pending() == Some(p@),
        plan is None <==> step.pending() is None,
{
}

} // verus!
