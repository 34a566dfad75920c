use rvllm::ids::{F32Bits, ReqId, TokenId};
use rvllm::runtime::engine::Engine;
use rvllm::runtime::sampling::SamplingParams;
use rvllm::runtime::sched_state::{ReqState, Request};
use rvllm::runtime::scheduler::{bucket_for, BatchPlan, Scheduler, DECODE_BUCKETS};

#[test]
fn empty_engine_has_no_pending_work() {
    let e = Engine::new();
    assert!(!e.has_pending_work());
}

#[test]
fn launch_then_collect_releases_borrow_for_next_launch() {
    let mut e = Engine::new();
    e.scheduler
        .enqueue(Request::new(ReqId(1), vec![TokenId(0)], 1));
    assert!(e.has_pending_work());
    let t = e.step_launch().unwrap();
    let _outputs = t.collect().unwrap();
    // Ticket consumed; engine borrow released; can launch again.
    let t2 = e.step_launch().unwrap();
    let _ = t2.collect().unwrap();
}

#[test]
fn step_carries_its_plan_until_it_is_collected() {
    let mut e = Engine::default();
    let idle = e.step_launch().unwrap();
    assert!(matches!(idle.plan(), Some(BatchPlan::Idle)));
    assert!(idle.collect().unwrap().is_empty());
    e.scheduler.enqueue(Request::new(ReqId(4), vec![TokenId(1)], 2));
    let first = e.step_launch().unwrap();
    assert!(matches!(first.plan(), Some(BatchPlan::Prefill { .. })));
    first.collect().unwrap();
    let second = e.step_launch().unwrap();
    assert!(matches!(second.plan(), Some(BatchPlan::Decode { .. })));
    second.collect().unwrap();
}

#[test]
fn request_finishes_at_max_tokens() {
    let mut r = Request::new(ReqId(1), vec![TokenId(0); 4], 3);
    r.state = ReqState::Decoding;
    r.push_output(TokenId(1));
    r.push_output(TokenId(2));
    assert!(r.is_decoding());
    r.push_output(TokenId(3));
    assert_eq!(r.state, ReqState::Finished);
    assert!(!r.is_alive());
}

#[test]
fn only_a_decoding_request_finishes() {
    for state in [ReqState::Queued, ReqState::Prefilling, ReqState::Aborted, ReqState::Finished] {
        let mut r = Request::new(ReqId(1), vec![TokenId(0)], 1);
        r.state = state;
        r.push_output(TokenId(9));
        assert_eq!(r.state, state);
        assert_eq!(r.output_tokens, vec![TokenId(9)]);
    }
}

#[test]
fn request_counts_prompt_and_output() {
    let mut r = Request::new(ReqId(1), vec![TokenId(0); 4], 3);
    assert!(r.is_alive());
    assert!(!r.is_decoding());
    assert_eq!(r.context_len(), 4);
    r.push_output(TokenId(7));
    assert_eq!(r.context_len(), 5);
    r.state = ReqState::Aborted;
    assert!(!r.is_alive());
}

#[test]
fn bucket_rounds_up() {
    assert_eq!(bucket_for(1), Some(1));
    assert_eq!(bucket_for(3), Some(4));
    assert_eq!(bucket_for(100), Some(128));
    assert_eq!(bucket_for(256), Some(256));
    assert_eq!(bucket_for(257), None);
}

#[test]
fn every_bucket_is_its_own_bucket() {
    for b in DECODE_BUCKETS {
        assert_eq!(bucket_for(b), Some(b));
    }
    assert_eq!(bucket_for(0), Some(1));
    assert_eq!(bucket_for(17), Some(24));
    assert_eq!(bucket_for(u32::MAX), None);
}

#[test]
fn schedule_emits_prefill_then_decode() {
    let mut s = Scheduler::new();
    s.enqueue(Request::new(ReqId(1), vec![TokenId(10), TokenId(11)], 4));
    s.enqueue(Request::new(ReqId(2), vec![TokenId(20), TokenId(21)], 4));
    match s.schedule() {
        BatchPlan::Prefill { req_ids, .. } => assert_eq!(req_ids.len(), 2),
        other => panic!("expected Prefill, got {other:?}"),
    }
    // After commit of first prefill round, next schedule is Decode.
    match s.schedule() {
        BatchPlan::Decode {
            req_ids,
            bucket,
            sampling,
            ..
        } => {
            assert_eq!(req_ids.len(), 2);
            assert_eq!(bucket, 2);
            assert!(sampling.iter().all(SamplingParams::is_greedy));
        }
        other => panic!("expected Decode, got {other:?}"),
    }
}

#[test]
fn graph_replay_eligible_only_for_greedy_decode() {
    let mut s = Scheduler::new();
    let mut sampled = SamplingParams::greedy();
    sampled.temperature = F32Bits(0.7f32.to_bits());
    s.enqueue(Request::new_with_sampling(
        ReqId(1),
        vec![TokenId(10), TokenId(11)],
        4,
        sampled,
    ));
    let _ = s.schedule();

    let plan = s.schedule();
    assert!(!plan.is_graph_replay_eligible());
}

#[test]
fn greedy_decode_is_graph_replay_eligible() {
    let mut s = Scheduler::new();
    s.enqueue(Request::new(ReqId(1), vec![TokenId(10), TokenId(11)], 4));
    let _ = s.schedule();

    let plan = s.schedule();
    assert!(plan.is_graph_replay_eligible());
}

#[test]
fn neither_idle_nor_prefill_is_replayed() {
    let mut s = Scheduler::new();
    assert!(!s.schedule().is_graph_replay_eligible());
    s.enqueue(Request::new(ReqId(1), vec![TokenId(10)], 4));
    assert!(!s.schedule().is_graph_replay_eligible());
}

#[test]
fn prefill_concatenates_prompts() {
    let mut s = Scheduler::default();
    s.enqueue(Request::new(ReqId(7), vec![TokenId(1), TokenId(2), TokenId(3)], 4));
    s.enqueue(Request::new(ReqId(8), vec![TokenId(4)], 4));
    s.enqueue(Request::new(ReqId(9), vec![TokenId(5), TokenId(6)], 4));
    match s.schedule() {
        BatchPlan::Prefill { req_ids, prompt_tokens_flat, cu_seqlens_q } => {
            assert_eq!(req_ids, vec![ReqId(7), ReqId(8), ReqId(9)]);
            let flat: Vec<u32> = prompt_tokens_flat.iter().map(|t| t.0).collect();
            assert_eq!(flat, vec![1, 2, 3, 4, 5, 6]);
            assert_eq!(cu_seqlens_q, vec![0, 3, 4, 6]);
        }
        other => panic!("{other:?}"),
    }
}

#[test]
fn decode_positions_follow_the_context() {
    let mut s = Scheduler::new();
    s.enqueue(Request::new(ReqId(1), vec![TokenId(10), TokenId(11)], 4));
    s.enqueue(Request::new(ReqId(2), vec![TokenId(20)], 1));
    let _ = s.schedule();
    s.commit_decode(&[(ReqId(1), TokenId(12)), (ReqId(2), TokenId(21)), (ReqId(99), TokenId(0))]);
    // The second request is at its limit and leaves.
    assert_eq!(s.num_alive(), 1);
    match s.schedule() {
        BatchPlan::Decode { req_ids, bucket, last_tokens, positions, context_lens, .. } => {
            assert_eq!(req_ids, vec![ReqId(1)]);
            assert_eq!(bucket, 1);
            assert_eq!(last_tokens, vec![TokenId(12)]);
            assert_eq!(positions, vec![2]);
            assert_eq!(context_lens, vec![3]);
        }
        other => panic!("{other:?}"),
    }
}

#[test]
fn new_requests_are_prefilled_before_others_decode() {
    let mut s = Scheduler::new();
    s.enqueue(Request::new(ReqId(1), vec![TokenId(10)], 4));
    let _ = s.schedule();
    s.enqueue(Request::new(ReqId(2), vec![TokenId(20)], 4));
    match s.schedule() {
        BatchPlan::Prefill { req_ids, .. } => assert_eq!(req_ids, vec![ReqId(2)]),
        other => panic!("{other:?}"),
    }
    match s.schedule() {
        BatchPlan::Decode { req_ids, .. } => assert_eq!(req_ids, vec![ReqId(1), ReqId(2)]),
        other => panic!("{other:?}"),
    }
}

#[test]
fn finished_requests_leave_nothing_to_do() {
    let mut s = Scheduler::new();
    s.enqueue(Request::new(ReqId(1), vec![TokenId(10)], 1));
    let _ = s.schedule();
    s.commit_decode(&[(ReqId(1), TokenId(2))]);
    assert_eq!(s.num_alive(), 0);
    assert!(matches!(s.schedule(), BatchPlan::Idle));
}

#[test]
fn greedy_is_temperature_zero() {
    assert!(SamplingParams::greedy().is_greedy());
    assert!(SamplingParams { temperature: F32Bits((-0.0f32).to_bits()) }.is_greedy());
    assert!(!SamplingParams { temperature: F32Bits(1.0f32.to_bits()) }.is_greedy());
}
