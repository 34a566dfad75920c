use rvllm::arch::CompileTarget;
use rvllm::runtime::probe::{
    arena_bytes, arena_gb, check_architecture, check_bring_up, count_or, new_tokens, resolve_paths,
    synthetic_prompt, BringUpFacts, PathVars, PolicySource, ProbeError, BOS_ID, DEFAULT_PROMPT_LEN, EOS_IDS,
    MINIMAL_POLICY_JSON, UNUSED_PATH_MARKER,
};

fn vars() -> PathVars {
    PathVars {
        model_dir: Some("/m".to_string()),
        kernels_dir: Some("/k".to_string()),
        cutlass_so: None,
        fa3_so: Some("/fa3.so".to_string()),
        policy: None,
    }
}

fn facts() -> BringUpFacts {
    BringUpFacts {
        major: 12,
        minor: 1,
        capacity: 4 << 30,
        requested: 4 << 30,
        gemv_module: 7,
        native_gemv: Some(9),
    }
}

#[test]
fn paths_may_be_left_out() {
    let p = resolve_paths(vars()).unwrap();
    assert_eq!((p.model_dir.as_str(), p.kernels_dir.as_str()), ("/m", "/k"));
    assert_eq!(p.cutlass_so, UNUSED_PATH_MARKER);
    assert_eq!(p.fa3_so, "/fa3.so");
    match p.policy {
        PolicySource::Minimal { dir } => assert_eq!(dir, "/k"),
        other => panic!("{other:?}"),
    }
    let given = PathVars { policy: Some("/p.json".to_string()), ..vars() };
    match resolve_paths(given).unwrap().policy {
        PolicySource::Given { path } => assert_eq!(path, "/p.json"),
        other => panic!("{other:?}"),
    }
}

#[test]
fn model_and_kernels_must_be_named() {
    let e = resolve_paths(PathVars { model_dir: None, kernels_dir: None, ..vars() }).unwrap_err();
    assert_eq!(e.message(), "missing env var: RVLLM_MODEL_DIR");
    let e = resolve_paths(PathVars { kernels_dir: None, ..vars() }).unwrap_err();
    assert_eq!(e.message(), "missing env var: RVLLM_KERNELS_DIR");
}

#[test]
fn minimal_policy_is_json_without_entries() {
    let v: serde_json::Value = serde_json::from_str(MINIMAL_POLICY_JSON).unwrap();
    assert_eq!(v["arch"], "sm_121");
    assert_eq!(v["revision"], "probe-sm121");
    assert!(v["variants"].as_array().unwrap().is_empty());
    assert!(v["entries"].as_object().unwrap().is_empty());
}

#[test]
fn arena_sizes() {
    assert_eq!(arena_gb(None), Some(4));
    assert_eq!(arena_gb(Some("16")), Some(16));
    assert_eq!(arena_gb(Some("16 ")), None);
    assert_eq!(arena_gb(Some("")), None);
    assert_eq!(arena_bytes(4), 4 * 1024 * 1024 * 1024);
    assert_eq!(arena_bytes(0), 0);
}

#[test]
fn counts_fall_back() {
    assert_eq!(count_or(None, 8), 8);
    assert_eq!(count_or(Some("200"), 8), 200);
    assert_eq!(count_or(Some("many"), 8), 8);
    assert_eq!(count_or(Some("-1"), 8), 8);
}

#[test]
fn bring_up_on_blackwell() {
    let r = check_bring_up(facts()).unwrap();
    assert_eq!(r.target, CompileTarget::Sm121);
    assert!(r.unified && r.native_gemv);
}

#[test]
fn bring_up_elsewhere() {
    let r = check_bring_up(BringUpFacts { major: 9, minor: 0, native_gemv: None, ..facts() })
        .unwrap();
    assert_eq!(r.target, CompileTarget::Sm90);
    assert!(!r.unified && !r.native_gemv);
}

#[test]
fn bring_up_failures() {
    let cases = [
        (
            BringUpFacts { capacity: 1, requested: 2, ..facts() },
            ProbeError::ArenaCapacity { got: 1, requested: 2 },
            "arena capacity 1 != requested 2",
        ),
        (
            BringUpFacts { major: -3, minor: 2, ..facts() },
            ProbeError::UnsupportedCapability { major: -3, minor: 2 },
            "unsupported compute cap -3.2 (should have failed earlier)",
        ),
        (
            BringUpFacts { gemv_module: 0, ..facts() },
            ProbeError::GemvModuleMissing,
            "fp8_gemv_mod.raw() == 0 (module not loaded)",
        ),
        (
            BringUpFacts { native_gemv: Some(0), ..facts() },
            ProbeError::NativeGemvNull,
            "fn_fp8_gemv_wpr_native_f16in is Some but raw() == 0",
        ),
        (
            BringUpFacts { native_gemv: None, ..facts() },
            ProbeError::NativeGemvMissing { target: CompileTarget::Sm121 },
            "fn_fp8_gemv_wpr_native_f16in unexpectedly None on target Some(Sm121) — available_for says it should be resolved",
        ),
        (
            BringUpFacts { major: 8, minor: 9, ..facts() },
            ProbeError::NativeGemvUnexpected { target: CompileTarget::Sm89 },
            "fn_fp8_gemv_wpr_native_f16in unexpectedly Some on non-Blackwell target Some(Sm89)",
        ),
    ];
    for (f, wanted, text) in cases {
        let e = check_bring_up(f).unwrap_err();
        assert_eq!(e, wanted);
        assert_eq!(e.message(), text);
    }
}

#[test]
fn only_gemma4_is_probed() {
    assert_eq!(check_architecture("Gemma4ForConditionalGeneration", "/m"), Ok(()));
    assert_eq!(check_architecture("Gemma4", "/m"), Ok(()));
    let e = check_architecture("Gemma3ForCausalLM", "/m").unwrap_err();
    assert_eq!(e.message(), "expected Gemma4 architecture in /m, got Gemma3ForCausalLM");
    assert!(check_architecture("", "/m").is_err());
}

#[test]
fn synthetic_prompts() {
    assert_eq!(synthetic_prompt(0), vec![2]);
    assert_eq!(synthetic_prompt(1), vec![BOS_ID]);
    assert_eq!(
        synthetic_prompt(DEFAULT_PROMPT_LEN),
        vec![2, 144, 181, 218, 255, 292, 329, 366]
    );
    let long = synthetic_prompt(5000);
    assert_eq!(long.len(), 5000);
    assert_eq!(long[2703], 107 + (2703 * 37) % 100_000);
    assert!(long[1..].iter().all(|&t| (107..100_107).contains(&t)));
    assert_eq!(EOS_IDS, [1, 107]);
}

#[test]
fn generated_tokens() {
    assert_eq!(new_tokens(40, 8), 32);
    assert_eq!(new_tokens(8, 8), 0);
    assert_eq!(new_tokens(3, 8), 0);
}
