use rvllm::arch::CompileTarget;
use rvllm::dtype::DType;
use rvllm::env::{first_unknown_rvllm_env, ENV_WHITELIST};
use rvllm::error::{
    AttentionError, AttnCtx, ConfigError, CudaCtx, CudaErrorKind, CutlassCtx, CutlassError,
    LoaderCtx, LoaderError, RvllmError, SampleCtx, SamplingError,
};
use rvllm::hf::{
    bool_field_opt, f32_field, parse_index, str_field, str_from, usize_field, usize_from,
};
use rvllm::ids::{F32Bits, F64Bits};
use rvllm::text::{decimal_of, has_char, has_prefix, parse_number, same_text};

#[test]
fn sm_str_matches_nvcc_flag() {
    assert_eq!(CompileTarget::Sm80.as_sm_str(), "sm_80");
    assert_eq!(CompileTarget::Sm89.as_sm_str(), "sm_89");
    assert_eq!(CompileTarget::Sm90.as_sm_str(), "sm_90");
    assert_eq!(CompileTarget::Sm121.as_sm_str(), "sm_121");
}

#[test]
fn compute_cap_to_target() {
    assert_eq!(
        CompileTarget::from_compute_capability(9, 0),
        Some(CompileTarget::Sm90),
    );
    assert_eq!(
        CompileTarget::from_compute_capability(12, 1),
        Some(CompileTarget::Sm121),
    );
    assert_eq!(
        CompileTarget::from_compute_capability(8, 0),
        Some(CompileTarget::Sm80),
    );
}

#[test]
fn unknown_cc_returns_none() {
    // RTX 5090 and RTX 5080 are not built for, nor is a later Hopper.
    assert_eq!(CompileTarget::from_compute_capability(12, 0), None);
    assert_eq!(CompileTarget::from_compute_capability(12, 2), None);
    assert_eq!(CompileTarget::from_compute_capability(9, 5), None);
}

#[test]
fn sm121_is_distinct_from_sm120_and_sm122() {
    assert_ne!(
        CompileTarget::from_compute_capability(12, 1),
        CompileTarget::from_compute_capability(12, 0),
    );
}

#[test]
fn every_target_is_found_by_its_capability() {
    let all = [
        (CompileTarget::Sm80, 8, 0),
        (CompileTarget::Sm89, 8, 9),
        (CompileTarget::Sm90, 9, 0),
        (CompileTarget::Sm121, 12, 1),
    ];
    for (i, (t, major, minor)) in all.iter().enumerate() {
        assert_eq!(CompileTarget::from_compute_capability(*major, *minor), Some(*t));
        for (j, (u, _, _)) in all.iter().enumerate() {
            assert_eq!(i == j, t.as_sm_str() == u.as_sm_str());
        }
    }
    assert_eq!(CompileTarget::from_compute_capability(-8, 0), None);
}

#[test]
fn whitelist_is_sorted_and_unique() {
    let mut sorted = ENV_WHITELIST.to_vec();
    sorted.sort();
    sorted.dedup();
    assert_eq!(sorted.as_slice(), ENV_WHITELIST);
}

#[test]
fn detects_unknown_env_in_process() {
    // One bad, one good: the bad one is found.
    let keys = vec![
        "PATH".to_string(),
        "RVLLM_DEVICE".to_string(),
        "RVLLM_DEFINITELY_NOT_REAL".to_string(),
    ];
    let bad = first_unknown_rvllm_env(&keys);
    assert_eq!(bad.as_deref(), Some("RVLLM_DEFINITELY_NOT_REAL"));
}

#[test]
fn known_and_foreign_variables_pass() {
    let mut keys: Vec<String> = ENV_WHITELIST.iter().map(|k| k.to_string()).collect();
    keys.push("HOME".to_string());
    keys.push("RVLLM".to_string());
    keys.push("MY_RVLLM_DEVICE".to_string());
    assert_eq!(first_unknown_rvllm_env(&keys), None);
    keys.push("RVLLM_".to_string());
    keys.push("RVLLM_LOGS".to_string());
    assert_eq!(first_unknown_rvllm_env(&keys).as_deref(), Some("RVLLM_"));
    assert_eq!(first_unknown_rvllm_env(&vec![]), None);
}

#[test]
fn dtype_sizes() {
    assert_eq!(DType::F32.bytes(), 4);
    assert_eq!(DType::F16.bytes(), 2);
    assert_eq!(DType::Bf16.bytes(), 2);
    assert_eq!(DType::Fp8E4M3.bytes(), 1);
}

#[test]
fn decimals_are_written_and_read_back() {
    for n in [0u64, 7, 10, 99, 100, 1_000_000_007, u64::MAX] {
        assert_eq!(decimal_of(n), n.to_string());
        assert_eq!(parse_number(&decimal_of(n)), Some(n));
    }
}

#[test]
fn numbers_parse_as_the_standard_library_does() {
    for s in [
        "", "+", "-", "0", "+0", "00012", "+7", "++7", "-1", " 1", "1 ", "12x", "x12", "4,2",
        "18446744073709551615", "18446744073709551616", "99999999999999999999999",
        "+18446744073709551615", "\u{0661}",
    ] {
        assert_eq!(parse_number(s), s.parse::<u64>().ok(), "{s:?}");
        assert_eq!(parse_index(s), s.parse::<usize>().ok(), "{s:?}");
    }
}

#[test]
fn text_comparisons() {
    assert!(same_text("größe", "größe"));
    assert!(!same_text("a", "ab"));
    assert!(has_prefix("RVLLM_LOG", "RVLLM_"));
    assert!(has_prefix("x", ""));
    assert!(!has_prefix("RVLL", "RVLLM_"));
    assert!(has_char("a\0b", '\0'));
    assert!(!has_char("ab", '\0'));
}

#[test]
fn float_bits_order_as_floats_do() {
    let values = [
        0.0f32, -0.0, 1.0, -1.0, 0.5, 1e-40, -1e-40, f32::MAX, f32::MIN, f32::INFINITY,
        f32::NEG_INFINITY, f32::NAN,
    ];
    for a in values {
        assert_eq!(F32Bits(a.to_bits()).zero(), a == 0.0);
        for b in values {
            let bits = F32Bits(a.to_bits()).less_than(&F32Bits(b.to_bits()));
            assert_eq!(bits, a < b, "{a} < {b}");
            let (c, d) = (a as f64, b as f64);
            let wide = F64Bits(c.to_bits()).less_than(&F64Bits(d.to_bits()));
            assert_eq!(wide, c < d, "{c} < {d}");
        }
    }
}

fn config() -> serde_json::Value {
    serde_json::from_str(
        r#"{
            "num_heads": 32,
            "big": 18446744073709551615,
            "negative": -1,
            "half": 0.5,
            "whole": 4.0,
            "tie": true,
            "name": "gemma",
            "empty": null,
            "architectures": ["Gemma4ForCausalLM", "Other"],
            "text_config": {"0": "zero", "model_type": "gemma4", "nested": {"deep": "yes"}}
        }"#,
    )
    .unwrap()
}

#[test]
fn integer_fields() {
    let v = config();
    assert_eq!(usize_field(&v, "num_heads", "config.json").unwrap(), 32);
    assert_eq!(usize_field(&v, "big", "config.json").unwrap(), usize::MAX);
    for name in ["negative", "half", "whole", "tie", "name", "empty", "architectures"] {
        match usize_field(&v, name, "config.json") {
            Err(RvllmError::Config {
                err: ConfigError::HfTypeMismatch { name: n, expected },
                field,
            }) => {
                assert_eq!((n, expected, field), (name, "non-negative integer", name));
            }
            other => panic!("{name}: {other:?}"),
        }
    }
    match usize_field(&v, "no_such_field", "config.json") {
        Err(RvllmError::Config { err: ConfigError::MissingHfField { name, file }, field }) => {
            assert_eq!((name, file.as_str(), field), ("no_such_field", "config.json", "no_such_field"));
        }
        other => panic!("{other:?}"),
    }
    assert!(usize_field(&serde_json::Value::Null, "num_heads", "f").is_err());
}

#[test]
fn boolean_fields() {
    let v = config();
    assert_eq!(bool_field_opt(&v, "tie"), Some(true));
    assert_eq!(bool_field_opt(&v, "name"), None);
    assert_eq!(bool_field_opt(&v, "no_such_field"), None);
}

#[test]
fn number_fields_take_what_was_read() {
    let half = F32Bits(0.5f32.to_bits());
    assert_eq!(f32_field(Some(half), "half", "config.json").unwrap(), half);
    let e = f32_field(None, "half", "config.json").unwrap_err();
    assert_eq!(e.message(), "MissingHfField half in config.json");
}

#[test]
fn dotted_string_fields() {
    let v = config();
    let file = "config.json";
    assert_eq!(str_field(&v, "name", file).unwrap(), "gemma");
    assert_eq!(str_field(&v, "architectures.0", file).unwrap(), "Gemma4ForCausalLM");
    assert_eq!(str_field(&v, "architectures.1", file).unwrap(), "Other");
    assert_eq!(str_field(&v, "architectures.+1", file).unwrap(), "Other");
    assert_eq!(str_field(&v, "text_config.model_type", file).unwrap(), "gemma4");
    assert_eq!(str_field(&v, "text_config.nested.deep", file).unwrap(), "yes");
    for path in [
        "architectures.2",
        "architectures.first",
        "text_config.0",
        "name.0",
        "text_config..deep",
        "",
        ".",
        "no.such.path",
    ] {
        match str_field(&v, path, file) {
            Err(RvllmError::Config { err: ConfigError::MissingHfField { name, .. }, .. }) => {
                assert_eq!(name, path);
            }
            other => panic!("{path}: {other:?}"),
        }
    }
    for path in ["num_heads", "text_config", "architectures", "empty"] {
        match str_field(&v, path, file) {
            Err(RvllmError::Config {
                err: ConfigError::HfTypeMismatch { name, expected },
                ..
            }) => assert_eq!((name, expected), (path, "string")),
            other => panic!("{path}: {other:?}"),
        }
    }
}

#[test]
fn looked_up_fields() {
    assert_eq!(usize_from(Some(Some(7)), "n", "f").unwrap(), 7);
    assert_eq!(
        usize_from(Some(None), "n", "f").unwrap_err().message(),
        "HfTypeMismatch n: expected non-negative integer"
    );
    assert_eq!(usize_from(None, "n", "f").unwrap_err().message(), "MissingHfField n in f");
    assert_eq!(str_from(Some(Some("x")), "s", "f").unwrap(), "x");
    assert_eq!(
        str_from(Some(None), "s", "f").unwrap_err().message(),
        "HfTypeMismatch s: expected string"
    );
    assert_eq!(str_from(None, "s", "f").unwrap_err().message(), "MissingHfField s in f");
}

#[test]
fn errors_in_words() {
    let attn = AttnCtx { op: "decode", stream: 0, num_seqs: 1, head_dim: 64 };
    let attention = |err| RvllmError::Attention { err, ctx: attn }.message();
    assert_eq!(
        attention(AttentionError::Fa3SoMissing { path: "/x.so".to_string() }),
        "decode: Fa3SoMissing /x.so"
    );
    assert_eq!(
        attention(AttentionError::UnsupportedHeadDim { got: 64, supported: [128, 256, 512] }),
        "decode: UnsupportedHeadDim 64"
    );
    assert_eq!(
        attention(AttentionError::GqaRatioInvalid { num_heads: 28, num_kv_heads: 3 }),
        "decode: GqaRatioInvalid 28/3"
    );
    assert_eq!(
        attention(AttentionError::FeatureNotAvailable { op: "prefill", backend: "mock" }),
        "decode: FeatureNotAvailable prefill on mock"
    );
    assert_eq!(
        attention(AttentionError::KernelLaunchFailed { cuda: CudaErrorKind::LaunchFailed }),
        "decode: KernelLaunchFailed LaunchFailed"
    );
    assert_eq!(
        RvllmError::cuda("cuInit", CudaErrorKind::Other, CudaCtx::setup()).message(),
        "cuInit: Other"
    );
    assert_eq!(
        RvllmError::cuda("cuMemAlloc", CudaErrorKind::AllocFailed, CudaCtx::setup()).message(),
        "cuMemAlloc: AllocFailed"
    );
    let cutlass =
        |err| RvllmError::cutlass(err, CutlassCtx { kernel: "fp8_gemm", stream: 0 }).message();
    assert_eq!(
        cutlass(CutlassError::AutotuneCacheMiss { m: 1, n: 2, k: 3, dtype: DType::Fp8E4M3 }),
        "fp8_gemm: AutotuneCacheMiss 1x2x3"
    );
    assert_eq!(
        cutlass(CutlassError::KernelLaunchFailed { variant: 7, cuda: CudaErrorKind::LaunchFailed }),
        "fp8_gemm: KernelLaunchFailed LaunchFailed in variant 7"
    );
    assert_eq!(
        cutlass(CutlassError::FeatureNotAvailable { op: "residual" }),
        "fp8_gemm: FeatureNotAvailable residual"
    );
    assert_eq!(
        cutlass(CutlassError::WorkspaceTooSmall { needed: 9, got: 4 }),
        "fp8_gemm: WorkspaceTooSmall 4 of 9"
    );
    assert_eq!(
        RvllmError::Loader {
            err: LoaderError::Corrupt { detail: "bad header".to_string() },
            ctx: LoaderCtx { path: "x".to_string(), tensor: None },
        }
        .message(),
        "Corrupt bad header"
    );
    assert_eq!(
        RvllmError::Sampling {
            err: SamplingError::InvalidParams { reason: "too long".to_string() },
            ctx: SampleCtx { op: "upload", stream: 0 },
        }
        .message(),
        "upload: InvalidParams too long"
    );
    assert_eq!(RvllmError::Io { path: "/tmp/x".to_string() }.message(), "Io /tmp/x");
}
