//! Typed errors. Every failure names the operation that failed and carries the
//! context that a log line needs.

use crate::dtype::DType;
use crate::text::{decimal, decimal_of};
use vstd::prelude::*;

verus! {

/// What kind of CUDA driver failure was seen.
#[derive(Copy, Clone, Debug, PartialEq, Eq, Structural)]
pub enum CudaErrorKind {
    AllocFailed,
    LaunchFailed,
    ModuleLoadFailed,
    Other,
}

/// Grid, block and shared memory of a kernel launch.
#[derive(Copy, Clone, Debug, PartialEq, Eq)]
pub struct Launch {
    pub grid: (u32, u32, u32),
    pub block: (u32, u32, u32),
    pub smem: u32,
}

/// Where a CUDA call failed.
#[derive(Copy, Clone, Debug)]
pub struct CudaCtx {
    pub stream: u64,
    pub kernel: &'static str,
    pub launch: Option<Launch>,
    pub device: i32,
}

impl CudaCtx {
    /// Context of a call that belongs to no stream, kernel or device.
    pub fn setup() -> (r: CudaCtx)
        ensures
            r == CudaCtx::setup_ctx(),
    {
        CudaCtx { stream: 0, kernel: "", launch: None, device: -1 }
    }

    pub open spec fn setup_ctx() -> CudaCtx {
        CudaCtx { stream: 0, kernel: "", launch: None, device: -1i32 }
    }
}

#[derive(Debug)]
pub enum AttentionError {
    /// `libfa3_kernels.so` or one of its required entry points is not there.
    Fa3SoMissing { path: String },
    /// The kernels are not built for this head dimension.
    UnsupportedHeadDim { got: u32, supported: [u32; 3] },
    /// Query heads do not divide evenly among the KV heads.
    GqaRatioInvalid { num_heads: u32, num_kv_heads: u32 },
    /// The backend has no kernel for the operation.
    FeatureNotAvailable { op: &'static str, backend: &'static str },
    KernelLaunchFailed { cuda: CudaErrorKind },
}

#[derive(Copy, Clone, Debug)]
pub struct AttnCtx {
    pub op: &'static str,
    pub stream: u64,
    pub num_seqs: u32,
    pub head_dim: u32,
}

#[derive(Debug)]
pub enum CutlassError {
    AutotuneCacheMiss { m: u32, n: u32, k: u32, dtype: DType },
    KernelLaunchFailed { variant: u32, cuda: CudaErrorKind },
    FeatureNotAvailable { op: &'static str },
    WorkspaceTooSmall { needed: usize, got: usize },
}

#[derive(Copy, Clone, Debug)]
pub struct CutlassCtx {
    pub kernel: &'static str,
    pub stream: u64,
}

#[derive(Debug)]
pub enum LoaderError {
    Corrupt { detail: String },
}

#[derive(Debug)]
pub struct LoaderCtx {
    pub path: String,
    pub tensor: Option<String>,
}

#[derive(Debug)]
pub enum ConfigError {
    MissingHfField { name: &'static str, file: String },
    HfTypeMismatch { name: &'static str, expected: &'static str },
}

#[derive(Debug)]
pub enum SamplingError {
    InvalidParams { reason: String },
}

#[derive(Copy, Clone, Debug)]
pub struct SampleCtx {
    pub op: &'static str,
    pub stream: u64,
}

/// The one error type of the engine.
#[derive(Debug)]
#[allow(inconsistent_fields)]
pub enum RvllmError {
    Attention { err: AttentionError, ctx: AttnCtx },
    Cuda { op: &'static str, kind: CudaErrorKind, ctx: CudaCtx },
    Cutlass { err: CutlassError, ctx: CutlassCtx },
    Loader { err: LoaderError, ctx: LoaderCtx },
    Config { err: ConfigError, field: &'static str },
    Sampling { err: SamplingError, ctx: SampleCtx },
    Io { path: String },
}

impl RvllmError {
    pub fn cuda(op: &'static str, kind: CudaErrorKind, ctx: CudaCtx) -> (r: RvllmError)
        ensures
            r == (RvllmError::Cuda { op, kind, ctx }),
    {
        RvllmError::Cuda { op, kind, ctx }
    }

    pub fn cutlass(err: CutlassError, ctx: CutlassCtx) -> (r: RvllmError)
        ensures
            r == (RvllmError::Cutlass { err, ctx }),
    {
        RvllmError::Cutlass { err, ctx }
    }

    pub fn config(err: ConfigError, field: &'static str) -> (r: RvllmError)
        ensures
            r == (RvllmError::Config { err, field }),
    {
        RvllmError::Config { err, field }
    }
}

impl CudaErrorKind {
    pub open spec fn text(self) -> Seq<char> {
        match self {
            CudaErrorKind::AllocFailed => "AllocFailed"@,
            CudaErrorKind::LaunchFailed => "LaunchFailed"@,
            CudaErrorKind::ModuleLoadFailed => "ModuleLoadFailed"@,
            CudaErrorKind::Other => "Other"@,
        }
    }

    fn name(self) -> (r: &'static str)
        ensures
            r@ == self.text(),
    {
        match self {
            CudaErrorKind::AllocFailed => "AllocFailed",
            CudaErrorKind::LaunchFailed => "LaunchFailed",
            CudaErrorKind::ModuleLoadFailed => "ModuleLoadFailed",
            CudaErrorKind::Other => "Other",
        }
    }
}

impl RvllmError {
    /// What `message` prints.
    pub open spec fn text(self) -> Seq<char> {
        match self {
            RvllmError::Attention { err, ctx } => ctx.op@ + ": "@ + match err {
                AttentionError::Fa3SoMissing { path } => "Fa3SoMissing "@ + path@,
                AttentionError::UnsupportedHeadDim { got, supported } => "UnsupportedHeadDim "@
                    + decimal(got as nat),
                AttentionError::GqaRatioInvalid { num_heads, num_kv_heads } => "GqaRatioInvalid "@
                    + decimal(num_heads as nat) + "/"@ + decimal(num_kv_heads as nat),
                AttentionError::FeatureNotAvailable { op, backend } => "FeatureNotAvailable "@ + op@
                    + " on "@ + backend@,
                AttentionError::KernelLaunchFailed { cuda } => "KernelLaunchFailed "@ + cuda.text(),
            },
            RvllmError::Cuda { op, kind, ctx } => op@ + ": "@ + kind.text(),
            RvllmError::Cutlass { err, ctx } => ctx.kernel@ + ": "@ + match err {
                CutlassError::AutotuneCacheMiss { m, n, k, dtype } => "AutotuneCacheMiss "@
                    + decimal(m as nat) + "x"@ + decimal(n as nat) + "x"@ + decimal(k as nat),
                CutlassError::KernelLaunchFailed { variant, cuda } => "KernelLaunchFailed "@
                    + cuda.text() + " in variant "@ + decimal(variant as nat),
                CutlassError::FeatureNotAvailable { op } => "FeatureNotAvailable "@ + op@,
                CutlassError::WorkspaceTooSmall { needed, got } => "WorkspaceTooSmall "@ + decimal(
                    got as nat,
                ) + " of "@ + decimal(needed as nat),
            },
            RvllmError::Loader { err, ctx } => match err {
                LoaderError::Corrupt { detail } => "Corrupt "@ + detail@,
            },
            RvllmError::Config { err, field } => match err {
                ConfigError::MissingHfField { name, file } => "MissingHfField "@ + name@ + " in "@
                    + file@,
                ConfigError::HfTypeMismatch { name, expected } => "HfTypeMismatch "@ + name@
                    + ": expected "@ + expected@,
            },
            RvllmError::Sampling { err, ctx } => ctx.op@ + ": "@ + match err {
                SamplingError::InvalidParams { reason } => "InvalidParams "@ + reason@,
            },
            RvllmError::Io { path } => "Io "@ + path@,
        }
    }

    /// The error in words, for logs.
    pub fn message(&self) -> (r: String)
        ensures
            r@ == self.text(),
    {
        match self {
            RvllmError::Attention { err, ctx } => {
                let mut s = ctx.op.to_owned();
                s.append(": ");
                let tail = match err {
                    AttentionError::Fa3SoMissing { path } => {
                        "Fa3SoMissing ".to_owned().concat(path.as_str())
                    },
                    AttentionError::UnsupportedHeadDim { got, supported } => {
                        "UnsupportedHeadDim ".to_owned().concat(decimal_of(*got as u64).as_str())
                    },
                    AttentionError::GqaRatioInvalid { num_heads, num_kv_heads } => {
                        let mut t = "GqaRatioInvalid ".to_owned();
                        t.append(decimal_of(*num_heads as u64).as_str());
                        t.append("/");
                        t.append(decimal_of(*num_kv_heads as u64).as_str());
                        t
                    },
                    AttentionError::FeatureNotAvailable { op, backend } => {
                        let mut t = "FeatureNotAvailable ".to_owned();
                        t.append(op);
                        t.append(" on ");
                        t.append(backend);
                        t
                    },
                    AttentionError::KernelLaunchFailed { cuda } => {
                        "KernelLaunchFailed ".to_owned().concat(cuda.name())
                    },
                };
                s.append(tail.as_str());
                s
            },
            RvllmError::Cuda { op, kind, ctx } => {
                let mut s = (*op).to_owned();
                s.append(": ");
                s.append(kind.name());
                s
            },
            RvllmError::Cutlass { err, ctx } => {
                let mut s = ctx.kernel.to_owned();
                s.append(": ");
                let tail = match err {
                    CutlassError::AutotuneCacheMiss { m, n, k, dtype } => {
                        let mut t = "AutotuneCacheMiss ".to_owned();
                        t.append(decimal_of(*m as u64).as_str());
                        t.append("x");
                        t.append(decimal_of(*n as u64).as_str());
                        t.append("x");
                        t.append(decimal_of(*k as u64).as_str());
                        t
                    },
                    CutlassError::KernelLaunchFailed { variant, cuda } => {
                        let mut t = "KernelLaunchFailed ".to_owned();
                        t.append(cuda.name());
                        t.append(" in variant ");
                        t.append(decimal_of(*variant as u64).as_str());
                        t
                    },
                    CutlassError::FeatureNotAvailable { op } => {
                        "FeatureNotAvailable ".to_owned().concat(op)
                    },
                    CutlassError::WorkspaceTooSmall { needed, got } => {
                        let mut t = "WorkspaceTooSmall ".to_owned();
                        t.append(decimal_of(*got as u64).as_str());
                        t.append(" of ");
                        t.append(decimal_of(*needed as u64).as_str());
                        t
                    },
                };
                s.append(tail.as_str());
                s
            },
            RvllmError::Loader { err, ctx } => match err {
                LoaderError::Corrupt { detail } => "Corrupt ".to_owned().concat(detail.as_str()),
            },
            RvllmError::Config { err, field } => match err {
                ConfigError::MissingHfField { name, file } => {
                    let mut t = "MissingHfField ".to_owned();
                    t.append(name);
                    t.append(" in ");
                    t.append(file.as_str());
                    t
                },
                ConfigError::HfTypeMismatch { name, expected } => {
                    let mut t = "HfTypeMismatch ".to_owned();
                    t.append(name);
                    t.append(": expected ");
                    t.append(expected);
                    t
                },
            },
            RvllmError::Sampling { err, ctx } => {
                let mut s = ctx.op.to_owned();
                s.append(": ");
                match err {
                    SamplingError::InvalidParams { reason } => {
                        s.append("InvalidParams ");
                        s.append(reason.as_str());
                    },
                }
                s
            },
            RvllmError::Io { path } => "Io ".to_owned().concat(path.as_str()),
        }
    }
}

/// A message says where an error arose and what it is about: it starts with the
/// operation or kernel of the error's context, and ends with what the error names.
pub proof fn messages_name_place_and_subject(e: RvllmError, m: String)
    requires
        call_ensures(RvllmError::message, (&e,), m),
    ensures
        match e {
            RvllmError::Attention { err, ctx } => (ctx.op@ + ": "@).is_prefix_of(m@) && match err {
                AttentionError::Fa3SoMissing { path } => path@.is_suffix_of(m@),
                AttentionError::UnsupportedHeadDim { got, .. } => decimal(
                    got as nat,
                ).is_suffix_of(m@),
                AttentionError::GqaRatioInvalid { num_heads, num_kv_heads } => (decimal(
                    num_heads as nat,
                ) + "/"@ + decimal(num_kv_heads as nat)).is_suffix_of(m@),
                AttentionError::FeatureNotAvailable { op, backend } => (op@ + " on "@
                    + backend@).is_suffix_of(m@),
                AttentionError::KernelLaunchFailed { cuda } => cuda.text().is_suffix_of(m@),
            },
            RvllmError::Cuda { op, kind, .. } => (op@ + ": "@).is_prefix_of(m@)
                && kind.text().is_suffix_of(m@),
            RvllmError::Cutlass { err, ctx } => (ctx.kernel@ + ": "@).is_prefix_of(m@) && match
                err {
                CutlassError::AutotuneCacheMiss { m: a, n: b, k: c, .. } => (decimal(a as nat)
                    + "x"@ + decimal(b as nat) + "x"@ + decimal(c as nat)).is_suffix_of(m@),
                CutlassError::KernelLaunchFailed { variant, .. } => decimal(
                    variant as nat,
                ).is_suffix_of(m@),
                CutlassError::FeatureNotAvailable { op } => op@.is_suffix_of(m@),
                CutlassError::WorkspaceTooSmall { needed, got } => (decimal(got as nat) + " of "@
                    + decimal(needed as nat)).is_suffix_of(m@),
            },
            RvllmError::Loader { err: LoaderError::Corrupt { detail }, .. } => detail@.is_suffix_of(
                m@,
            ),
            RvllmError::Config { err, .. } => match err {
                ConfigError::MissingHfField { name, file } => (name@ + " in "@
                    + file@).is_suffix_of(m@),
                ConfigError::HfTypeMismatch { name, expected } => (name@ + ": expected "@
                    + expected@).is_suffix_of(m@),
            },
            RvllmError::Sampling { err: SamplingError::InvalidParams { reason }, ctx } => (ctx.op@
                + ": "@).is_prefix_of(m@) && reason@.is_suffix_of(m@),
            RvllmError::Io { path } => path@.is_suffix_of(m@),
        },
{
}

} // verus!
