//! Runtime selection of the distance kernel backends.
//!
//! Each kernel has a portable scalar version and, depending on the build and on
//! the SIMD tier of the host, vectorised versions. The selection below is the
//! one table that all kernels share, and its law is that it never picks a
//! backend whose instructions the host tier does not provide.
use lance_core::utils::cpu::{SimdSupport, SIMD_SUPPORT};
use vstd::prelude::*;

verus! {

/// The SIMD tier of a host, one per tier that the CPU detection reports.
/// `Baseline` is a host without any of the other tiers; `Unknown` stands for a tier that this library does not know of.
#[derive(Clone, Copy, Debug, PartialEq, Eq)]
pub enum SimdTier {
    Baseline,
    Neon,
    Sse,
    Avx,
    AvxFma,
    Avx2,
    Avx512,
    Avx512FP16,
    Lsx,
    Lasx,
    Unknown,
}

/// The architecture that the library is built for.
#[derive(Clone, Copy, Debug, PartialEq, Eq)]
pub enum TargetArch {
    X86_64,
    Aarch64,
    LoongArch64,
    Other,
}

/// What the build provides: the architecture, whether the half-precision
/// kernels written in C were compiled in, and whether their AVX-512 version was.
#[derive(Clone, Copy, Debug, PartialEq, Eq)]
pub struct BuildConfig {
    pub arch: TargetArch,
    pub fp16_kernels: bool,
    pub avx512_kernels: bool,
}

/// Element types of the vectors.
#[derive(Clone, Copy, Debug, PartialEq, Eq)]
pub enum ElemKind {
    BFloat16,
    Float16,
    Float32,
    Float64,
}

/// The kernels whose backend is chosen at run time.
#[derive(Clone, Copy, Debug, PartialEq, Eq)]
pub enum Kernel {
    /// Dot product.
    Dot(ElemKind),
    /// Cosine distance with the norm of the first vector given.
    CosineFast(ElemKind),
    /// Cosine distance with the norms of both vectors given.
    CosineWithNorms(ElemKind),
    /// Cosine distance of two `f32` vectors of length 8.
    CosineOnce8,
    /// Cosine distance of two `f32` vectors of length 16.
    CosineOnce16,
}

/// The implementations a kernel can run on.
#[derive(Clone, Copy, Debug, PartialEq, Eq)]
pub enum Backend {
    /// Plain scalar code.
    Scalar,
    /// The library's SIMD primitives on an architecture where they need no
    /// run-time check.
    Portable,
    /// AVX2 + FMA code.
    Avx2,
    /// AVX-512 FP16 code.
    Avx512,
    /// NEON code.
    Neon,
    /// LoongArch LSX code.
    Lsx,
    /// LoongArch LASX code.
    Lasx,
}

/// The tiers on which the AVX2 + FMA kernels may run: the AVX2 tier (AVX2 and
/// FMA detected) and the two AVX-512 tiers above it.
pub open spec fn tier_runs_avx2(tier: SimdTier) -> bool {
    tier == SimdTier::Avx2 || tier == SimdTier::Avx512 || tier == SimdTier::Avx512FP16
}

/// A host of this tier, on this architecture, can run the backend.
pub open spec fn backend_runs_on(backend: Backend, tier: SimdTier, arch: TargetArch) -> bool {
    match backend {
        Backend::Scalar => true,
        Backend::Portable => arch != TargetArch::X86_64,
        Backend::Avx2 => arch == TargetArch::X86_64 && tier_runs_avx2(tier),
        Backend::Avx512 => arch == TargetArch::X86_64 && tier == SimdTier::Avx512FP16,
        Backend::Neon => arch == TargetArch::Aarch64 && tier == SimdTier::Neon,
        Backend::Lsx => arch == TargetArch::LoongArch64 && tier == SimdTier::Lsx,
        Backend::Lasx => arch == TargetArch::LoongArch64 && tier == SimdTier::Lasx,
    }
}

/// Selection for the half-precision kernels written in C. `avx2_on_avx512`
/// says whether the AVX2 version also serves the plain AVX-512 tier.
pub open spec fn half_backend(tier: SimdTier, config: BuildConfig, avx2_on_avx512: bool) -> Backend {
    if !config.fp16_kernels {
        Backend::Scalar
    } else {
        match config.arch {
            TargetArch::Aarch64 => if tier == SimdTier::Neon {
                Backend::Neon
            } else {
                Backend::Scalar
            },
            TargetArch::X86_64 => if tier == SimdTier::Avx512FP16 && config.avx512_kernels {
                Backend::Avx512
            } else if tier == SimdTier::Avx2 || (avx2_on_avx512 && tier == SimdTier::Avx512) {
                Backend::Avx2
            } else {
                Backend::Scalar
            },
            TargetArch::LoongArch64 => if tier == SimdTier::Lasx {
                Backend::Lasx
            } else if tier == SimdTier::Lsx {
                Backend::Lsx
            } else {
                Backend::Scalar
            },
            TargetArch::Other => Backend::Scalar,
        }
    }
}

/// Selection for the kernels built on the library's own SIMD primitives: on
/// x86-64 the AVX2 version when the tier has AVX2 and FMA, else scalar code;
/// elsewhere the portable SIMD version.
pub open spec fn simd_backend(tier: SimdTier, config: BuildConfig) -> Backend {
    if config.arch == TargetArch::X86_64 {
        if tier_runs_avx2(tier) {
            Backend::Avx2
        } else {
            Backend::Scalar
        }
    } else {
        Backend::Portable
    }
}

/// The backend that each kernel runs on, for a host tier and a build.
pub open spec fn backend_for(kernel: Kernel, tier: SimdTier, config: BuildConfig) -> Backend {
    match kernel {
        Kernel::Dot(ElemKind::BFloat16) => half_backend(tier, config, true),
        Kernel::Dot(ElemKind::Float16) => half_backend(tier, config, false),
        Kernel::Dot(ElemKind::Float32) => Backend::Scalar,
        Kernel::Dot(ElemKind::Float64) => simd_backend(tier, config),
        Kernel::CosineFast(ElemKind::BFloat16) => half_backend(tier, config, true),
        Kernel::CosineFast(ElemKind::Float16) => half_backend(tier, config, false),
        Kernel::CosineFast(_) => simd_backend(tier, config),
        Kernel::CosineWithNorms(ElemKind::Float32) => simd_backend(tier, config),
        Kernel::CosineWithNorms(_) => Backend::Scalar,
        Kernel::CosineOnce8 => simd_backend(tier, config),
        Kernel::CosineOnce16 => simd_backend(tier, config),
    }
}

fn select_half(tier: SimdTier, config: BuildConfig, avx2_on_avx512: bool) -> (backend: Backend)
    ensures
        backend == half_backend(tier, config, avx2_on_avx512),
{
    if !config.fp16_kernels {
        return Backend::Scalar;
    }
    match config.arch {
        TargetArch::Aarch64 => match tier {
            SimdTier::Neon => Backend::Neon,
            _ => Backend::Scalar,
        },
        TargetArch::X86_64 => match tier {
            SimdTier::Avx512FP16 if config.avx512_kernels => Backend::Avx512,
            SimdTier::Avx2 => Backend::Avx2,
            SimdTier::Avx512 if avx2_on_avx512 => Backend::Avx2,
            _ => Backend::Scalar,
        },
        TargetArch::LoongArch64 => match tier {
            SimdTier::Lasx => Backend::Lasx,
            SimdTier::Lsx => Backend::Lsx,
            _ => Backend::Scalar,
        },
        TargetArch::Other => Backend::Scalar,
    }
}

fn select_simd(tier: SimdTier, config: BuildConfig) -> (backend: Backend)
    ensures
        backend == simd_backend(tier, config),
{
    match config.arch {
        TargetArch::X86_64 => match tier {
            SimdTier::Avx2 | SimdTier::Avx512 | SimdTier::Avx512FP16 => Backend::Avx2,
            _ => Backend::Scalar,
        },
        _ => Backend::Portable,
    }
}

/// The backend that `kernel` runs on for a host of `tier` and the build
/// `config`.
pub fn select_backend(kernel: Kernel, tier: SimdTier, config: BuildConfig) -> (backend: Backend)
    ensures
        backend == backend_for(kernel, tier, config),
        backend_runs_on(backend, tier, config.arch),
{
    proof {
        lemma_selected_backend_runs(kernel, tier, config);
    }
    match kernel {
        Kernel::Dot(ElemKind::BFloat16) => select_half(tier, config, true),
        Kernel::Dot(ElemKind::Float16) => select_half(tier, config, false),
        Kernel::Dot(ElemKind::Float32) => Backend::Scalar,
        Kernel::Dot(ElemKind::Float64) => select_simd(tier, config),
        Kernel::CosineFast(ElemKind::BFloat16) => select_half(tier, config, true),
        Kernel::CosineFast(ElemKind::Float16) => select_half(tier, config, false),
        Kernel::CosineFast(_) => select_simd(tier, config),
        Kernel::CosineWithNorms(ElemKind::Float32) => select_simd(tier, config),
        Kernel::CosineWithNorms(_) => Backend::Scalar,
        Kernel::CosineOnce8 => select_simd(tier, config),
        Kernel::CosineOnce16 => select_simd(tier, config),
    }
}

/// Whatever the host and the build, the selected backend is one that the host
/// can run: AVX2 code only on the AVX2 and AVX-512 tiers, AVX-512 code only on the
/// AVX-512 FP16 tier, NEON, LSX and LASX code only on their own tiers.
pub proof fn lemma_selected_backend_runs(kernel: Kernel, tier: SimdTier, config: BuildConfig)
    ensures
        backend_runs_on(backend_for(kernel, tier, config), tier, config.arch),
{
}

/// The kernels built on the library's SIMD primitives use them wherever they
/// can: on x86-64 the AVX2 version on every AVX2 or AVX-512 tier and scalar code
/// on every other tier; on every other architecture the portable SIMD version.
pub proof fn lemma_simd_kernels_use_simd(kernel: Kernel, tier: SimdTier, config: BuildConfig)
    requires
        kernel == Kernel::Dot(ElemKind::Float64) || kernel == Kernel::CosineFast(ElemKind::Float32)
            || kernel == Kernel::CosineFast(ElemKind::Float64) || kernel == Kernel::CosineWithNorms(
            ElemKind::Float32,
        ) || kernel == Kernel::CosineOnce8 || kernel == Kernel::CosineOnce16,
    ensures
        config.arch == TargetArch::X86_64 && (tier == SimdTier::Avx2 || tier == SimdTier::Avx512
            || tier == SimdTier::Avx512FP16) ==> backend_for(kernel, tier, config) == Backend::Avx2,
        config.arch == TargetArch::X86_64 && !(tier == SimdTier::Avx2 || tier == SimdTier::Avx512
            || tier == SimdTier::Avx512FP16) ==> backend_for(kernel, tier, config)
            == Backend::Scalar,
        config.arch != TargetArch::X86_64 ==> backend_for(kernel, tier, config)
            == Backend::Portable,
{
}

/// The `bf16` and `f16` kernels use the C kernels when the build has them:
/// NEON on a NEON aarch64 host; on x86-64 the AVX-512 version on the AVX-512
/// FP16 tier when it is built, the AVX2 version on the AVX2 tier (and, for
/// `bf16` only, on the plain AVX-512 tier); LASX and LSX on their LoongArch
/// tiers; scalar code everywhere else, and always without the C kernels.
pub proof fn lemma_half_kernels_use_c_kernels(kernel: Kernel, tier: SimdTier, config: BuildConfig)
    requires
        kernel == Kernel::Dot(ElemKind::BFloat16) || kernel == Kernel::Dot(ElemKind::Float16)
            || kernel == Kernel::CosineFast(ElemKind::BFloat16) || kernel == Kernel::CosineFast(
            ElemKind::Float16,
        ),
    ensures
        !config.fp16_kernels ==> backend_for(kernel, tier, config) == Backend::Scalar,
        config.fp16_kernels && config.arch == TargetArch::Aarch64 ==> (backend_for(
            kernel,
            tier,
            config,
        ) == if tier == SimdTier::Neon {
            Backend::Neon
        } else {
            Backend::Scalar
        }),
        config.fp16_kernels && config.arch == TargetArch::X86_64 && tier == SimdTier::Avx512FP16
            ==> backend_for(kernel, tier, config) == if config.avx512_kernels {
            Backend::Avx512
        } else {
            Backend::Scalar
        },
        config.fp16_kernels && config.arch == TargetArch::X86_64 && tier == SimdTier::Avx2
            ==> backend_for(kernel, tier, config) == Backend::Avx2,
        config.fp16_kernels && config.arch == TargetArch::X86_64 && tier == SimdTier::Avx512
            ==> backend_for(kernel, tier, config) == if kernel == Kernel::Dot(ElemKind::BFloat16)
            || kernel == Kernel::CosineFast(ElemKind::BFloat16) {
            Backend::Avx2
        } else {
            Backend::Scalar
        },
        config.fp16_kernels && config.arch == TargetArch::X86_64 && !(tier == SimdTier::Avx2
            || tier == SimdTier::Avx512 || tier == SimdTier::Avx512FP16) ==> backend_for(
            kernel,
            tier,
            config,
        ) == Backend::Scalar,
        config.fp16_kernels && config.arch == TargetArch::LoongArch64 ==> (backend_for(
            kernel,
            tier,
            config,
        ) == if tier == SimdTier::Lasx {
            Backend::Lasx
        } else if tier == SimdTier::Lsx {
            Backend::Lsx
        } else {
            Backend::Scalar
        }),
        config.arch == TargetArch::Other ==> backend_for(kernel, tier, config) == Backend::Scalar,
{
}

/// The `f32` dot product, and the cosine with both norms of every type but
/// `f32`, always run scalar code.
pub proof fn lemma_scalar_only_kernels(kernel: Kernel, tier: SimdTier, config: BuildConfig)
    ensures
        kernel == Kernel::Dot(ElemKind::Float32) ==> backend_for(kernel, tier, config)
            == Backend::Scalar,
        (kernel == Kernel::CosineWithNorms(ElemKind::BFloat16) || kernel == Kernel::CosineWithNorms(
            ElemKind::Float16,
        ) || kernel == Kernel::CosineWithNorms(ElemKind::Float64)) ==> backend_for(
            kernel,
            tier,
            config,
        ) == Backend::Scalar,
{
}

/// The SIMD tier of this host, as `lance_core` detects it once per process
/// (`lance_core::utils::cpu::SIMD_SUPPORT`). Nothing is stated of it: it
/// depends on the machine.
#[verifier::external_body]
pub fn host_simd_tier() -> (tier: SimdTier) {
    match *SIMD_SUPPORT {
        SimdSupport::None => SimdTier::Baseline,
        SimdSupport::Neon => SimdTier::Neon,
        SimdSupport::Sse => SimdTier::Sse,
        SimdSupport::Avx => SimdTier::Avx,
        SimdSupport::AvxFma => SimdTier::AvxFma,
        SimdSupport::Avx2 => SimdTier::Avx2,
        SimdSupport::Avx512 => SimdTier::Avx512,
        SimdSupport::Avx512FP16 => SimdTier::Avx512FP16,
        SimdSupport::Lsx => SimdTier::Lsx,
        SimdSupport::Lasx => SimdTier::Lasx,
        _ => SimdTier::Unknown,
    }
}

/// The tier of this host and the backend that `kernel` runs on here.
pub fn host_backend(kernel: Kernel, config: BuildConfig) -> (r: (SimdTier, Backend))
    ensures
        r.1 == backend_for(kernel, r.0, config),
        backend_runs_on(r.1, r.0, config.arch),
{
    let tier = host_simd_tier();
    (tier, select_backend(kernel, tier, config))
}

} // verus!
