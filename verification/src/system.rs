//! Hardware profiler: turns raw host signals (CPU count, total memory, GPU
//! presence) into a capability snapshot and a recommended tier name.
//!
//! The OS queries that cannot be reasoned about (CPU enumeration, the memory
//! probe) sit behind two small trusted wrappers; everything that decides —
//! the fallback for a failed memory query and the tier classification — is
//! verified. GPU presence is a heuristic: the caller reports whether either of
//! two environment signals is set, and absence of both means "no GPU".

use vstd::prelude::*;

verus! {

/// Snapshot of the host's capabilities, created fresh on every profiling
/// request and never persisted.
#[derive(Debug, Clone)]
pub struct SystemInfo {
    pub platform: String,
    pub arch: String,
    pub cpu_count: usize,
    pub memory_total: u64,
    pub has_gpu: bool,
    pub recommended_config: String,
}

/// Memory assumed when the OS query is unavailable: a conservative 8 GB.
pub const DEFAULT_MEMORY_BYTES: u64 = 8_000_000_000;

/// The tier name recommended for a host: "high-performance" only above 16 GB
/// with a GPU, "standard" above 8 GB, "lightweight" otherwise. Both thresholds
/// are strict: memory exactly equal to a threshold falls to the lower tier.
pub open spec fn spec_classify(memory_total: u64, has_gpu: bool) -> Seq<char> {
    if memory_total > 16_000_000_000 && has_gpu {
        "high-performance"@
    } else if memory_total > 8_000_000_000 {
        "standard"@
    } else {
        "lightweight"@
    }
}

/// Recommends a starting tier for a host. A pure, total function of the two
/// inputs; the `Custom` tier is never auto-selected.
pub fn classify(memory_total: u64, has_gpu: bool) -> (r: String)
    ensures
        r@ == spec_classify(memory_total, has_gpu),
{
    if memory_total > 16_000_000_000 && has_gpu {
        String::from_str("high-performance")
    } else if memory_total > 8_000_000_000 {
        String::from_str("standard")
    } else {
        String::from_str("lightweight")
    }
}

/// Law: classification is a total function of memory and GPU flag alone — it
/// always yields one of the three fixed names — and the thresholds are
/// strict: memory of exactly 16e9 bytes with a GPU is still "standard", and
/// exactly 8e9 bytes is still "lightweight".
pub proof fn lemma_classify_total_and_strict()
    ensures
        forall|m: u64, g: bool|
            #[trigger] spec_classify(m, g) == "high-performance"@
                || spec_classify(m, g) == "standard"@
                || spec_classify(m, g) == "lightweight"@,
        forall|g: bool| spec_classify(16_000_000_000u64, g) == "standard"@,
        forall|g: bool| spec_classify(8_000_000_000u64, g) == "lightweight"@,
{
}

/// Total memory in bytes derived from the probe's outcome: the reported
/// kibibyte count converted to bytes (saturating at `u64::MAX`, which no real
/// host reaches), or the conservative default when the query failed.
pub open spec fn spec_effective_memory(probed_kib: Option<u64>) -> u64 {
    match probed_kib {
        Some(kib) => if kib > u64::MAX / 1024 {
            u64::MAX
        } else {
            (kib * 1024) as u64
        },
        None => DEFAULT_MEMORY_BYTES,
    }
}

/// Converts the memory probe's outcome to a byte count, falling back to the
/// default. A failed query degrades to the default rather than failing the
/// whole operation.
pub fn effective_memory(probed_kib: Option<u64>) -> (r: u64)
    ensures
        r == spec_effective_memory(probed_kib),
{
    match probed_kib {
        Some(kib) => if kib > u64::MAX / 1024 {
            u64::MAX
        } else {
            kib * 1024
        },
        None => DEFAULT_MEMORY_BYTES,
    }
}

/// Relies on num_cpus::get for the logical CPU count; its documentation
/// promises a result of at least 1.
#[verifier::external_body]
fn cpu_count() -> (n: usize)
    ensures
        n >= 1,
{
    num_cpus::get()
}

/// Relies on sys_info::mem_info for the host's total physical memory in
/// kibibytes; the outcome depends on the host and on whether the OS query
/// succeeds, so nothing is stated about the value.
#[verifier::external_body]
fn memory_total_kib() -> (r: Option<u64>) {
    match sys_info::mem_info() {
        Ok(m) => Some(m.total),
        Err(_) => None,
    }
}

/// Profiles the host and recommends a tier. Cannot fail: a failed memory
/// query falls back to the default estimate. The caller supplies the platform
/// and architecture names and the two environment GPU signals (this is a
/// heuristic, not a hardware probe).
pub fn get_system_info(
    platform: String,
    arch: String,
    cuda_signal: bool,
    gpu_device_signal: bool,
) -> (info: SystemInfo)
    ensures
        info.platform@ == platform@,
        info.arch@ == arch@,
        info.cpu_count >= 1,
        info.has_gpu == (cuda_signal || gpu_device_signal),
        info.recommended_config@ == spec_classify(info.memory_total, info.has_gpu),
{
    let cpu_count = cpu_count();
    let memory_total = effective_memory(memory_total_kib());
    let has_gpu = cuda_signal || gpu_device_signal;
    let recommended_config = classify(memory_total, has_gpu);
    SystemInfo { platform, arch, cpu_count, memory_total, has_gpu, recommended_config }
}

} // verus!
