use vstd::prelude::*;

verus! {

/// Raw virtual-memory counters as the kernel reports them: every field is a
/// page count, not a byte count. A value of this type is a single snapshot;
/// it carries no state between invocations.
#[derive(Clone, Copy, Debug, PartialEq, Eq)]
pub struct RawVmCounters {
    pub free: u64,
    pub active: u64,
    pub inactive: u64,
    pub wired: u64,
    pub zero_filled: u64,
    pub reactivations: u64,
    pub pageins: u64,
    pub pageouts: u64,
    pub faults: u64,
    pub cow_faults: u64,
    pub lookups: u64,
    pub hits: u64,
    pub purges: u64,
    pub purgeable: u64,
    pub speculative: u64,
    pub decompressions: u64,
    pub compressions: u64,
    pub swapins: u64,
    pub swapouts: u64,
    pub compressor_held: u64,
    pub throttled: u64,
    pub external: u64,
    pub internal: u64,
    pub total_uncompressed: u64,
}

/// The raw counters with every field multiplied by the page size: a 1:1
/// structural mirror of `RawVmCounters` whose fields are byte quantities.
#[derive(Clone, Copy, Debug, PartialEq, Eq)]
pub struct ScaledVmCounters {
    pub free: u64,
    pub active: u64,
    pub inactive: u64,
    pub wired: u64,
    pub zero_filled: u64,
    pub reactivations: u64,
    pub pageins: u64,
    pub pageouts: u64,
    pub faults: u64,
    pub cow_faults: u64,
    pub lookups: u64,
    pub hits: u64,
    pub purges: u64,
    pub purgeable: u64,
    pub speculative: u64,
    pub decompressions: u64,
    pub compressions: u64,
    pub swapins: u64,
    pub swapouts: u64,
    pub compressor_held: u64,
    pub throttled: u64,
    pub external: u64,
    pub internal: u64,
    pub total_uncompressed: u64,
}

} // verus!
