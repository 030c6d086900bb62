use vstd::prelude::*;

verus! {

/// Identifies which kernel query an error arose from.
#[derive(Clone, Copy, Debug, PartialEq, Eq)]
pub enum QueryOperation {
    PageSize,
    VmCounters,
    TotalRam,
    SwapTotals,
}

/// Identifies which arithmetic step would have exceeded the representable
/// range: scaling one of the raw counters, or summing the used-RAM terms.
#[derive(Clone, Copy, Debug, PartialEq, Eq)]
pub enum OverflowField {
    Free,
    Active,
    Inactive,
    Wired,
    ZeroFilled,
    Reactivations,
    Pageins,
    Pageouts,
    Faults,
    CowFaults,
    Lookups,
    Hits,
    Purges,
    Purgeable,
    Speculative,
    Decompressions,
    Compressions,
    Swapins,
    Swapouts,
    CompressorHeld,
    Throttled,
    External,
    Internal,
    TotalUncompressed,
    UsedRamTotal,
}

/// Non-fatal advisory: the used-RAM derivation went negative, which correct
/// kernel accounting should never produce. The result is clamped to zero and
/// this record carries the value that was actually computed.
#[derive(Clone, Copy, Debug, PartialEq, Eq)]
pub struct InconsistentCountersWarning {
    pub computed_value: i128,
}

/// A fatal error of the reporting pipeline. Errors are propagated to the
/// top-level caller; no partial report is produced.
#[derive(Clone, Copy, Debug, PartialEq, Eq)]
pub enum MemError {
    /// A kernel query failed: the query reported a non-zero return code, or
    /// returned a value outside its documented range.
    KernelQueryError { operation: QueryOperation, return_code: i32 },
    /// An arithmetic scaling or summation step would exceed `u64`.
    OverflowError { field: OverflowField },
}

} // verus!
