use vstd::prelude::*;

use crate::counters::RawVmCounters;
use crate::counters::ScaledVmCounters;
use crate::errors::InconsistentCountersWarning;
use crate::errors::MemError;
use crate::errors::OverflowField;

verus! {

/// The used-RAM figure in bytes, together with the advisory that is raised
/// when the derivation had to be clamped to zero.
#[derive(Clone, Copy, Debug, PartialEq, Eq)]
pub struct UsedRamEstimate {
    pub bytes: u64,
    pub warning: Option<InconsistentCountersWarning>,
}

/// True when every counter, multiplied by `page_size`, fits in a `u64`.
pub open spec fn spec_all_scaled_fit(c: RawVmCounters, page_size: u64) -> bool {
    &&& c.free * page_size <= u64::MAX
    &&& c.active * page_size <= u64::MAX
    &&& c.inactive * page_size <= u64::MAX
    &&& c.wired * page_size <= u64::MAX
    &&& c.zero_filled * page_size <= u64::MAX
    &&& c.reactivations * page_size <= u64::MAX
    &&& c.pageins * page_size <= u64::MAX
    &&& c.pageouts * page_size <= u64::MAX
    &&& c.faults * page_size <= u64::MAX
    &&& c.cow_faults * page_size <= u64::MAX
    &&& c.lookups * page_size <= u64::MAX
    &&& c.hits * page_size <= u64::MAX
    &&& c.purges * page_size <= u64::MAX
    &&& c.purgeable * page_size <= u64::MAX
    &&& c.speculative * page_size <= u64::MAX
    &&& c.decompressions * page_size <= u64::MAX
    &&& c.compressions * page_size <= u64::MAX
    &&& c.swapins * page_size <= u64::MAX
    &&& c.swapouts * page_size <= u64::MAX
    &&& c.compressor_held * page_size <= u64::MAX
    &&& c.throttled * page_size <= u64::MAX
    &&& c.external * page_size <= u64::MAX
    &&& c.internal * page_size <= u64::MAX
    &&& c.total_uncompressed * page_size <= u64::MAX
}

/// The elementwise scaling of every counter by `page_size`, meaningful only
/// when `spec_all_scaled_fit` holds.
pub open spec fn spec_scaled_counters(c: RawVmCounters, page_size: u64) -> ScaledVmCounters {
    ScaledVmCounters {
        free: (c.free * page_size) as u64,
        active: (c.active * page_size) as u64,
        inactive: (c.inactive * page_size) as u64,
        wired: (c.wired * page_size) as u64,
        zero_filled: (c.zero_filled * page_size) as u64,
        reactivations: (c.reactivations * page_size) as u64,
        pageins: (c.pageins * page_size) as u64,
        pageouts: (c.pageouts * page_size) as u64,
        faults: (c.faults * page_size) as u64,
        cow_faults: (c.cow_faults * page_size) as u64,
        lookups: (c.lookups * page_size) as u64,
        hits: (c.hits * page_size) as u64,
        purges: (c.purges * page_size) as u64,
        purgeable: (c.purgeable * page_size) as u64,
        speculative: (c.speculative * page_size) as u64,
        decompressions: (c.decompressions * page_size) as u64,
        compressions: (c.compressions * page_size) as u64,
        swapins: (c.swapins * page_size) as u64,
        swapouts: (c.swapouts * page_size) as u64,
        compressor_held: (c.compressor_held * page_size) as u64,
        throttled: (c.throttled * page_size) as u64,
        external: (c.external * page_size) as u64,
        internal: (c.internal * page_size) as u64,
        total_uncompressed: (c.total_uncompressed * page_size) as u64,
    }
}

/// The exact result of `scale`: the elementwise product when every product
/// fits in a `u64`, otherwise an overflow error naming the first counter (in
/// declaration order) whose product does not fit.
pub open spec fn spec_scale(c: RawVmCounters, page_size: u64) -> Result<
    ScaledVmCounters,
    MemError,
> {
    if c.free * page_size > u64::MAX {
        Err(MemError::OverflowError { field: OverflowField::Free })
    } else if c.active * page_size > u64::MAX {
        Err(MemError::OverflowError { field: OverflowField::Active })
    } else if c.inactive * page_size > u64::MAX {
        Err(MemError::OverflowError { field: OverflowField::Inactive })
    } else if c.wired * page_size > u64::MAX {
        Err(MemError::OverflowError { field: OverflowField::Wired })
    } else if c.zero_filled * page_size > u64::MAX {
        Err(MemError::OverflowError { field: OverflowField::ZeroFilled })
    } else if c.reactivations * page_size > u64::MAX {
        Err(MemError::OverflowError { field: OverflowField::Reactivations })
    } else if c.pageins * page_size > u64::MAX {
        Err(MemError::OverflowError { field: OverflowField::Pageins })
    } else if c.pageouts * page_size > u64::MAX {
        Err(MemError::OverflowError { field: OverflowField::Pageouts })
    } else if c.faults * page_size > u64::MAX {
        Err(MemError::OverflowError { field: OverflowField::Faults })
    } else if c.cow_faults * page_size > u64::MAX {
        Err(MemError::OverflowError { field: OverflowField::CowFaults })
    } else if c.lookups * page_size > u64::MAX {
        Err(MemError::OverflowError { field: OverflowField::Lookups })
    } else if c.hits * page_size > u64::MAX {
        Err(MemError::OverflowError { field: OverflowField::Hits })
    } else if c.purges * page_size > u64::MAX {
        Err(MemError::OverflowError { field: OverflowField::Purges })
    } else if c.purgeable * page_size > u64::MAX {
        Err(MemError::OverflowError { field: OverflowField::Purgeable })
    } else if c.speculative * page_size > u64::MAX {
        Err(MemError::OverflowError { field: OverflowField::Speculative })
    } else if c.decompressions * page_size > u64::MAX {
        Err(MemError::OverflowError { field: OverflowField::Decompressions })
    } else if c.compressions * page_size > u64::MAX {
        Err(MemError::OverflowError { field: OverflowField::Compressions })
    } else if c.swapins * page_size > u64::MAX {
        Err(MemError::OverflowError { field: OverflowField::Swapins })
    } else if c.swapouts * page_size > u64::MAX {
        Err(MemError::OverflowError { field: OverflowField::Swapouts })
    } else if c.compressor_held * page_size > u64::MAX {
        Err(MemError::OverflowError { field: OverflowField::CompressorHeld })
    } else if c.throttled * page_size > u64::MAX {
        Err(MemError::OverflowError { field: OverflowField::Throttled })
    } else if c.external * page_size > u64::MAX {
        Err(MemError::OverflowError { field: OverflowField::External })
    } else if c.internal * page_size > u64::MAX {
        Err(MemError::OverflowError { field: OverflowField::Internal })
    } else if c.total_uncompressed * page_size > u64::MAX {
        Err(MemError::OverflowError { field: OverflowField::TotalUncompressed })
    } else {
        Ok(spec_scaled_counters(c, page_size))
    }
}

/// Multiplies every raw page count by the page size, yielding byte
/// quantities. Pure and total: the only failure mode is a product that
/// exceeds `u64`, which is surfaced as an overflow error rather than
/// silently wrapped.
pub fn scale(counters: RawVmCounters, page_size: u64) -> (r: Result<ScaledVmCounters, MemError>)
    ensures
        r == spec_scale(counters, page_size),
        r is Ok <==> spec_all_scaled_fit(counters, page_size),
        r matches Ok(s) ==> {
            &&& s.free == counters.free * page_size
            &&& s.active == counters.active * page_size
            &&& s.inactive == counters.inactive * page_size
            &&& s.wired == counters.wired * page_size
            &&& s.zero_filled == counters.zero_filled * page_size
            &&& s.reactivations == counters.reactivations * page_size
            &&& s.pageins == counters.pageins * page_size
            &&& s.pageouts == counters.pageouts * page_size
            &&& s.faults == counters.faults * page_size
            &&& s.cow_faults == counters.cow_faults * page_size
            &&& s.lookups == counters.lookups * page_size
            &&& s.hits == counters.hits * page_size
            &&& s.purges == counters.purges * page_size
            &&& s.purgeable == counters.purgeable * page_size
            &&& s.speculative == counters.speculative * page_size
            &&& s.decompressions == counters.decompressions * page_size
            &&& s.compressions == counters.compressions * page_size
            &&& s.swapins == counters.swapins * page_size
            &&& s.swapouts == counters.swapouts * page_size
            &&& s.compressor_held == counters.compressor_held * page_size
            &&& s.throttled == counters.throttled * page_size
            &&& s.external == counters.external * page_size
            &&& s.internal == counters.internal * page_size
            &&& s.total_uncompressed == counters.total_uncompressed * page_size
        },
{
    let free = match counters.free.checked_mul(page_size) {
        Some(v) => v,
        None => {
            return Err(MemError::OverflowError { field: OverflowField::Free });
        },
    };
    let active = match counters.active.checked_mul(page_size) {
        Some(v) => v,
        None => {
            return Err(MemError::OverflowError { field: OverflowField::Active });
        },
    };
    let inactive = match counters.inactive.checked_mul(page_size) {
        Some(v) => v,
        None => {
            return Err(MemError::OverflowError { field: OverflowField::Inactive });
        },
    };
    let wired = match counters.wired.checked_mul(page_size) {
        Some(v) => v,
        None => {
            return Err(MemError::OverflowError { field: OverflowField::Wired });
        },
    };
    let zero_filled = match counters.zero_filled.checked_mul(page_size) {
        Some(v) => v,
        None => {
            return Err(MemError::OverflowError { field: OverflowField::ZeroFilled });
        },
    };
    let reactivations = match counters.reactivations.checked_mul(page_size) {
        Some(v) => v,
        None => {
            return Err(MemError::OverflowError { field: OverflowField::Reactivations });
        },
    };
    let pageins = match counters.pageins.checked_mul(page_size) {
        Some(v) => v,
        None => {
            return Err(MemError::OverflowError { field: OverflowField::Pageins });
        },
    };
    let pageouts = match counters.pageouts.checked_mul(page_size) {
        Some(v) => v,
        None => {
            return Err(MemError::OverflowError { field: OverflowField::Pageouts });
        },
    };
    let faults = match counters.faults.checked_mul(page_size) {
        Some(v) => v,
        None => {
            return Err(MemError::OverflowError { field: OverflowField::Faults });
        },
    };
    let cow_faults = match counters.cow_faults.checked_mul(page_size) {
        Some(v) => v,
        None => {
            return Err(MemError::OverflowError { field: OverflowField::CowFaults });
        },
    };
    let lookups = match counters.lookups.checked_mul(page_size) {
        Some(v) => v,
        None => {
            return Err(MemError::OverflowError { field: OverflowField::Lookups });
        },
    };
    let hits = match counters.hits.checked_mul(page_size) {
        Some(v) => v,
        None => {
            return Err(MemError::OverflowError { field: OverflowField::Hits });
        },
    };
    let purges = match counters.purges.checked_mul(page_size) {
        Some(v) => v,
        None => {
            return Err(MemError::OverflowError { field: OverflowField::Purges });
        },
    };
    let purgeable = match counters.purgeable.checked_mul(page_size) {
        Some(v) => v,
        None => {
            return Err(MemError::OverflowError { field: OverflowField::Purgeable });
        },
    };
    let speculative = match counters.speculative.checked_mul(page_size) {
        Some(v) => v,
        None => {
            return Err(MemError::OverflowError { field: OverflowField::Speculative });
        },
    };
    let decompressions = match counters.decompressions.checked_mul(page_size) {
        Some(v) => v,
        None => {
            return Err(MemError::OverflowError { field: OverflowField::Decompressions });
        },
    };
    let compressions = match counters.compressions.checked_mul(page_size) {
        Some(v) => v,
        None => {
            return Err(MemError::OverflowError { field: OverflowField::Compressions });
        },
    };
    let swapins = match counters.swapins.checked_mul(page_size) {
        Some(v) => v,
        None => {
            return Err(MemError::OverflowError { field: OverflowField::Swapins });
        },
    };
    let swapouts = match counters.swapouts.checked_mul(page_size) {
        Some(v) => v,
        None => {
            return Err(MemError::OverflowError { field: OverflowField::Swapouts });
        },
    };
    let compressor_held = match counters.compressor_held.checked_mul(page_size) {
        Some(v) => v,
        None => {
            return Err(MemError::OverflowError { field: OverflowField::CompressorHeld });
        },
    };
    let throttled = match counters.throttled.checked_mul(page_size) {
        Some(v) => v,
        None => {
            return Err(MemError::OverflowError { field: OverflowField::Throttled });
        },
    };
    let external = match counters.external.checked_mul(page_size) {
        Some(v) => v,
        None => {
            return Err(MemError::OverflowError { field: OverflowField::External });
        },
    };
    let internal = match counters.internal.checked_mul(page_size) {
        Some(v) => v,
        None => {
            return Err(MemError::OverflowError { field: OverflowField::Internal });
        },
    };
    let total_uncompressed = match counters.total_uncompressed.checked_mul(page_size) {
        Some(v) => v,
        None => {
            return Err(MemError::OverflowError { field: OverflowField::TotalUncompressed });
        },
    };
    Ok(
        ScaledVmCounters {
            free,
            active,
            inactive,
            wired,
            zero_filled,
            reactivations,
            pageins,
            pageouts,
            faults,
            cow_faults,
            lookups,
            hits,
            purges,
            purgeable,
            speculative,
            decompressions,
            compressions,
            swapins,
            swapouts,
            compressor_held,
            throttled,
            external,
            internal,
            total_uncompressed,
        },
    )
}

/// The used-RAM policy as a mathematical integer: pages the kernel considers
/// occupied (active, inactive, wired, speculative, compressor-held) minus
/// pages that are reclaimable on demand (purgeable) or reconstructible from
/// a backing file (external).
pub open spec fn spec_used_ram_value(s: ScaledVmCounters) -> int {
    s.active + s.inactive + s.wired + s.speculative + s.compressor_held - s.purgeable
        - s.external
}

/// The exact result of `estimate_used_ram`: the policy value when it fits in
/// a `u64`; zero together with the advisory when it is negative; an overflow
/// error when it exceeds `u64`.
pub open spec fn spec_estimate_used_ram(s: ScaledVmCounters) -> Result<UsedRamEstimate, MemError> {
    let used = spec_used_ram_value(s);
    if used > u64::MAX {
        Err(MemError::OverflowError { field: OverflowField::UsedRamTotal })
    } else if used < 0 {
        Ok(
            UsedRamEstimate {
                bytes: 0,
                warning: Some(InconsistentCountersWarning { computed_value: used as i128 }),
            },
        )
    } else {
        Ok(UsedRamEstimate { bytes: used as u64, warning: None })
    }
}

/// Derives the single "used RAM" figure in bytes from the byte-scaled
/// counters. The combination is computed in a signed domain: a negative
/// value is clamped to zero and reported through the advisory rather than
/// allowed to wrap to a huge unsigned figure.
pub fn estimate_used_ram(scaled: ScaledVmCounters) -> (r: Result<UsedRamEstimate, MemError>)
    ensures
        r == spec_estimate_used_ram(scaled),
        r is Ok <==> spec_used_ram_value(scaled) <= u64::MAX,
        r matches Ok(e) ==> {
            &&& spec_used_ram_value(scaled) >= 0 ==> (e.bytes == spec_used_ram_value(scaled)
                && e.warning is None)
            &&& spec_used_ram_value(scaled) < 0 ==> (e.bytes == 0 && e.warning == Some(
                InconsistentCountersWarning { computed_value: spec_used_ram_value(scaled) as i128 },
            ))
        },
{
    let summed: i128 = scaled.active as i128 + scaled.inactive as i128 + scaled.wired as i128
        + scaled.speculative as i128 + scaled.compressor_held as i128;
    let subtracted: i128 = scaled.purgeable as i128 + scaled.external as i128;
    let used: i128 = summed - subtracted;
    if used > u64::MAX as i128 {
        Err(MemError::OverflowError { field: OverflowField::UsedRamTotal })
    } else if used < 0 {
        Ok(
            UsedRamEstimate {
                bytes: 0,
                warning: Some(InconsistentCountersWarning { computed_value: used }),
            },
        )
    } else {
        Ok(UsedRamEstimate { bytes: used as u64, warning: None })
    }
}

} // verus!
