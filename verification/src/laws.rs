use vstd::prelude::*;

use crate::counters::RawVmCounters;
use crate::counters::ScaledVmCounters;
use crate::errors::MemError;
use crate::query::PageSizeQuery;
use crate::query::spec_resolve_page_size;
use crate::usage::UsedRamEstimate;
use crate::usage::spec_estimate_used_ram;
use crate::usage::spec_scale;

verus! {

/// Law: the resolved page size propagates multiplicatively into every field
/// of the scaled counters. Whenever page-size resolution yields `p` and
/// scaling with `p` succeeds, each scaled field is exactly `p` times the
/// corresponding raw counter.
pub proof fn lemma_page_size_propagation(
    ps: PageSizeQuery,
    p: u64,
    c: RawVmCounters,
    s: ScaledVmCounters,
)
    requires
        spec_resolve_page_size(ps) == Ok::<u64, MemError>(p),
        spec_scale(c, p) == Ok::<ScaledVmCounters, MemError>(s),
    ensures
        s.free == c.free * p,
        s.active == c.active * p,
        s.inactive == c.inactive * p,
        s.wired == c.wired * p,
        s.zero_filled == c.zero_filled * p,
        s.reactivations == c.reactivations * p,
        s.pageins == c.pageins * p,
        s.pageouts == c.pageouts * p,
        s.faults == c.faults * p,
        s.cow_faults == c.cow_faults * p,
        s.lookups == c.lookups * p,
        s.hits == c.hits * p,
        s.purges == c.purges * p,
        s.purgeable == c.purgeable * p,
        s.speculative == c.speculative * p,
        s.decompressions == c.decompressions * p,
        s.compressions == c.compressions * p,
        s.swapins == c.swapins * p,
        s.swapouts == c.swapouts * p,
        s.compressor_held == c.compressor_held * p,
        s.throttled == c.throttled * p,
        s.external == c.external * p,
        s.internal == c.internal * p,
        s.total_uncompressed == c.total_uncompressed * p,
{
}

/// Law: scaling is a pure stage with no hidden state. Any two results
/// obtained by scaling identical counters with an identical page size are
/// identical.
pub proof fn lemma_scale_deterministic(
    c: RawVmCounters,
    page_size: u64,
    r1: Result<ScaledVmCounters, MemError>,
    r2: Result<ScaledVmCounters, MemError>,
)
    requires
        r1 == spec_scale(c, page_size),
        r2 == spec_scale(c, page_size),
    ensures
        r1 == r2,
{
}

/// Law: the used-RAM estimate is a pure stage with no hidden state. Any two
/// results obtained from identical scaled counters are identical.
pub proof fn lemma_estimate_used_ram_deterministic(
    s: ScaledVmCounters,
    r1: Result<UsedRamEstimate, MemError>,
    r2: Result<UsedRamEstimate, MemError>,
)
    requires
        r1 == spec_estimate_used_ram(s),
        r2 == spec_estimate_used_ram(s),
    ensures
        r1 == r2,
{
}

} // verus!
