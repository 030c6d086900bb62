use vstd::prelude::*;

use crate::counters::RawVmCounters;
use crate::errors::MemError;
use crate::errors::QueryOperation;

verus! {

/// Outcome of the system-configuration query for the hardware page size, as
/// the caller observed it: the kernel-level return code and the value the
/// kernel wrote. A page size is reported as a signed word so that a failing
/// query's sentinel (a non-positive value) can be carried through unchanged.
#[derive(Clone, Copy, Debug, PartialEq, Eq)]
pub struct PageSizeQuery {
    pub return_code: i32,
    pub reported: i64,
}

/// Outcome of the host-statistics query for the virtual-memory counters: the
/// kernel-level return code and the counter buffer. The buffer must be the
/// one the kernel wrote into; on a non-zero return code it is discarded
/// unread (see `read_vm_counters`).
#[derive(Clone, Copy, Debug, PartialEq, Eq)]
pub struct VmCountersQuery {
    pub return_code: i32,
    pub buffer: RawVmCounters,
}

/// Outcome of the system-configuration query for the total physical memory
/// size in bytes.
#[derive(Clone, Copy, Debug, PartialEq, Eq)]
pub struct TotalRamQuery {
    pub return_code: i32,
    pub reported: u64,
}

/// Outcome of the system-configuration query for the swap-usage composite
/// structure, which carries total and used swap size directly in bytes.
#[derive(Clone, Copy, Debug, PartialEq, Eq)]
pub struct SwapTotalsQuery {
    pub return_code: i32,
    pub total: u64,
    pub used: u64,
}

/// The exact result of `resolve_page_size`: the reported value as an
/// unsigned page size when the query succeeded and the value is strictly
/// positive, otherwise a kernel-query error.
pub open spec fn spec_resolve_page_size(q: PageSizeQuery) -> Result<u64, MemError> {
    if q.return_code != 0 {
        Err(
            MemError::KernelQueryError {
                operation: QueryOperation::PageSize,
                return_code: q.return_code,
            },
        )
    } else if q.reported <= 0 {
        Err(MemError::KernelQueryError { operation: QueryOperation::PageSize, return_code: 0 })
    } else {
        Ok(q.reported as u64)
    }
}

/// Validates the page-size query: a page size is accepted only when the
/// query reported success and the value is strictly positive.
pub fn resolve_page_size(q: PageSizeQuery) -> (r: Result<u64, MemError>)
    ensures
        r == spec_resolve_page_size(q),
        r matches Ok(p) ==> p > 0,
{
    if q.return_code != 0 {
        Err(
            MemError::KernelQueryError {
                operation: QueryOperation::PageSize,
                return_code: q.return_code,
            },
        )
    } else if q.reported <= 0 {
        Err(MemError::KernelQueryError { operation: QueryOperation::PageSize, return_code: 0 })
    } else {
        Ok(q.reported as u64)
    }
}

/// The exact result of `read_vm_counters`.
pub open spec fn spec_read_vm_counters(q: VmCountersQuery) -> Result<RawVmCounters, MemError> {
    if q.return_code != 0 {
        Err(
            MemError::KernelQueryError {
                operation: QueryOperation::VmCounters,
                return_code: q.return_code,
            },
        )
    } else {
        Ok(q.buffer)
    }
}

/// Validates the virtual-memory counter query: on a non-zero return code the
/// buffer is never surfaced, so no caller can read counters the kernel did
/// not successfully write.
pub fn read_vm_counters(q: VmCountersQuery) -> (r: Result<RawVmCounters, MemError>)
    ensures
        r == spec_read_vm_counters(q),
{
    if q.return_code != 0 {
        Err(
            MemError::KernelQueryError {
                operation: QueryOperation::VmCounters,
                return_code: q.return_code,
            },
        )
    } else {
        Ok(q.buffer)
    }
}

/// The exact result of `read_total_ram`.
pub open spec fn spec_read_total_ram(q: TotalRamQuery) -> Result<u64, MemError> {
    if q.return_code != 0 {
        Err(
            MemError::KernelQueryError {
                operation: QueryOperation::TotalRam,
                return_code: q.return_code,
            },
        )
    } else {
        Ok(q.reported)
    }
}

/// Validates the total-physical-memory query: the reported byte count is
/// passed through unchanged on success.
pub fn read_total_ram(q: TotalRamQuery) -> (r: Result<u64, MemError>)
    ensures
        r == spec_read_total_ram(q),
{
    if q.return_code != 0 {
        Err(
            MemError::KernelQueryError {
                operation: QueryOperation::TotalRam,
                return_code: q.return_code,
            },
        )
    } else {
        Ok(q.reported)
    }
}

/// The exact result of `read_swap_totals`.
pub open spec fn spec_read_swap_totals(q: SwapTotalsQuery) -> Result<(u64, u64), MemError> {
    if q.return_code != 0 {
        Err(
            MemError::KernelQueryError {
                operation: QueryOperation::SwapTotals,
                return_code: q.return_code,
            },
        )
    } else {
        Ok((q.total, q.used))
    }
}

/// Validates the swap-usage query: total and used swap are already byte
/// quantities and are passed through exactly as the kernel wrote them, never
/// scaled and never replaced by a zeroed local default.
pub fn read_swap_totals(q: SwapTotalsQuery) -> (r: Result<(u64, u64), MemError>)
    ensures
        r == spec_read_swap_totals(q),
        r matches Ok(t) ==> t.0 == q.total && t.1 == q.used,
{
    if q.return_code != 0 {
        Err(
            MemError::KernelQueryError {
                operation: QueryOperation::SwapTotals,
                return_code: q.return_code,
            },
        )
    } else {
        Ok((q.total, q.used))
    }
}

} // verus!
