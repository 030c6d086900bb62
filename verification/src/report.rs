use vstd::prelude::*;

use crate::errors::InconsistentCountersWarning;
use crate::errors::MemError;
use crate::query::PageSizeQuery;
use crate::query::SwapTotalsQuery;
use crate::query::TotalRamQuery;
use crate::query::VmCountersQuery;
use crate::query::read_swap_totals;
use crate::query::read_total_ram;
use crate::query::read_vm_counters;
use crate::query::resolve_page_size;
use crate::query::spec_read_swap_totals;
use crate::query::spec_read_total_ram;
use crate::query::spec_read_vm_counters;
use crate::query::spec_resolve_page_size;
use crate::usage::UsedRamEstimate;
use crate::usage::estimate_used_ram;
use crate::usage::scale;
use crate::usage::spec_estimate_used_ram;
use crate::usage::spec_scale;

verus! {

/// The final reporting structure handed to the presentation layer: RAM and
/// swap totals and usage, all in bytes. Owned by the invocation that
/// produced it; no state is shared across invocations.
#[derive(Clone, Copy, Debug, PartialEq, Eq)]
pub struct MemMetrics {
    pub ram_total: u64,
    pub ram_usage: u64,
    pub swap_total: u64,
    pub swap_usage: u64,
}

impl Default for MemMetrics {
    /// An all-zero report, the starting value before any query result is
    /// filled in.
    fn default() -> (r: MemMetrics)
        ensures
            r == (MemMetrics { ram_total: 0, ram_usage: 0, swap_total: 0, swap_usage: 0 }),
    {
        MemMetrics { ram_total: 0, ram_usage: 0, swap_total: 0, swap_usage: 0 }
    }
}

/// The top-level metrics record: a wrapper that carries the memory report.
#[derive(Clone, Copy, Debug, PartialEq, Eq)]
pub struct Metrics {
    pub memory: MemMetrics,
}

impl Default for Metrics {
    /// A metrics record holding the all-zero memory report.
    fn default() -> (r: Metrics)
        ensures
            r.memory == (MemMetrics { ram_total: 0, ram_usage: 0, swap_total: 0, swap_usage: 0 }),
    {
        Metrics {
            memory: MemMetrics { ram_total: 0, ram_usage: 0, swap_total: 0, swap_usage: 0 },
        }
    }
}

/// Assembles the final report from the four byte quantities. Pure structural
/// assembly: no computation, no scaling.
pub fn aggregate(ram_total: u64, ram_used: u64, swap_total: u64, swap_used: u64) -> (r: MemMetrics)
    ensures
        r == (MemMetrics {
            ram_total,
            ram_usage: ram_used,
            swap_total,
            swap_usage: swap_used,
        }),
{
    MemMetrics { ram_total, ram_usage: ram_used, swap_total, swap_usage: swap_used }
}

/// The exact result of `get_mem_usage`: the first error among the RAM and
/// swap acquisition stages, or the assembled report.
pub open spec fn spec_get_mem_usage(
    ram: Result<(u64, u64), MemError>,
    swap: Result<(u64, u64), MemError>,
) -> Result<MemMetrics, MemError> {
    match ram {
        Err(e) => Err(e),
        Ok(r) => match swap {
            Err(e) => Err(e),
            Ok(s) => Ok(
                MemMetrics { ram_total: r.0, ram_usage: r.1, swap_total: s.0, swap_usage: s.1 },
            ),
        },
    }
}

/// Combines the outcome of the RAM acquisition stage (total and used bytes)
/// with the outcome of the swap acquisition stage (total and used bytes)
/// into the final report. The first error encountered is propagated and no
/// partial report is produced; the swap figures are passed through
/// unmodified.
pub fn get_mem_usage(ram: Result<(u64, u64), MemError>, swap: Result<(u64, u64), MemError>) -> (r:
    Result<MemMetrics, MemError>)
    ensures
        r == spec_get_mem_usage(ram, swap),
        r is Ok <==> (ram is Ok && swap is Ok),
        r matches Ok(m) ==> {
            &&& Ok::<(u64, u64), MemError>((m.ram_total, m.ram_usage)) == ram
            &&& Ok::<(u64, u64), MemError>((m.swap_total, m.swap_usage)) == swap
        },
{
    let (ram_total, ram_usage) = match ram {
        Ok(v) => v,
        Err(e) => {
            return Err(e);
        },
    };
    let (swap_total, swap_usage) = match swap {
        Ok(v) => v,
        Err(e) => {
            return Err(e);
        },
    };
    Ok(aggregate(ram_total, ram_usage, swap_total, swap_usage))
}

/// The exact result of `get_metrics`: `get_mem_usage`'s report, wrapped.
pub open spec fn spec_get_metrics(
    ram: Result<(u64, u64), MemError>,
    swap: Result<(u64, u64), MemError>,
) -> Result<Metrics, MemError> {
    match spec_get_mem_usage(ram, swap) {
        Err(e) => Err(e),
        Ok(m) => Ok(Metrics { memory: m }),
    }
}

/// Builds the top-level metrics record from the two acquisition stages,
/// propagating the first error.
pub fn get_metrics(ram: Result<(u64, u64), MemError>, swap: Result<(u64, u64), MemError>) -> (r:
    Result<Metrics, MemError>)
    ensures
        r == spec_get_metrics(ram, swap),
        r matches Ok(m) ==> Ok::<MemMetrics, MemError>(m.memory) == spec_get_mem_usage(ram, swap),
{
    let mut metrics = Metrics::default();
    metrics.memory = match get_mem_usage(ram, swap) {
        Ok(m) => m,
        Err(e) => {
            return Err(e);
        },
    };
    Ok(metrics)
}

/// Total and used RAM in bytes, with the advisory raised if the used-RAM
/// derivation had to be clamped.
#[derive(Clone, Copy, Debug, PartialEq, Eq)]
pub struct RamFigures {
    pub total: u64,
    pub used: u64,
    pub warning: Option<InconsistentCountersWarning>,
}

/// The exact result of `derive_ram_figures`: page-size resolution, counter
/// validation, scaling, used-RAM estimation and total-RAM validation,
/// composed in that order, propagating the first error.
pub open spec fn spec_derive_ram_figures(
    ps: PageSizeQuery,
    vm: VmCountersQuery,
    ram: TotalRamQuery,
) -> Result<RamFigures, MemError> {
    match spec_resolve_page_size(ps) {
        Err(e) => Err(e),
        Ok(page_size) => match spec_read_vm_counters(vm) {
            Err(e) => Err(e),
            Ok(counters) => match spec_scale(counters, page_size) {
                Err(e) => Err(e),
                Ok(scaled) => match spec_estimate_used_ram(scaled) {
                    Err(e) => Err(e),
                    Ok(estimate) => match spec_read_total_ram(ram) {
                        Err(e) => Err(e),
                        Ok(total) => Ok(
                            RamFigures {
                                total,
                                used: estimate.bytes,
                                warning: estimate.warning,
                            },
                        ),
                    },
                },
            },
        },
    }
}

/// Derives the RAM side of the report from the raw query outcomes: resolves
/// the page size, validates the counters, scales them to bytes, applies the
/// used-RAM policy, and validates the total. The first failing stage aborts
/// with its error.
pub fn derive_ram_figures(ps: PageSizeQuery, vm: VmCountersQuery, ram: TotalRamQuery) -> (r: Result<
    RamFigures,
    MemError,
>)
    ensures
        r == spec_derive_ram_figures(ps, vm, ram),
{
    let page_size = match resolve_page_size(ps) {
        Ok(v) => v,
        Err(e) => {
            return Err(e);
        },
    };
    let counters = match read_vm_counters(vm) {
        Ok(v) => v,
        Err(e) => {
            return Err(e);
        },
    };
    let scaled = match scale(counters, page_size) {
        Ok(v) => v,
        Err(e) => {
            return Err(e);
        },
    };
    let estimate = match estimate_used_ram(scaled) {
        Ok(v) => v,
        Err(e) => {
            return Err(e);
        },
    };
    let total = match read_total_ram(ram) {
        Ok(v) => v,
        Err(e) => {
            return Err(e);
        },
    };
    Ok(RamFigures { total, used: estimate.bytes, warning: estimate.warning })
}

/// A completed report together with the non-fatal advisory, if the used-RAM
/// derivation was clamped.
#[derive(Clone, Copy, Debug, PartialEq, Eq)]
pub struct ReportOutcome {
    pub report: MemMetrics,
    pub warning: Option<InconsistentCountersWarning>,
}

/// The exact result of `build_report`: the RAM pipeline, then the swap
/// validation, then pure assembly.
pub open spec fn spec_build_report(
    ps: PageSizeQuery,
    vm: VmCountersQuery,
    ram: TotalRamQuery,
    swap: SwapTotalsQuery,
) -> Result<ReportOutcome, MemError> {
    match spec_derive_ram_figures(ps, vm, ram) {
        Err(e) => Err(e),
        Ok(figures) => match spec_read_swap_totals(swap) {
            Err(e) => Err(e),
            Ok(swap_totals) => Ok(
                ReportOutcome {
                    report: MemMetrics {
                        ram_total: figures.total,
                        ram_usage: figures.used,
                        swap_total: swap_totals.0,
                        swap_usage: swap_totals.1,
                    },
                    warning: figures.warning,
                },
            ),
        },
    }
}

/// The top-level report operation over the raw outcomes of the four kernel
/// queries. On success every field of the report is pinned: the RAM total
/// and the swap figures are the queried bytes unmodified, and the RAM usage
/// is the used-RAM policy applied to the counters scaled by the resolved
/// page size. If any query failed, the first error in pipeline order is
/// returned and no report is produced.
pub fn build_report(
    ps: PageSizeQuery,
    vm: VmCountersQuery,
    ram: TotalRamQuery,
    swap: SwapTotalsQuery,
) -> (r: Result<ReportOutcome, MemError>)
    ensures
        r == spec_build_report(ps, vm, ram, swap),
        (ps.return_code != 0 || vm.return_code != 0 || ram.return_code != 0 || swap.return_code
            != 0) ==> r is Err,
        r matches Ok(o) ==> {
            &&& o.report.ram_total == ram.reported
            &&& o.report.swap_total == swap.total
            &&& o.report.swap_usage == swap.used
            &&& spec_resolve_page_size(ps) == Ok::<u64, MemError>(ps.reported as u64)
            &&& spec_scale(vm.buffer, ps.reported as u64) matches Ok(scaled)
                && spec_estimate_used_ram(scaled) == Ok::<UsedRamEstimate, MemError>(
                UsedRamEstimate { bytes: o.report.ram_usage, warning: o.warning },
            )
        },
{
    let figures = match derive_ram_figures(ps, vm, ram) {
        Ok(v) => v,
        Err(e) => {
            return Err(e);
        },
    };
    let swap_totals = match read_swap_totals(swap) {
        Ok(v) => v,
        Err(e) => {
            return Err(e);
        },
    };
    let report = aggregate(figures.total, figures.used, swap_totals.0, swap_totals.1);
    Ok(ReportOutcome { report, warning: figures.warning })
}

} // verus!
