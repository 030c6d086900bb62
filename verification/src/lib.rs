//! A memory-utilization reporting library: it normalizes raw kernel
//! virtual-memory statistics (page-granular counters and byte-granular
//! totals) into a byte-granular report of RAM and swap usage.
//!
//! The kernel queries themselves are performed by the caller; this crate
//! validates their outcomes, scales page counts into bytes with the
//! runtime-resolved page size, derives a single "used RAM" figure from a
//! documented inclusion/exclusion policy, and assembles the final report.

mod counters;
mod errors;
mod laws;
mod query;
mod report;
mod usage;

pub use counters::RawVmCounters;
pub use counters::ScaledVmCounters;
pub use errors::InconsistentCountersWarning;
pub use errors::MemError;
pub use errors::OverflowField;
pub use errors::QueryOperation;
pub use laws::lemma_estimate_used_ram_deterministic;
pub use laws::lemma_page_size_propagation;
pub use laws::lemma_scale_deterministic;
pub use query::read_swap_totals;
pub use query::read_total_ram;
pub use query::read_vm_counters;
pub use query::resolve_page_size;
pub use query::spec_read_swap_totals;
pub use query::spec_read_total_ram;
pub use query::spec_read_vm_counters;
pub use query::spec_resolve_page_size;
pub use query::PageSizeQuery;
pub use query::SwapTotalsQuery;
pub use query::TotalRamQuery;
pub use query::VmCountersQuery;
pub use report::aggregate;
pub use report::build_report;
pub use report::derive_ram_figures;
pub use report::get_mem_usage;
pub use report::get_metrics;
pub use report::spec_build_report;
pub use report::spec_derive_ram_figures;
pub use report::spec_get_mem_usage;
pub use report::spec_get_metrics;
pub use report::MemMetrics;
pub use report::Metrics;
pub use report::RamFigures;
pub use report::ReportOutcome;
pub use usage::estimate_used_ram;
pub use usage::scale;
pub use usage::spec_all_scaled_fit;
pub use usage::spec_estimate_used_ram;
pub use usage::spec_scale;
pub use usage::spec_scaled_counters;
pub use usage::spec_used_ram_value;
pub use usage::UsedRamEstimate;
