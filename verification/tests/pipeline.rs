use free::InconsistentCountersWarning;
use free::MemError;
use free::MemMetrics;
use free::Metrics;
use free::OverflowField;
use free::PageSizeQuery;
use free::QueryOperation;
use free::RawVmCounters;
use free::ScaledVmCounters;
use free::SwapTotalsQuery;
use free::TotalRamQuery;
use free::VmCountersQuery;
use free::aggregate;
use free::build_report;
use free::derive_ram_figures;
use free::estimate_used_ram;
use free::get_mem_usage;
use free::get_metrics;
use free::read_swap_totals;
use free::read_total_ram;
use free::read_vm_counters;
use free::resolve_page_size;
use free::scale;

fn raw(
    active: u64,
    inactive: u64,
    wired: u64,
    speculative: u64,
    compressor_held: u64,
    purgeable: u64,
    external: u64,
) -> RawVmCounters {
    RawVmCounters {
        free: 11,
        active,
        inactive,
        wired,
        zero_filled: 12,
        reactivations: 13,
        pageins: 14,
        pageouts: 15,
        faults: 16,
        cow_faults: 17,
        lookups: 18,
        hits: 19,
        purges: 20,
        purgeable,
        speculative,
        decompressions: 21,
        compressions: 22,
        swapins: 23,
        swapouts: 24,
        compressor_held,
        throttled: 25,
        external,
        internal: 26,
        total_uncompressed: 27,
    }
}

fn scaled(
    active: u64,
    inactive: u64,
    wired: u64,
    speculative: u64,
    compressor_held: u64,
    purgeable: u64,
    external: u64,
) -> ScaledVmCounters {
    ScaledVmCounters {
        free: 0,
        active,
        inactive,
        wired,
        zero_filled: 0,
        reactivations: 0,
        pageins: 0,
        pageouts: 0,
        faults: 0,
        cow_faults: 0,
        lookups: 0,
        hits: 0,
        purges: 0,
        purgeable,
        speculative,
        decompressions: 0,
        compressions: 0,
        swapins: 0,
        swapouts: 0,
        compressor_held,
        throttled: 0,
        external,
        internal: 0,
        total_uncompressed: 0,
    }
}

#[test]
fn scale_multiplies_every_field() {
    let c = raw(1, 2, 3, 4, 5, 6, 7);
    let s = scale(c, 3).unwrap();
    assert_eq!(s.free, 33);
    assert_eq!(s.active, 3);
    assert_eq!(s.inactive, 6);
    assert_eq!(s.wired, 9);
    assert_eq!(s.zero_filled, 36);
    assert_eq!(s.reactivations, 39);
    assert_eq!(s.pageins, 42);
    assert_eq!(s.pageouts, 45);
    assert_eq!(s.faults, 48);
    assert_eq!(s.cow_faults, 51);
    assert_eq!(s.lookups, 54);
    assert_eq!(s.hits, 57);
    assert_eq!(s.purges, 60);
    assert_eq!(s.purgeable, 18);
    assert_eq!(s.speculative, 12);
    assert_eq!(s.decompressions, 63);
    assert_eq!(s.compressions, 66);
    assert_eq!(s.swapins, 69);
    assert_eq!(s.swapouts, 72);
    assert_eq!(s.compressor_held, 15);
    assert_eq!(s.throttled, 75);
    assert_eq!(s.external, 21);
    assert_eq!(s.internal, 78);
    assert_eq!(s.total_uncompressed, 81);
}

#[test]
fn scale_overflow_is_surfaced_not_wrapped() {
    let mut c = raw(1, 2, 3, 4, 5, 6, 7);
    c.active = u64::MAX;
    let r = scale(c, 2);
    assert_eq!(
        r,
        Err(MemError::OverflowError {
            field: OverflowField::Active
        })
    );
}

#[test]
fn scale_by_one_is_identity_on_fields() {
    let c = raw(9, 8, 7, 6, 5, 4, 3);
    let s = scale(c, 1).unwrap();
    assert_eq!(s.active, c.active);
    assert_eq!(s.purgeable, c.purgeable);
    assert_eq!(s.total_uncompressed, c.total_uncompressed);
}

#[test]
fn used_ram_formula_exact_value() {
    let s = scaled(100, 50, 30, 5, 10, 20, 15);
    let e = estimate_used_ram(s).unwrap();
    assert_eq!(e.bytes, 160);
    assert_eq!(e.warning, None);
}

#[test]
fn used_ram_clamps_to_zero_and_raises_advisory() {
    let s = scaled(0, 0, 0, 0, 0, 50, 0);
    let e = estimate_used_ram(s).unwrap();
    assert_eq!(e.bytes, 0);
    assert_eq!(
        e.warning,
        Some(InconsistentCountersWarning { computed_value: -50 })
    );
}

#[test]
fn used_ram_overflow_is_surfaced() {
    let s = scaled(u64::MAX, u64::MAX, 0, 0, 0, 0, 0);
    let r = estimate_used_ram(s);
    assert_eq!(
        r,
        Err(MemError::OverflowError {
            field: OverflowField::UsedRamTotal
        })
    );
}

#[test]
fn used_ram_accepts_exactly_u64_max() {
    let s = scaled(u64::MAX, 0, 0, 0, 0, 0, 0);
    let e = estimate_used_ram(s).unwrap();
    assert_eq!(e.bytes, u64::MAX);
    assert_eq!(e.warning, None);
}

#[test]
fn pure_stages_are_idempotent() {
    let c = raw(100, 50, 30, 5, 10, 20, 15);
    let first = scale(c, 4096);
    let second = scale(c, 4096);
    assert_eq!(first, second);
    let s = scaled(100, 50, 30, 5, 10, 20, 15);
    assert_eq!(estimate_used_ram(s), estimate_used_ram(s));
}

#[test]
fn page_size_sixteen_kib_propagates_to_every_field() {
    let q = PageSizeQuery {
        return_code: 0,
        reported: 16384,
    };
    let p = resolve_page_size(q).unwrap();
    assert_eq!(p, 16384);
    let c = raw(100, 50, 30, 5, 10, 20, 15);
    let s = scale(c, p).unwrap();
    assert_eq!(s.free, c.free * 16384);
    assert_eq!(s.active, c.active * 16384);
    assert_eq!(s.inactive, c.inactive * 16384);
    assert_eq!(s.wired, c.wired * 16384);
    assert_eq!(s.zero_filled, c.zero_filled * 16384);
    assert_eq!(s.reactivations, c.reactivations * 16384);
    assert_eq!(s.pageins, c.pageins * 16384);
    assert_eq!(s.pageouts, c.pageouts * 16384);
    assert_eq!(s.faults, c.faults * 16384);
    assert_eq!(s.cow_faults, c.cow_faults * 16384);
    assert_eq!(s.lookups, c.lookups * 16384);
    assert_eq!(s.hits, c.hits * 16384);
    assert_eq!(s.purges, c.purges * 16384);
    assert_eq!(s.purgeable, c.purgeable * 16384);
    assert_eq!(s.speculative, c.speculative * 16384);
    assert_eq!(s.decompressions, c.decompressions * 16384);
    assert_eq!(s.compressions, c.compressions * 16384);
    assert_eq!(s.swapins, c.swapins * 16384);
    assert_eq!(s.swapouts, c.swapouts * 16384);
    assert_eq!(s.compressor_held, c.compressor_held * 16384);
    assert_eq!(s.throttled, c.throttled * 16384);
    assert_eq!(s.external, c.external * 16384);
    assert_eq!(s.internal, c.internal * 16384);
    assert_eq!(s.total_uncompressed, c.total_uncompressed * 16384);
}

#[test]
fn resolve_page_size_rejects_failed_query() {
    let q = PageSizeQuery {
        return_code: 7,
        reported: 4096,
    };
    assert_eq!(
        resolve_page_size(q),
        Err(MemError::KernelQueryError {
            operation: QueryOperation::PageSize,
            return_code: 7
        })
    );
}

#[test]
fn resolve_page_size_rejects_non_positive_value() {
    for reported in [0i64, -1] {
        let q = PageSizeQuery {
            return_code: 0,
            reported,
        };
        assert_eq!(
            resolve_page_size(q),
            Err(MemError::KernelQueryError {
                operation: QueryOperation::PageSize,
                return_code: 0
            })
        );
    }
}

#[test]
fn vm_counters_buffer_never_surfaced_on_failure() {
    let q = VmCountersQuery {
        return_code: 1,
        buffer: raw(1, 2, 3, 4, 5, 6, 7),
    };
    assert_eq!(
        read_vm_counters(q),
        Err(MemError::KernelQueryError {
            operation: QueryOperation::VmCounters,
            return_code: 1
        })
    );
}

#[test]
fn vm_counters_pass_through_on_success() {
    let buffer = raw(1, 2, 3, 4, 5, 6, 7);
    let q = VmCountersQuery {
        return_code: 0,
        buffer,
    };
    assert_eq!(read_vm_counters(q), Ok(buffer));
}

#[test]
fn total_ram_validation() {
    let ok = TotalRamQuery {
        return_code: 0,
        reported: 17_179_869_184,
    };
    assert_eq!(read_total_ram(ok), Ok(17_179_869_184));
    let bad = TotalRamQuery {
        return_code: -2,
        reported: 17_179_869_184,
    };
    assert_eq!(
        read_total_ram(bad),
        Err(MemError::KernelQueryError {
            operation: QueryOperation::TotalRam,
            return_code: -2
        })
    );
}

#[test]
fn swap_totals_pass_through_unmodified() {
    let q = SwapTotalsQuery {
        return_code: 0,
        total: 2_147_483_648,
        used: 1_073_741_824,
    };
    assert_eq!(read_swap_totals(q), Ok((2_147_483_648, 1_073_741_824)));
}

#[test]
fn swap_totals_failure() {
    let q = SwapTotalsQuery {
        return_code: 3,
        total: 1,
        used: 1,
    };
    assert_eq!(
        read_swap_totals(q),
        Err(MemError::KernelQueryError {
            operation: QueryOperation::SwapTotals,
            return_code: 3
        })
    );
}

#[test]
fn aggregate_is_pure_assembly() {
    let m = aggregate(4, 3, 2, 1);
    assert_eq!(
        m,
        MemMetrics {
            ram_total: 4,
            ram_usage: 3,
            swap_total: 2,
            swap_usage: 1
        }
    );
}

#[test]
fn get_mem_usage_combines_both_stages() {
    let m = get_mem_usage(Ok((100, 60)), Ok((40, 10))).unwrap();
    assert_eq!(
        m,
        MemMetrics {
            ram_total: 100,
            ram_usage: 60,
            swap_total: 40,
            swap_usage: 10
        }
    );
}

#[test]
fn get_mem_usage_propagates_first_error() {
    let ram_err = MemError::KernelQueryError {
        operation: QueryOperation::TotalRam,
        return_code: 9,
    };
    let swap_err = MemError::KernelQueryError {
        operation: QueryOperation::SwapTotals,
        return_code: 8,
    };
    assert_eq!(get_mem_usage(Err(ram_err), Err(swap_err)), Err(ram_err));
    assert_eq!(get_mem_usage(Err(ram_err), Ok((1, 2))), Err(ram_err));
    assert_eq!(get_mem_usage(Ok((1, 2)), Err(swap_err)), Err(swap_err));
}

#[test]
fn get_metrics_wraps_report() {
    let r = get_metrics(Ok((100, 60)), Ok((40, 10))).unwrap();
    assert_eq!(
        r,
        Metrics {
            memory: MemMetrics {
                ram_total: 100,
                ram_usage: 60,
                swap_total: 40,
                swap_usage: 10
            }
        }
    );
    let swap_err = MemError::KernelQueryError {
        operation: QueryOperation::SwapTotals,
        return_code: 8,
    };
    assert_eq!(get_metrics(Ok((1, 2)), Err(swap_err)), Err(swap_err));
}

#[test]
fn defaults_are_all_zero() {
    assert_eq!(
        MemMetrics::default(),
        MemMetrics {
            ram_total: 0,
            ram_usage: 0,
            swap_total: 0,
            swap_usage: 0
        }
    );
    assert_eq!(
        Metrics::default(),
        Metrics {
            memory: MemMetrics::default()
        }
    );
}

fn good_queries() -> (PageSizeQuery, VmCountersQuery, TotalRamQuery, SwapTotalsQuery) {
    (
        PageSizeQuery {
            return_code: 0,
            reported: 16384,
        },
        VmCountersQuery {
            return_code: 0,
            buffer: raw(100, 50, 30, 5, 10, 20, 15),
        },
        TotalRamQuery {
            return_code: 0,
            reported: 17_179_869_184,
        },
        SwapTotalsQuery {
            return_code: 0,
            total: 2_147_483_648,
            used: 536_870_912,
        },
    )
}

#[test]
fn build_report_success_pins_every_field() {
    let (ps, vm, ram, swap) = good_queries();
    let o = build_report(ps, vm, ram, swap).unwrap();
    assert_eq!(o.report.ram_total, 17_179_869_184);
    assert_eq!(o.report.ram_usage, 160 * 16384);
    assert_eq!(o.report.swap_total, 2_147_483_648);
    assert_eq!(o.report.swap_usage, 536_870_912);
    assert_eq!(o.warning, None);
}

#[test]
fn build_report_swap_bytes_are_never_scaled() {
    let (ps, vm, ram, mut swap) = good_queries();
    swap.total = 3;
    swap.used = 1;
    let o = build_report(ps, vm, ram, swap).unwrap();
    assert_eq!(o.report.swap_total, 3);
    assert_eq!(o.report.swap_usage, 1);
}

#[test]
fn build_report_fails_when_page_size_query_fails() {
    let (mut ps, vm, ram, swap) = good_queries();
    ps.return_code = 1;
    assert_eq!(
        build_report(ps, vm, ram, swap),
        Err(MemError::KernelQueryError {
            operation: QueryOperation::PageSize,
            return_code: 1
        })
    );
}

#[test]
fn build_report_fails_when_vm_counters_query_fails() {
    let (ps, mut vm, ram, swap) = good_queries();
    vm.return_code = 2;
    assert_eq!(
        build_report(ps, vm, ram, swap),
        Err(MemError::KernelQueryError {
            operation: QueryOperation::VmCounters,
            return_code: 2
        })
    );
}

#[test]
fn build_report_fails_when_total_ram_query_fails() {
    let (ps, vm, mut ram, swap) = good_queries();
    ram.return_code = 3;
    assert_eq!(
        build_report(ps, vm, ram, swap),
        Err(MemError::KernelQueryError {
            operation: QueryOperation::TotalRam,
            return_code: 3
        })
    );
}

#[test]
fn build_report_fails_when_swap_query_fails() {
    let (ps, vm, ram, mut swap) = good_queries();
    swap.return_code = 4;
    assert_eq!(
        build_report(ps, vm, ram, swap),
        Err(MemError::KernelQueryError {
            operation: QueryOperation::SwapTotals,
            return_code: 4
        })
    );
}

#[test]
fn build_report_raises_clamp_advisory() {
    let (ps, mut vm, ram, swap) = good_queries();
    vm.buffer = raw(0, 0, 0, 0, 0, 50, 0);
    let o = build_report(ps, vm, ram, swap).unwrap();
    assert_eq!(o.report.ram_usage, 0);
    assert_eq!(
        o.warning,
        Some(InconsistentCountersWarning {
            computed_value: -(50 * 16384),
        })
    );
}

#[test]
fn derive_ram_figures_matches_pipeline() {
    let (ps, vm, ram, _) = good_queries();
    let f = derive_ram_figures(ps, vm, ram).unwrap();
    assert_eq!(f.total, 17_179_869_184);
    assert_eq!(f.used, 160 * 16384);
    assert_eq!(f.warning, None);
}
