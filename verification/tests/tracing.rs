use hpc_core::buffer::{allocate, resolve_blocking, submit_kernel_use, submit_transfer};
use hpc_core::buffer::{DeviceQueue, TransferDir};
use hpc_core::memtracer::report::{aggregate_aborts, event_rows, trace_totals};
use hpc_core::memtracer::{
    disable_auto_trace, enable_auto_trace, is_auto_trace_enabled, now_us, reset, trace_abort,
    Dir, Operation, Phase, Recorder, TracingScope,
};

#[test]
fn labels_are_exact() {
    assert_eq!(Operation::H2D.as_str(), "H2D");
    assert_eq!(Operation::D2H.as_str(), "D2H");
    assert_eq!(Operation::Kernel.as_str(), "KRN");
    assert_eq!(Dir::H2D.as_str(), "H2D");
    assert_eq!(Dir::D2H.as_str(), "D2H");
    assert_eq!(Dir::Kernel.as_str(), "KRN");
    assert_eq!(Phase::Transfer.as_str(), "Transfer");
    assert_eq!(Phase::Kernel.as_str(), "Kernel");
    assert_eq!(Phase::Abort.as_str(), "Abort");
}

#[test]
fn auto_trace_flag_round_trip() {
    let mut rec = Recorder::new();
    assert!(is_auto_trace_enabled(&rec));
    disable_auto_trace(&mut rec);
    assert!(!is_auto_trace_enabled(&rec));
    enable_auto_trace(&mut rec);
    assert!(is_auto_trace_enabled(&rec));
}

#[test]
fn tracing_scope_restores_previous_flag() {
    let mut rec = Recorder::new();

    let scope = TracingScope::disabled(&mut rec);
    assert!(!is_auto_trace_enabled(&rec));
    scope.restore(&mut rec);
    assert!(is_auto_trace_enabled(&rec));

    disable_auto_trace(&mut rec);
    let scope = TracingScope::enabled(&mut rec);
    assert!(is_auto_trace_enabled(&rec));
    scope.restore(&mut rec);
    assert!(!is_auto_trace_enabled(&rec));

    let scope = TracingScope::new(&mut rec, true);
    assert!(is_auto_trace_enabled(&rec));
    scope.restore(&mut rec);
    assert!(!is_auto_trace_enabled(&rec));
}

#[test]
fn abort_records_carry_all_fields() {
    let mut rec = Recorder::new();
    trace_abort(&mut rec, 17, "conflict", 3, 128, "tok-a");

    assert_eq!(rec.records().len(), 1);
    let r = &rec.records()[0];
    assert_eq!(r.bytes, 0);
    assert_eq!(r.dir, Dir::Kernel);
    assert_eq!(r.phase, Phase::Abort);
    assert_eq!(r.idle_us, 0);
    assert_eq!(r.t_start_us, r.t_end_us);
    assert_eq!(r.tx_id, Some(17));
    assert_eq!(r.cause.as_deref(), Some("conflict"));
    assert_eq!(r.retries, Some(3));
    assert_eq!(r.conflict_sz, Some(128));
    assert_eq!(r.abort_token.as_deref(), Some("tok-a"));

    reset(&mut rec);
    assert_eq!(rec.records().len(), 0);
    assert!(is_auto_trace_enabled(&rec));
}

#[test]
fn now_us_is_monotone_enough() {
    let rec = Recorder::new();
    let a = now_us(&rec);
    let b = now_us(&rec);
    assert!(b >= a || a == 0);
}

#[test]
fn event_rows_skip_aborts() {
    let mut q = DeviceQueue::new(4096, 0, 1);
    let mut rec = Recorder::new();

    let mut buf = allocate(&mut q, 8).unwrap();
    let payload = vec![2u8; 8];
    let (h, mut g) =
        submit_transfer(&mut q, &mut buf, TransferDir::HostToDevice, &payload, &rec).unwrap();
    resolve_blocking(&mut q, &mut buf, &h, &mut g, &mut rec).unwrap();

    trace_abort(&mut rec, 1, "x", 0, 0, "t");

    let (h, mut g) = submit_kernel_use(&mut q, &mut buf, &rec).unwrap();
    resolve_blocking(&mut q, &mut buf, &h, &mut g, &mut rec).unwrap();

    assert_eq!(rec.records().len(), 3);
    let rows = event_rows(&rec);
    assert_eq!(rows.len(), 2);
    assert_eq!(rows[0].dir, Dir::H2D);
    assert_eq!(rows[0].phase, Phase::Transfer);
    assert_eq!(rows[0].bytes, 8);
    assert_eq!(rows[1].dir, Dir::Kernel);
    assert_eq!(rows[1].phase, Phase::Kernel);
}

#[test]
fn abort_aggregation_matches_hand_computation() {
    let mut rec = Recorder::new();
    trace_abort(&mut rec, 1, "conflict", 2, 10, "tok-a");
    trace_abort(&mut rec, 2, "conflict", 4, 30, "tok-a");
    trace_abort(&mut rec, 3, "timeout", 1, 20, "tok-a");
    trace_abort(&mut rec, 4, "conflict", 0, 5, "tok-b");

    let aggs = aggregate_aborts(&rec);
    assert_eq!(aggs.len(), 3);

    // Buckets appear in order of first occurrence.
    assert_eq!(aggs[0].abort_token, "tok-a");
    assert_eq!(aggs[0].cause, "conflict");
    assert_eq!(aggs[0].count, 2);
    assert_eq!(aggs[0].retries_sum, 6);
    assert_eq!(aggs[0].conflict_sum, 40);
    assert_eq!(aggs[0].conflict_min, 10);
    assert_eq!(aggs[0].conflict_max, 30);

    assert_eq!(aggs[1].abort_token, "tok-a");
    assert_eq!(aggs[1].cause, "timeout");
    assert_eq!(aggs[1].count, 1);
    assert_eq!(aggs[1].retries_sum, 1);

    assert_eq!(aggs[2].abort_token, "tok-b");
    assert_eq!(aggs[2].cause, "conflict");
    assert_eq!(aggs[2].count, 1);
    assert_eq!(aggs[2].conflict_min, 5);
    assert_eq!(aggs[2].conflict_max, 5);
}

#[test]
fn totals_count_directions_and_aborts() {
    let mut q = DeviceQueue::new(1 << 16, 0, 1);
    let mut rec = Recorder::new();
    let mut buf = allocate(&mut q, 100).unwrap();

    let payload = vec![1u8; 100];
    let (h, mut g) =
        submit_transfer(&mut q, &mut buf, TransferDir::HostToDevice, &payload, &rec).unwrap();
    resolve_blocking(&mut q, &mut buf, &h, &mut g, &mut rec).unwrap();

    let scratch = vec![0u8; 100];
    let (h, mut g) =
        submit_transfer(&mut q, &mut buf, TransferDir::DeviceToHost, &scratch, &rec).unwrap();
    resolve_blocking(&mut q, &mut buf, &h, &mut g, &mut rec).unwrap();

    trace_abort(&mut rec, 9, "conflict", 1, 64, "tok");

    let t = trace_totals(&rec);
    assert_eq!(t.events_total, 3);
    assert_eq!(t.bytes_h2d, 100);
    assert_eq!(t.bytes_d2h, 100);
    assert_eq!(t.aborts, 1);
    assert_eq!(t.idle_total_us, 0);
}
