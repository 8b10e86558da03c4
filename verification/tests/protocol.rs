use hpc_core::buffer::state::PhaseTag;
use hpc_core::buffer::{
    abandon, allocate, release, resolve_blocking, resolve_poll, submit_kernel_use,
    submit_transfer, DeviceQueue, MemError, Resolution, TransferDir,
};
use hpc_core::memtracer::{disable_auto_trace, Recorder};

fn pattern(n: usize) -> Vec<u8> {
    let mut v = Vec::with_capacity(n);
    for i in 0..n {
        v.push(((i * 31 + 7) % 256) as u8);
    }
    v
}

#[test]
fn raw_handle_gated_by_phase() {
    let mut q = DeviceQueue::new(1 << 23, 0, 1);
    let mut rec = Recorder::new();
    let mut buf = allocate(&mut q, 64).unwrap();

    assert_eq!(buf.phase(), PhaseTag::Queued);
    assert_eq!(buf.raw_handle(), Err(MemError::NotReady));

    let payload = vec![0u8; 64];
    let (handle, mut guard) =
        submit_transfer(&mut q, &mut buf, TransferDir::HostToDevice, &payload, &rec).unwrap();
    assert_eq!(buf.phase(), PhaseTag::InFlight);
    assert_eq!(buf.raw_handle(), Err(MemError::NotReady));

    resolve_blocking(&mut q, &mut buf, &handle, &mut guard, &mut rec).unwrap();
    assert_eq!(buf.phase(), PhaseTag::Ready);
    assert_eq!(buf.raw_handle(), Ok(buf.id()));
}

#[test]
fn submit_resolve_reaches_ready_for_all_sizes() {
    let mut rec = Recorder::new();
    for &n in &[0usize, 1, 4096, 1 << 22] {
        let mut q = DeviceQueue::new(1 << 23, 0, 1);
        let mut buf = allocate(&mut q, n).unwrap();
        let payload = vec![0u8; n];
        let (handle, mut guard) =
            submit_transfer(&mut q, &mut buf, TransferDir::HostToDevice, &payload, &rec).unwrap();
        let out = resolve_blocking(&mut q, &mut buf, &handle, &mut guard, &mut rec).unwrap();
        assert!(out.is_none());
        assert_eq!(buf.phase(), PhaseTag::Ready);
    }
}

#[test]
fn round_trip_reads_back_pattern() {
    let mut rec = Recorder::new();
    for &n in &[0usize, 1, 4096, 1 << 22] {
        let mut q = DeviceQueue::new(1 << 23, 0, 1);
        let mut buf = allocate(&mut q, n).unwrap();
        let p = pattern(n);

        let (wh, mut wg) =
            submit_transfer(&mut q, &mut buf, TransferDir::HostToDevice, &p, &rec).unwrap();
        resolve_blocking(&mut q, &mut buf, &wh, &mut wg, &mut rec).unwrap();

        let scratch = vec![0u8; n];
        let (rh, mut rg) =
            submit_transfer(&mut q, &mut buf, TransferDir::DeviceToHost, &scratch, &rec).unwrap();
        let out = resolve_blocking(&mut q, &mut buf, &rh, &mut rg, &mut rec).unwrap();
        assert_eq!(out.unwrap(), p);
    }
}

#[test]
fn double_resolve_fails_without_side_effects() {
    let mut q = DeviceQueue::new(4096, 0, 1);
    let mut rec = Recorder::new();
    let mut buf = allocate(&mut q, 16).unwrap();
    let p = pattern(16);
    let (handle, mut guard) =
        submit_transfer(&mut q, &mut buf, TransferDir::HostToDevice, &p, &rec).unwrap();

    assert!(resolve_blocking(&mut q, &mut buf, &handle, &mut guard, &mut rec).is_ok());
    assert_eq!(buf.phase(), PhaseTag::Ready);

    // Second resolve of the same guard: rejected, first call's outcome intact.
    let second = resolve_blocking(&mut q, &mut buf, &handle, &mut guard, &mut rec);
    assert_eq!(second, Err(MemError::DoubleCompletion));
    assert_eq!(buf.phase(), PhaseTag::Ready);

    let scratch = vec![0u8; 16];
    let (rh, mut rg) =
        submit_transfer(&mut q, &mut buf, TransferDir::DeviceToHost, &scratch, &rec).unwrap();
    let out = resolve_blocking(&mut q, &mut buf, &rh, &mut rg, &mut rec).unwrap();
    assert_eq!(out.unwrap(), p);
}

#[test]
fn guards_never_cross_resolve() {
    let mut q = DeviceQueue::new(4096, 0, 1);
    let mut rec = Recorder::new();
    let mut buf_a = allocate(&mut q, 8).unwrap();
    let mut buf_b = allocate(&mut q, 8).unwrap();
    let payload = vec![5u8; 8];

    let (_ha, mut ga) =
        submit_transfer(&mut q, &mut buf_a, TransferDir::HostToDevice, &payload, &rec).unwrap();
    let (hb, mut gb) =
        submit_transfer(&mut q, &mut buf_b, TransferDir::HostToDevice, &payload, &rec).unwrap();

    // Guard A against buffer B's handle: rejected, buffer B stays in flight.
    let crossed = resolve_blocking(&mut q, &mut buf_b, &hb, &mut ga, &mut rec);
    assert_eq!(crossed, Err(MemError::GuardMismatch));
    assert_eq!(buf_b.phase(), PhaseTag::InFlight);

    // Guard B against buffer A: rejected as well, buffer A stays in flight.
    let crossed = resolve_blocking(&mut q, &mut buf_a, &hb, &mut gb, &mut rec);
    assert_eq!(crossed, Err(MemError::GuardMismatch));
    assert_eq!(buf_a.phase(), PhaseTag::InFlight);

    // The matching guard still works.
    resolve_blocking(&mut q, &mut buf_b, &hb, &mut gb, &mut rec).unwrap();
    assert_eq!(buf_b.phase(), PhaseTag::Ready);
}

#[test]
fn second_submit_rejected_while_pending() {
    let mut q = DeviceQueue::new(4096, 0, 1);
    let mut rec = Recorder::new();
    let mut buf = allocate(&mut q, 32).unwrap();
    let payload = vec![1u8; 32];

    let (handle, mut guard) =
        submit_transfer(&mut q, &mut buf, TransferDir::HostToDevice, &payload, &rec).unwrap();
    assert_eq!(buf.phase(), PhaseTag::InFlight);

    let again = submit_transfer(&mut q, &mut buf, TransferDir::HostToDevice, &payload, &rec);
    assert_eq!(again.err().unwrap(), MemError::AlreadyPending);
    assert_eq!(buf.phase(), PhaseTag::InFlight);

    let kernel = submit_kernel_use(&mut q, &mut buf, &rec);
    assert_eq!(kernel.err().unwrap(), MemError::AlreadyPending);
    assert_eq!(buf.phase(), PhaseTag::InFlight);

    resolve_blocking(&mut q, &mut buf, &handle, &mut guard, &mut rec).unwrap();
    assert_eq!(buf.phase(), PhaseTag::Ready);
}

#[test]
fn abandoned_handle_waits_and_frees_budget() {
    // Fill the queue completely, drop the pending handle unresolved, and
    // check that a fresh allocation of the same size succeeds again.
    let mut q = DeviceQueue::new(1024, 3, 1);
    let mut rec = Recorder::new();
    let mut buf = allocate(&mut q, 1024).unwrap();
    assert_eq!(q.allocated_bytes(), 1024);
    assert_eq!(
        allocate(&mut q, 1).err().unwrap(),
        MemError::AllocationFailed
    );

    let (handle, _guard) = submit_kernel_use(&mut q, &mut buf, &rec).unwrap();
    let faulted = abandon(&mut q, buf, handle, &mut rec);
    assert!(faulted.is_none());
    assert_eq!(q.allocated_bytes(), 0);

    // The forced wait is visible as its own distinguishable event.
    let last = rec.records().last().unwrap();
    assert_eq!(last.cause.as_deref(), Some("forced_wait_on_drop"));

    let buf2 = allocate(&mut q, 1024).unwrap();
    assert_eq!(buf2.size_bytes(), 1024);
    release(&mut q, buf2);
    assert_eq!(q.allocated_bytes(), 0);
}

#[test]
fn end_to_end_scenario() {
    let mut q = DeviceQueue::new(1 << 20, 0, 1);
    let mut rec = Recorder::new();

    let mut buf = allocate(&mut q, 1024).unwrap();
    assert_eq!(buf.phase(), PhaseTag::Queued);

    let zeros = vec![0u8; 1024];
    let (h1, mut g1) =
        submit_transfer(&mut q, &mut buf, TransferDir::HostToDevice, &zeros, &rec).unwrap();
    resolve_blocking(&mut q, &mut buf, &h1, &mut g1, &mut rec).unwrap();
    assert_eq!(buf.phase(), PhaseTag::Ready);
    assert!(buf.raw_handle().is_ok());

    let (h2, mut g2) = submit_kernel_use(&mut q, &mut buf, &rec).unwrap();
    resolve_blocking(&mut q, &mut buf, &h2, &mut g2, &mut rec).unwrap();
    assert_eq!(buf.phase(), PhaseTag::Ready);

    let scratch = vec![0u8; 1024];
    let (h3, mut g3) =
        submit_transfer(&mut q, &mut buf, TransferDir::DeviceToHost, &scratch, &rec).unwrap();
    let out = resolve_blocking(&mut q, &mut buf, &h3, &mut g3, &mut rec).unwrap();

    // The engine's demonstration kernel increments every byte, so the 1024
    // zero bytes read back as 1024 ones.
    assert_eq!(out.unwrap(), vec![1u8; 1024]);
}

#[test]
fn kernel_wraps_at_byte_boundary() {
    let mut q = DeviceQueue::new(4096, 0, 1);
    let mut rec = Recorder::new();
    let mut buf = allocate(&mut q, 3).unwrap();

    let data = vec![0u8, 254, 255];
    let (h1, mut g1) =
        submit_transfer(&mut q, &mut buf, TransferDir::HostToDevice, &data, &rec).unwrap();
    resolve_blocking(&mut q, &mut buf, &h1, &mut g1, &mut rec).unwrap();

    let (h2, mut g2) = submit_kernel_use(&mut q, &mut buf, &rec).unwrap();
    resolve_blocking(&mut q, &mut buf, &h2, &mut g2, &mut rec).unwrap();

    let scratch = vec![0u8; 3];
    let (h3, mut g3) =
        submit_transfer(&mut q, &mut buf, TransferDir::DeviceToHost, &scratch, &rec).unwrap();
    let out = resolve_blocking(&mut q, &mut buf, &h3, &mut g3, &mut rec).unwrap();
    assert_eq!(out.unwrap(), vec![1u8, 255, 0]);
}

#[test]
fn allocation_failures_and_zero_size() {
    let mut q = DeviceQueue::new(100, 0, 1);
    let zero = allocate(&mut q, 0).unwrap();
    assert_eq!(zero.size_bytes(), 0);
    assert_eq!(q.allocated_bytes(), 0);

    let a = allocate(&mut q, 60).unwrap();
    assert_eq!(q.allocated_bytes(), 60);
    assert_eq!(
        allocate(&mut q, 41).err().unwrap(),
        MemError::AllocationFailed
    );
    assert_eq!(q.allocated_bytes(), 60);

    let b = allocate(&mut q, 40).unwrap();
    assert_eq!(q.allocated_bytes(), 100);

    // A zero-size buffer is a no-op for transfers: empty payload matches.
    let mut rec = Recorder::new();
    let mut zero = zero;
    let (h, mut g) =
        submit_transfer(&mut q, &mut zero, TransferDir::HostToDevice, &[], &rec).unwrap();
    let out = resolve_blocking(&mut q, &mut zero, &h, &mut g, &mut rec).unwrap();
    assert!(out.is_none());

    release(&mut q, b);
    assert_eq!(q.allocated_bytes(), 60);
    release(&mut q, a);
    assert_eq!(q.allocated_bytes(), 0);
}

#[test]
fn size_mismatch_rejected_before_submission() {
    let mut q = DeviceQueue::new(4096, 0, 1);
    let rec = Recorder::new();
    let mut buf = allocate(&mut q, 16).unwrap();

    let too_long = vec![0u8; 17];
    let r = submit_transfer(&mut q, &mut buf, TransferDir::HostToDevice, &too_long, &rec);
    assert_eq!(r.err().unwrap(), MemError::SizeMismatch);
    assert_eq!(buf.phase(), PhaseTag::Queued);

    let too_short = vec![0u8; 15];
    let r = submit_transfer(&mut q, &mut buf, TransferDir::DeviceToHost, &too_short, &rec);
    assert_eq!(r.err().unwrap(), MemError::SizeMismatch);
    assert_eq!(buf.phase(), PhaseTag::Queued);
}

#[test]
fn backend_failure_is_surfaced_with_code() {
    let mut q = DeviceQueue::new(4096, 0, 1);
    let mut rec = Recorder::new();
    let mut buf = allocate(&mut q, 8).unwrap();
    let payload = vec![9u8; 8];

    q.inject_fault(42);
    let (h, mut g) =
        submit_transfer(&mut q, &mut buf, TransferDir::HostToDevice, &payload, &rec).unwrap();
    let r = resolve_blocking(&mut q, &mut buf, &h, &mut g, &mut rec);
    assert_eq!(r, Err(MemError::BackendOperationFailed(42)));

    // The failed operation is over: the buffer is usable again and the
    // failed write left its contents untouched.
    assert_eq!(buf.phase(), PhaseTag::Ready);
    let scratch = vec![0u8; 8];
    let (rh, mut rg) =
        submit_transfer(&mut q, &mut buf, TransferDir::DeviceToHost, &scratch, &rec).unwrap();
    let out = resolve_blocking(&mut q, &mut buf, &rh, &mut rg, &mut rec).unwrap();
    assert_eq!(out.unwrap(), vec![0u8; 8]);
}

#[test]
fn poll_reports_not_yet_until_latency_elapses() {
    let mut q = DeviceQueue::new(4096, 2, 1);
    let mut rec = Recorder::new();
    let mut buf = allocate(&mut q, 4).unwrap();
    let payload = vec![3u8; 4];

    let (h, mut g) =
        submit_transfer(&mut q, &mut buf, TransferDir::HostToDevice, &payload, &rec).unwrap();

    for _ in 0..2 {
        let r = resolve_poll(&mut q, &mut buf, &h, &mut g, &mut rec).unwrap();
        assert!(matches!(r, Resolution::NotYet));
        assert_eq!(buf.phase(), PhaseTag::InFlight);
        assert!(!g.is_resolved());
    }

    let r = resolve_poll(&mut q, &mut buf, &h, &mut g, &mut rec).unwrap();
    assert!(matches!(r, Resolution::Done(None)));
    assert_eq!(buf.phase(), PhaseTag::Ready);
    assert!(g.is_resolved());
}

#[test]
fn poll_surfaces_backend_failure() {
    let mut q = DeviceQueue::new(4096, 1, 1);
    let mut rec = Recorder::new();
    let mut buf = allocate(&mut q, 4).unwrap();

    q.inject_fault(7);
    let (h, mut g) = submit_kernel_use(&mut q, &mut buf, &rec).unwrap();

    let r = resolve_poll(&mut q, &mut buf, &h, &mut g, &mut rec).unwrap();
    assert!(matches!(r, Resolution::NotYet));

    let r = resolve_poll(&mut q, &mut buf, &h, &mut g, &mut rec);
    assert_eq!(r, Err(MemError::BackendOperationFailed(7)));
    assert_eq!(buf.phase(), PhaseTag::Ready);
}

#[test]
fn resolve_events_respect_auto_trace() {
    let mut q = DeviceQueue::new(4096, 0, 1);
    let mut rec = Recorder::new();
    let mut buf = allocate(&mut q, 4).unwrap();
    let payload = vec![1u8; 4];

    disable_auto_trace(&mut rec);
    let (h, mut g) =
        submit_transfer(&mut q, &mut buf, TransferDir::HostToDevice, &payload, &rec).unwrap();
    resolve_blocking(&mut q, &mut buf, &h, &mut g, &mut rec).unwrap();
    assert_eq!(rec.records().len(), 0);
}

#[test]
fn abandoned_fault_code_is_reported() {
    let mut q = DeviceQueue::new(4096, 5, 1);
    let mut rec = Recorder::new();
    let mut buf = allocate(&mut q, 4).unwrap();

    q.inject_fault(13);
    let (h, _g) = submit_kernel_use(&mut q, &mut buf, &rec).unwrap();
    let faulted = abandon(&mut q, buf, h, &mut rec);
    assert_eq!(faulted, Some(13));
}

#[test]
fn guards_never_cross_resolve_across_queues() {
    // Two queues: both count buffer identities from zero, so the buffers
    // collide on id and epoch; only the queue labels tell them apart.
    let mut q_a = DeviceQueue::new(4096, 0, 1);
    let mut q_b = DeviceQueue::new(4096, 0, 2);
    let mut rec = Recorder::new();
    let mut buf_a = allocate(&mut q_a, 8).unwrap();
    let mut buf_b = allocate(&mut q_b, 8).unwrap();
    assert_eq!(buf_a.id(), buf_b.id());
    let payload = vec![7u8; 8];

    let (_ha, mut ga) =
        submit_transfer(&mut q_a, &mut buf_a, TransferDir::HostToDevice, &payload, &rec).unwrap();
    let (hb, mut gb) =
        submit_transfer(&mut q_b, &mut buf_b, TransferDir::HostToDevice, &payload, &rec).unwrap();

    // Queue A's guard presented on queue B: rejected, nothing changes.
    let crossed = resolve_blocking(&mut q_b, &mut buf_b, &hb, &mut ga, &mut rec);
    assert_eq!(crossed, Err(MemError::GuardMismatch));
    assert_eq!(buf_b.phase(), PhaseTag::InFlight);
    assert!(!ga.is_resolved());
    assert!(!gb.is_resolved());

    // Buffer B's own guard still resolves it.
    resolve_blocking(&mut q_b, &mut buf_b, &hb, &mut gb, &mut rec).unwrap();
    assert_eq!(buf_b.phase(), PhaseTag::Ready);
}

#[test]
fn foreign_buffer_rejected_at_submit() {
    let mut q_a = DeviceQueue::new(4096, 0, 1);
    let mut q_b = DeviceQueue::new(4096, 0, 2);
    let rec = Recorder::new();
    let mut buf_a = allocate(&mut q_a, 8).unwrap();
    let payload = vec![0u8; 8];

    let r = submit_transfer(&mut q_b, &mut buf_a, TransferDir::HostToDevice, &payload, &rec);
    assert_eq!(r.err().unwrap(), MemError::GuardMismatch);
    assert_eq!(buf_a.phase(), PhaseTag::Queued);

    let r = submit_kernel_use(&mut q_b, &mut buf_a, &rec);
    assert!(matches!(r, Err(MemError::GuardMismatch)));
    assert_eq!(buf_a.phase(), PhaseTag::Queued);
}

#[test]
fn completion_records_have_ordered_timestamps() {
    let mut q = DeviceQueue::new(4096, 0, 1);
    let mut rec = Recorder::new();
    let mut buf = allocate(&mut q, 4).unwrap();
    let payload = vec![1u8; 4];

    let (h, mut g) =
        submit_transfer(&mut q, &mut buf, TransferDir::HostToDevice, &payload, &rec).unwrap();
    resolve_blocking(&mut q, &mut buf, &h, &mut g, &mut rec).unwrap();

    let r = rec.records().last().unwrap();
    assert!(r.t_end_us >= r.t_start_us);
}
