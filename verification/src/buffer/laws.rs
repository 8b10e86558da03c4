//! The protocol-wide guarantees, stated over the same predicates the
//! operations' own contracts use, so that each law composes directly with
//! the contracts of [`allocate`], [`submit_transfer`], [`submit_kernel_use`],
//! [`resolve_blocking`], [`resolve_poll`] and [`abandon`].

use vstd::prelude::*;

verus! {

use crate::buffer::{Buffer, CompletionGuard, DeviceQueue, OpKind, PendingHandle};
use crate::buffer::{can_allocate, guard_matches, released_budget, resolvable, resolve_ok, submit_ok};

/// A submission leaves the buffer in flight — so, by the submit contracts,
/// a second submission against it can only be rejected with
/// `AlreadyPending` and changes nothing — and its guard and handle match
/// that exact buffer on that exact queue, with a fitting payload and a
/// token the engine knows, so the operation can be resolved. (A
/// host-to-device submission always stages a payload of the buffer's size:
/// any other length was rejected with `SizeMismatch`.)
pub proof fn lemma_submit_binds_guard(
    q0: DeviceQueue,
    q1: DeviceQueue,
    b0: Buffer,
    b1: Buffer,
    h: PendingHandle,
    g: CompletionGuard,
    kind: OpKind,
    staged: Seq<u8>,
)
    requires
        submit_ok(q0, q1, b0, b1, h, g, kind, staged),
        kind is TransferH2D ==> staged.len() == b0.spec_size(),
    ensures
        b1.spec_phase() is InFlight,
        guard_matches(g, h, b1),
        resolvable(q1, b1, h, g),
        !g.spec_resolved(),
{
}

/// A submission followed by a successful resolve always ends in phase
/// `Ready`, with the buffer's identity and size intact — for every payload
/// size the buffer was allocated with.
pub proof fn lemma_submit_then_resolve_ready(
    q0: DeviceQueue,
    q1: DeviceQueue,
    b0: Buffer,
    b1: Buffer,
    b2: Buffer,
    h: PendingHandle,
    g0: CompletionGuard,
    g1: CompletionGuard,
    kind: OpKind,
    staged: Seq<u8>,
    out: Option<Seq<u8>>,
)
    requires
        submit_ok(q0, q1, b0, b1, h, g0, kind, staged),
        resolve_ok(b1, b2, h, g0, g1, out),
    ensures
        b2.spec_phase() is Ready,
        b2.spec_id() == b0.spec_id(),
        b2.spec_size() == b0.spec_size(),
        b2.spec_epoch() == b0.spec_epoch() + 1,
{
}

/// Round trip: writing payload `p` to a buffer (host-to-device submit and
/// resolve) and then reading the buffer back (device-to-host submit and
/// resolve) yields exactly `p`.
pub proof fn lemma_round_trip(
    qw0: DeviceQueue,
    qw1: DeviceQueue,
    qr0: DeviceQueue,
    qr1: DeviceQueue,
    b0: Buffer,
    b1: Buffer,
    b2: Buffer,
    b3: Buffer,
    b4: Buffer,
    hw: PendingHandle,
    gw0: CompletionGuard,
    gw1: CompletionGuard,
    hr: PendingHandle,
    gr0: CompletionGuard,
    gr1: CompletionGuard,
    p: Seq<u8>,
    out_write: Option<Seq<u8>>,
    out_read: Option<Seq<u8>>,
)
    requires
        submit_ok(qw0, qw1, b0, b1, hw, gw0, OpKind::TransferH2D, p),
        resolve_ok(b1, b2, hw, gw0, gw1, out_write),
        submit_ok(qr0, qr1, b2, b3, hr, gr0, OpKind::TransferD2H, Seq::<u8>::empty()),
        resolve_ok(b3, b4, hr, gr0, gr1, out_read),
    ensures
        out_read == Some(p),
        b4.spec_data() == p,
{
}

/// Resolving spends the guard: after a successful resolve the guard is
/// marked resolved, so — by the resolve contracts — a second resolve of the
/// same guard can only be rejected with `DoubleCompletion`, which leaves
/// the queue, the buffer, the guard and the trace untouched; the first
/// call's result is unaffected.
pub proof fn lemma_resolve_spends_guard(
    b0: Buffer,
    b1: Buffer,
    h: PendingHandle,
    g0: CompletionGuard,
    g1: CompletionGuard,
    out: Option<Seq<u8>>,
)
    requires
        resolve_ok(b0, b1, h, g0, g1, out),
    ensures
        g1.spec_resolved(),
{
}

/// Two buffers allocated from the same queue carry distinct identities
/// (allocation hands out a fresh identity and advances the counter), so a
/// guard issued for a submission against one never matches a pending handle
/// issued against the other: by the resolve contracts the attempt is
/// rejected with `GuardMismatch` and the other buffer's phase is unchanged.
pub proof fn lemma_no_cross_resolve(
    alloc0: DeviceQueue,
    alloc1: DeviceQueue,
    b_a: Buffer,
    b_b: Buffer,
    qa0: DeviceQueue,
    qa1: DeviceQueue,
    b_a1: Buffer,
    h_a: PendingHandle,
    g_a: CompletionGuard,
    kind_a: OpKind,
    staged_a: Seq<u8>,
    qb0: DeviceQueue,
    qb1: DeviceQueue,
    b_b1: Buffer,
    h_b: PendingHandle,
    g_b: CompletionGuard,
    kind_b: OpKind,
    staged_b: Seq<u8>,
)
    requires
        b_a.spec_id() == alloc0.spec_next_id(),
        alloc1.spec_next_id() == alloc0.spec_next_id() + 1,
        b_b.spec_id() == alloc1.spec_next_id(),
        submit_ok(qa0, qa1, b_a, b_a1, h_a, g_a, kind_a, staged_a),
        submit_ok(qb0, qb1, b_b, b_b1, h_b, g_b, kind_b, staged_b),
    ensures
        b_a1.spec_id() != b_b1.spec_id(),
        !guard_matches(g_a, h_b, b_b1),
        !guard_matches(g_b, h_a, b_a1),
{
}

/// Buffers of queues with different labels can never cross-resolve, even
/// though every queue counts buffer identities from zero: the label is
/// stamped through buffer, handle and guard, so a guard issued on one queue
/// never matches a pending handle issued on another — by the resolve
/// contracts the attempt is rejected with `GuardMismatch` and the other
/// buffer's phase, contents and guard are unchanged.
pub proof fn lemma_no_cross_queue_resolve(
    qa0: DeviceQueue,
    qa1: DeviceQueue,
    b_a: Buffer,
    b_a1: Buffer,
    h_a: PendingHandle,
    g_a: CompletionGuard,
    kind_a: OpKind,
    staged_a: Seq<u8>,
    qb0: DeviceQueue,
    qb1: DeviceQueue,
    b_b: Buffer,
    b_b1: Buffer,
    h_b: PendingHandle,
    g_b: CompletionGuard,
    kind_b: OpKind,
    staged_b: Seq<u8>,
)
    requires
        qa0.spec_label() != qb0.spec_label(),
        submit_ok(qa0, qa1, b_a, b_a1, h_a, g_a, kind_a, staged_a),
        submit_ok(qb0, qb1, b_b, b_b1, h_b, g_b, kind_b, staged_b),
    ensures
        !guard_matches(g_a, h_b, b_b1),
        !guard_matches(g_b, h_a, b_a1),
        !resolvable(qb1, b_b1, h_b, g_a),
        !resolvable(qa1, b_a1, h_a, g_b),
{
}

/// A forced wait on drop gives the buffer's bytes back to the queue, so a
/// subsequent allocation that fits the freed budget succeeds: nothing
/// leaks. The released size being within the queue's outstanding budget is
/// exactly what holds of a buffer that was allocated from that queue.
pub proof fn lemma_abandon_frees_budget(
    q0: DeviceQueue,
    q1: DeviceQueue,
    size_released: usize,
    size_new: usize,
)
    requires
        q0.wf(),
        q0.spec_next_id() < u64::MAX,
        size_released <= q0.spec_allocated(),
        size_new <= size_released,
        q1.spec_allocated() == released_budget(q0, size_released),
        q1.spec_capacity() == q0.spec_capacity(),
        q1.spec_next_id() == q0.spec_next_id(),
    ensures
        can_allocate(q1, size_new),
{
}

} // verus!
