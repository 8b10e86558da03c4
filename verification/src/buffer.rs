//! The buffer phase protocol: allocation, submission, guarded resolution.
//!
//! A [`Buffer`] owns a fixed-size device-resident allocation and is tagged at
//! all times with exactly one [`state::PhaseTag`]. Submitting a transfer or a
//! kernel invocation against a [`DeviceQueue`] moves the buffer to
//! `InFlight` and yields a [`PendingHandle`] together with a single-use
//! [`CompletionGuard`]; only resolving that exact guard brings the buffer
//! back to `Ready`. The queue here is an in-memory execution engine that
//! implements the narrow submit/wait/poll boundary the protocol needs, with
//! a configurable completion latency and fault injection so that every
//! outcome of the boundary is reachable.

pub mod laws;
pub mod state;

use vstd::prelude::*;

verus! {

use crate::buffer::state::PhaseTag;
use crate::memtracer::{Dir, Phase, Record, Recorder, emit, is_auto_trace_enabled, now_us};
use vstd::slice::slice_to_vec;

/// Everything that can go wrong in the buffer protocol.
#[derive(Debug, Clone, Copy, PartialEq, Eq, Structural)]
pub enum MemError {
    /// The resource handle was requested while the buffer was not `Ready`.
    NotReady,
    /// The backend could not satisfy an allocation request.
    AllocationFailed,
    /// A payload length disagrees with the buffer's allocated size.
    SizeMismatch,
    /// A submission was attempted while an earlier one is still unresolved.
    AlreadyPending,
    /// A guard, handle or buffer was presented for a different buffer,
    /// submission epoch or queue than it belongs to.
    GuardMismatch,
    /// A guard that was already resolved was presented a second time.
    DoubleCompletion,
    /// The device operation itself failed; carries the backend's error code.
    BackendOperationFailed(u32),
}

/// The sequence of `n` zero bytes: the contents of a fresh allocation.
pub open spec fn zero_bytes(n: nat) -> Seq<u8> {
    Seq::new(n, |i: int| 0u8)
}

fn zeroed(n: usize) -> (v: Vec<u8>)
    ensures
        v@ == zero_bytes(n as nat),
{
    let mut v: Vec<u8> = Vec::new();
    while v.len() < n
        invariant
            v@.len() <= n,
            forall|i: int| 0 <= i < v@.len() ==> v@[i] == 0u8,
        decreases n - v.len(),
    {
        v.push(0u8);
    }
    proof {
        assert(v@ =~= zero_bytes(n as nat));
    }
    v
}

/// One completion token of the in-memory engine: how many polls remain until
/// the operation reports done, and an injected fault code, if any.
#[derive(Clone, Copy)]
struct TokenState {
    remaining: u64,
    fault: Option<u32>,
}

/// What one poll of a completion token reports.
enum PollOutcome {
    Pending,
    Done,
    Failed(u32),
}

/// The execution context submissions run against. It plays the backend's
/// part of the boundary: it allocates from a fixed byte budget, issues one
/// completion token per submission, completes a token after a configurable
/// number of polls (immediately under a blocking wait), and reports an
/// injected fault code in place of success when one was armed.
pub struct DeviceQueue {
    queue_label: u64,
    capacity_bytes: usize,
    allocated_bytes: usize,
    next_buffer_id: u64,
    latency_ticks: u64,
    armed_fault: Option<u32>,
    tokens: Vec<TokenState>,
}

impl DeviceQueue {
    /// The label that stamps this queue's buffers, handles and guards.
    pub closed spec fn spec_label(&self) -> u64 {
        self.queue_label
    }

    /// Total device memory this queue can hand out.
    pub closed spec fn spec_capacity(&self) -> usize {
        self.capacity_bytes
    }

    /// Bytes currently held by live buffers of this queue.
    pub closed spec fn spec_allocated(&self) -> usize {
        self.allocated_bytes
    }

    /// Identity the next allocated buffer will carry.
    pub closed spec fn spec_next_id(&self) -> u64 {
        self.next_buffer_id
    }

    /// Polls a fresh submission needs before it completes.
    pub closed spec fn spec_latency(&self) -> u64 {
        self.latency_ticks
    }

    /// Fault code the next submission will complete with, if armed.
    pub closed spec fn spec_armed_fault(&self) -> Option<u32> {
        self.armed_fault
    }

    /// Number of completion tokens issued so far.
    pub closed spec fn spec_token_count(&self) -> nat {
        self.tokens@.len()
    }

    /// Polls still needed before token `i` reports completion.
    pub closed spec fn spec_token_remaining(&self, i: int) -> u64 {
        self.tokens@[i].remaining
    }

    /// Fault code token `i` will complete with, if any.
    pub closed spec fn spec_token_fault(&self, i: int) -> Option<u32> {
        self.tokens@[i].fault
    }

    /// The queue never hands out more bytes than its capacity.
    pub open spec fn wf(&self) -> bool {
        self.spec_allocated() <= self.spec_capacity()
    }

    /// A new engine with `capacity_bytes` of device memory whose operations
    /// complete after `latency_ticks` polls. `queue_label` becomes the
    /// identity stamp of everything this queue issues: give each queue in a
    /// process its own label, and a guard can never resolve an operation of
    /// another queue, even though every queue counts buffer identities from
    /// zero.
    pub fn new(capacity_bytes: usize, latency_ticks: u64, queue_label: u64) -> (q: DeviceQueue)
        ensures
            q.wf(),
            q.spec_label() == queue_label,
            q.spec_capacity() == capacity_bytes,
            q.spec_allocated() == 0,
            q.spec_next_id() == 0,
            q.spec_latency() == latency_ticks,
            q.spec_armed_fault() is None,
            q.spec_token_count() == 0,
    {
        DeviceQueue {
            queue_label,
            capacity_bytes,
            allocated_bytes: 0,
            next_buffer_id: 0,
            latency_ticks,
            armed_fault: None,
            tokens: Vec::new(),
        }
    }

    /// The label that stamps this queue's buffers, handles and guards.
    pub fn label(&self) -> (r: u64)
        ensures
            r == self.spec_label(),
    {
        self.queue_label
    }

    /// Bytes currently held by live buffers of this queue.
    pub fn allocated_bytes(&self) -> (n: usize)
        ensures
            n == self.spec_allocated(),
    {
        self.allocated_bytes
    }

    /// Total device memory this queue can hand out.
    pub fn capacity_bytes(&self) -> (n: usize)
        ensures
            n == self.spec_capacity(),
    {
        self.capacity_bytes
    }

    /// Arm a fault: the next submission's operation will complete with
    /// `BackendOperationFailed(code)` instead of success.
    pub fn inject_fault(&mut self, code: u32)
        ensures
            final(self).spec_armed_fault() == Some(code),
            final(self).spec_capacity() == old(self).spec_capacity(),
            final(self).spec_allocated() == old(self).spec_allocated(),
            final(self).spec_next_id() == old(self).spec_next_id(),
            final(self).spec_latency() == old(self).spec_latency(),
            final(self).spec_label() == old(self).spec_label(),
            final(self).spec_token_count() == old(self).spec_token_count(),
            final(self).spec_label() == old(self).spec_label(),
            final(self).wf() == old(self).wf(),
    {
        self.armed_fault = Some(code);
    }

    /// Register one submission with the engine: a fresh token that needs
    /// `latency` polls and will report the armed fault, if one was set.
    fn issue_token(&mut self) -> (t: usize)
        ensures
            t == old(self).spec_token_count(),
            final(self).spec_token_count() == old(self).spec_token_count() + 1,
            final(self).spec_token_remaining(t as int) == old(self).spec_latency(),
            final(self).spec_token_fault(t as int) == old(self).spec_armed_fault(),
            final(self).spec_armed_fault() is None,
            forall|i: int|
                0 <= i < old(self).spec_token_count() ==> #[trigger] final(self).spec_token_remaining(i)
                    == old(self).spec_token_remaining(i)
                    && final(self).spec_token_fault(i) == old(self).spec_token_fault(i),
            final(self).spec_capacity() == old(self).spec_capacity(),
            final(self).spec_allocated() == old(self).spec_allocated(),
            final(self).spec_next_id() == old(self).spec_next_id(),
            final(self).spec_latency() == old(self).spec_latency(),
            final(self).spec_label() == old(self).spec_label(),
    {
        let t = self.tokens.len();
        let fault = self.armed_fault;
        self.armed_fault = None;
        self.tokens.push(TokenState { remaining: self.latency_ticks, fault });
        t
    }

    /// Block until token `t` is complete; report its fault code, if any.
    fn wait_token(&mut self, t: usize) -> (fault: Option<u32>)
        requires
            t < old(self).spec_token_count(),
        ensures
            fault == old(self).spec_token_fault(t as int),
            final(self).spec_token_count() == old(self).spec_token_count(),
            final(self).spec_token_remaining(t as int) == 0,
            final(self).spec_token_fault(t as int) == old(self).spec_token_fault(t as int),
            forall|i: int|
                0 <= i < old(self).spec_token_count() && i != t ==> #[trigger] final(self).spec_token_remaining(i)
                    == old(self).spec_token_remaining(i)
                    && final(self).spec_token_fault(i) == old(self).spec_token_fault(i),
            final(self).spec_capacity() == old(self).spec_capacity(),
            final(self).spec_allocated() == old(self).spec_allocated(),
            final(self).spec_next_id() == old(self).spec_next_id(),
            final(self).spec_latency() == old(self).spec_latency(),
            final(self).spec_label() == old(self).spec_label(),
            final(self).spec_armed_fault() == old(self).spec_armed_fault(),
    {
        let fault = self.tokens[t].fault;
        let elem = &mut self.tokens[t];
        elem.remaining = 0;
        fault
    }

    /// Poll token `t` once: pending while latency remains (consuming one
    /// tick), otherwise done or failed with the token's fault code.
    fn poll_token(&mut self, t: usize) -> (outcome: PollOutcome)
        requires
            t < old(self).spec_token_count(),
        ensures
            final(self).spec_token_count() == old(self).spec_token_count(),
            final(self).spec_token_fault(t as int) == old(self).spec_token_fault(t as int),
            forall|i: int|
                0 <= i < old(self).spec_token_count() && i != t ==> #[trigger] final(self).spec_token_remaining(i)
                    == old(self).spec_token_remaining(i)
                    && final(self).spec_token_fault(i) == old(self).spec_token_fault(i),
            final(self).spec_capacity() == old(self).spec_capacity(),
            final(self).spec_allocated() == old(self).spec_allocated(),
            final(self).spec_next_id() == old(self).spec_next_id(),
            final(self).spec_latency() == old(self).spec_latency(),
            final(self).spec_label() == old(self).spec_label(),
            final(self).spec_armed_fault() == old(self).spec_armed_fault(),
            old(self).spec_token_remaining(t as int) > 0 ==> outcome is Pending
                && final(self).spec_token_remaining(t as int)
                    == old(self).spec_token_remaining(t as int) - 1,
            old(self).spec_token_remaining(t as int) == 0
                ==> final(self).spec_token_remaining(t as int) == 0 && match old(self).spec_token_fault(t as int) {
                Option::None => outcome is Done,
                Option::Some(code) => outcome == PollOutcome::Failed(code),
            },
    {
        let ts = self.tokens[t];
        if ts.remaining > 0 {
            let elem = &mut self.tokens[t];
            elem.remaining = ts.remaining - 1;
            PollOutcome::Pending
        } else {
            match ts.fault {
                Option::Some(code) => PollOutcome::Failed(code),
                Option::None => PollOutcome::Done,
            }
        }
    }
}

/// A device memory allocation of a fixed byte size, tagged with its current
/// lifecycle phase. The device-resident contents are modelled by the engine
/// as a byte vector of exactly the allocated size.
pub struct Buffer {
    queue_label: u64,
    id: u64,
    size_bytes: usize,
    phase: PhaseTag,
    epoch: u64,
    data: Vec<u8>,
}

impl Buffer {
    /// Label of the queue this buffer was allocated from.
    pub closed spec fn spec_queue_label(&self) -> u64 {
        self.queue_label
    }

    /// Identity of this buffer; doubles as its backend-native handle.
    pub closed spec fn spec_id(&self) -> u64 {
        self.id
    }

    /// Allocated size in bytes; immutable after allocation.
    pub closed spec fn spec_size(&self) -> usize {
        self.size_bytes
    }

    /// The lifecycle phase the buffer currently occupies.
    pub closed spec fn spec_phase(&self) -> PhaseTag {
        self.phase
    }

    /// How many submissions have been issued against this buffer.
    pub closed spec fn spec_epoch(&self) -> u64 {
        self.epoch
    }

    /// The device-resident contents.
    pub closed spec fn spec_data(&self) -> Seq<u8> {
        self.data@
    }

    /// The contents always span exactly the allocated size.
    pub open spec fn wf(&self) -> bool {
        self.spec_data().len() == self.spec_size()
    }

    /// Label of the queue this buffer was allocated from.
    pub fn queue_label(&self) -> (r: u64)
        ensures
            r == self.spec_queue_label(),
    {
        self.queue_label
    }

    /// Identity of this buffer.
    pub fn id(&self) -> (r: u64)
        ensures
            r == self.spec_id(),
    {
        self.id
    }

    /// Allocated size in bytes.
    pub fn size_bytes(&self) -> (r: usize)
        ensures
            r == self.spec_size(),
    {
        self.size_bytes
    }

    /// The lifecycle phase the buffer currently occupies.
    pub fn phase(&self) -> (r: PhaseTag)
        ensures
            r == self.spec_phase(),
    {
        self.phase
    }

    /// How many submissions have been issued against this buffer.
    pub fn epoch(&self) -> (r: u64)
        ensures
            r == self.spec_epoch(),
    {
        self.epoch
    }

    /// The backend-native resource handle, for kernel-argument binding or
    /// direct host access. Exposed exactly when the phase is `Ready`; any
    /// other phase fails with `NotReady`.
    pub fn raw_handle(&self) -> (r: Result<u64, MemError>)
        ensures
            self.spec_phase() is Ready ==> r == Ok::<u64, MemError>(self.spec_id()),
            !(self.spec_phase() is Ready) ==> r == Err::<u64, MemError>(MemError::NotReady),
    {
        match self.phase {
            PhaseTag::Ready => Ok(self.id),
            _ => Err(MemError::NotReady),
        }
    }
}

/// What succeeding at `allocate` requires of the queue: the requested size
/// fits in the remaining budget and the identity space is not exhausted.
pub open spec fn can_allocate(q: DeviceQueue, size_bytes: usize) -> bool {
    &&& q.spec_allocated() + size_bytes <= q.spec_capacity()
    &&& q.spec_next_id() < u64::MAX
}

/// Request `size_bytes` of device memory from the queue. On success the new
/// buffer is in phase `Queued`, zero-filled, carries a fresh identity, and
/// the queue's budget shrinks by exactly the allocated size. Fails with
/// `AllocationFailed`, leaving the queue unchanged, if and only if the
/// request does not fit (or the identity space is exhausted).
pub fn allocate(q: &mut DeviceQueue, size_bytes: usize) -> (r: Result<Buffer, MemError>)
    requires
        old(q).wf(),
    ensures
        final(q).wf(),
        match r {
            Ok(b) => {
                &&& can_allocate(*old(q), size_bytes)
                &&& b.wf()
                &&& b.spec_phase() is Queued
                &&& b.spec_size() == size_bytes
                &&& b.spec_epoch() == 0
                &&& b.spec_id() == old(q).spec_next_id()
                &&& b.spec_queue_label() == old(q).spec_label()
                &&& b.spec_data() == zero_bytes(size_bytes as nat)
                &&& final(q).spec_allocated() == old(q).spec_allocated() + size_bytes
                &&& final(q).spec_next_id() == old(q).spec_next_id() + 1
                &&& final(q).spec_capacity() == old(q).spec_capacity()
                &&& final(q).spec_latency() == old(q).spec_latency()
                &&& final(q).spec_label() == old(q).spec_label()
                &&& final(q).spec_armed_fault() == old(q).spec_armed_fault()
                &&& final(q).spec_token_count() == old(q).spec_token_count()
            },
            Err(e) => {
                &&& e == MemError::AllocationFailed
                &&& !can_allocate(*old(q), size_bytes)
                &&& *final(q) == *old(q)
            },
        },
{
    if q.next_buffer_id == u64::MAX {
        return Err(MemError::AllocationFailed);
    }
    if size_bytes > q.capacity_bytes - q.allocated_bytes {
        return Err(MemError::AllocationFailed);
    }
    let id = q.next_buffer_id;
    q.next_buffer_id = id + 1;
    q.allocated_bytes = q.allocated_bytes + size_bytes;
    let data = zeroed(size_bytes);
    let queue_label = q.queue_label;
    Ok(Buffer { queue_label, id, size_bytes, phase: PhaseTag::Queued, epoch: 0, data })
}

/// Direction of a transfer submission.
#[derive(Debug, Clone, Copy, PartialEq, Eq, Structural)]
pub enum TransferDir {
    /// Copy the payload from the host into the buffer.
    HostToDevice,
    /// Copy the buffer's contents out to the host.
    DeviceToHost,
}

/// The kind of operation a pending handle stands for.
#[derive(Debug, Clone, Copy, PartialEq, Eq, Structural)]
pub enum OpKind {
    /// A host-to-device transfer.
    TransferH2D,
    /// A device-to-host transfer.
    TransferD2H,
    /// A kernel invocation using the buffer.
    KernelUse,
}

/// The operation kind a transfer submission in direction `d` stands for.
pub open spec fn kind_of_dir(d: TransferDir) -> OpKind {
    match d {
        TransferDir::HostToDevice => OpKind::TransferH2D,
        TransferDir::DeviceToHost => OpKind::TransferD2H,
    }
}

/// The direction a completed operation of kind `k` is traced under.
pub open spec fn dir_of_kind(k: OpKind) -> Dir {
    match k {
        OpKind::TransferH2D => Dir::H2D,
        OpKind::TransferD2H => Dir::D2H,
        OpKind::KernelUse => Dir::Kernel,
    }
}

/// The trace phase a completed operation of kind `k` is traced under.
pub open spec fn phase_of_kind(k: OpKind) -> Phase {
    match k {
        OpKind::KernelUse => Phase::Kernel,
        _ => Phase::Transfer,
    }
}

/// Single-use token bound to one submission against one buffer. Resolving
/// it exactly once is the holder's obligation; the `resolved` flag makes a
/// second attempt observable as `DoubleCompletion`.
#[derive(Debug)]
pub struct CompletionGuard {
    queue_label: u64,
    buffer_id: u64,
    epoch: u64,
    resolved: bool,
}

impl CompletionGuard {
    /// Label of the queue the submission was made against.
    pub closed spec fn spec_queue_label(&self) -> u64 {
        self.queue_label
    }

    /// Identity of the buffer this guard was issued for.
    pub closed spec fn spec_buffer_id(&self) -> u64 {
        self.buffer_id
    }

    /// The submission epoch this guard was issued for.
    pub closed spec fn spec_epoch(&self) -> u64 {
        self.epoch
    }

    /// Whether this guard has already been resolved.
    pub closed spec fn spec_resolved(&self) -> bool {
        self.resolved
    }

    /// Label of the queue the submission was made against.
    pub fn queue_label(&self) -> (r: u64)
        ensures
            r == self.spec_queue_label(),
    {
        self.queue_label
    }

    /// Identity of the buffer this guard was issued for.
    pub fn buffer_id(&self) -> (r: u64)
        ensures
            r == self.spec_buffer_id(),
    {
        self.buffer_id
    }

    /// The submission epoch this guard was issued for.
    pub fn epoch(&self) -> (r: u64)
        ensures
            r == self.spec_epoch(),
    {
        self.epoch
    }

    /// Whether this guard has already been resolved.
    pub fn is_resolved(&self) -> (r: bool)
        ensures
            r == self.spec_resolved(),
    {
        self.resolved
    }
}

/// The outstanding side of one submission: which buffer and epoch it belongs
/// to, the engine's completion token, the operation kind, and the staged
/// host payload of a host-to-device transfer.
#[derive(Debug)]
pub struct PendingHandle {
    queue_label: u64,
    buffer_id: u64,
    epoch: u64,
    token: usize,
    kind: OpKind,
    staged: Vec<u8>,
    t_start_us: u64,
}

impl PendingHandle {
    /// Label of the queue the submission was made against.
    pub closed spec fn spec_queue_label(&self) -> u64 {
        self.queue_label
    }

    /// Identity of the buffer the submission was made against.
    pub closed spec fn spec_buffer_id(&self) -> u64 {
        self.buffer_id
    }

    /// The submission epoch of this handle.
    pub closed spec fn spec_epoch(&self) -> u64 {
        self.epoch
    }

    /// The engine's completion token for the submission.
    pub closed spec fn spec_token(&self) -> usize {
        self.token
    }

    /// What kind of operation is outstanding.
    pub closed spec fn spec_kind(&self) -> OpKind {
        self.kind
    }

    /// The staged payload of a host-to-device transfer; empty otherwise.
    pub closed spec fn spec_staged(&self) -> Seq<u8> {
        self.staged@
    }

    /// Label of the queue the submission was made against.
    pub fn queue_label(&self) -> (r: u64)
        ensures
            r == self.spec_queue_label(),
    {
        self.queue_label
    }

    /// Identity of the buffer the submission was made against.
    pub fn buffer_id(&self) -> (r: u64)
        ensures
            r == self.spec_buffer_id(),
    {
        self.buffer_id
    }

    /// The submission epoch of this handle.
    pub fn epoch(&self) -> (r: u64)
        ensures
            r == self.spec_epoch(),
    {
        self.epoch
    }

    /// What kind of operation is outstanding.
    pub fn kind(&self) -> (r: OpKind)
        ensures
            r == self.spec_kind(),
    {
        self.kind
    }
}

/// A guard resolves a pending handle against a buffer exactly when all
/// three carry the same queue label, name the same buffer and the same
/// submission epoch, and the buffer is still in flight. The label keeps
/// guards of different queues apart even where their per-queue buffer
/// identities collide.
pub open spec fn guard_matches(g: CompletionGuard, h: PendingHandle, b: Buffer) -> bool {
    &&& g.spec_queue_label() == h.spec_queue_label()
    &&& b.spec_queue_label() == h.spec_queue_label()
    &&& g.spec_buffer_id() == h.spec_buffer_id()
    &&& g.spec_epoch() == h.spec_epoch()
    &&& b.spec_id() == h.spec_buffer_id()
    &&& b.spec_epoch() == h.spec_epoch()
    &&& b.spec_phase() is InFlight
}

/// The staged payload of a host-to-device handle spans exactly the buffer's
/// allocated size; handles of other kinds carry no payload to fit.
pub open spec fn handle_fits(h: PendingHandle, b: Buffer) -> bool {
    h.spec_kind() is TransferH2D ==> h.spec_staged().len() == b.spec_size()
}

/// Everything a resolve attempt checks before it touches the engine: the
/// guard, handle and buffer belong together, the staged payload fits, the
/// handle was issued by this very queue, and its token is one the engine
/// knows. An attempt that misses any of these is rejected with
/// `GuardMismatch` and changes nothing.
pub open spec fn resolvable(q: DeviceQueue, b: Buffer, h: PendingHandle, g: CompletionGuard) -> bool {
    &&& guard_matches(g, h, b)
    &&& handle_fits(h, b)
    &&& q.spec_label() == h.spec_queue_label()
    &&& (h.spec_token() as int) < q.spec_token_count()
}

/// The queue's configuration is untouched: label, capacity, identity
/// counter and completion latency.
pub open spec fn queue_config_unchanged(q0: DeviceQueue, q1: DeviceQueue) -> bool {
    &&& q1.spec_label() == q0.spec_label()
    &&& q1.spec_capacity() == q0.spec_capacity()
    &&& q1.spec_next_id() == q0.spec_next_id()
    &&& q1.spec_latency() == q0.spec_latency()
}

/// Every token other than `t` is untouched, and no token appeared or
/// disappeared.
pub open spec fn tokens_unchanged_except(q0: DeviceQueue, q1: DeviceQueue, t: int) -> bool {
    &&& q1.spec_token_count() == q0.spec_token_count()
    &&& forall|i: int|
        0 <= i < q0.spec_token_count() && i != t ==> #[trigger] q1.spec_token_remaining(i)
            == q0.spec_token_remaining(i) && q1.spec_token_fault(i) == q0.spec_token_fault(i)
}

/// What a successful submission establishes: the buffer is in flight under
/// a fresh epoch with its contents untouched, handle and guard are bound to
/// that exact buffer and epoch, and the engine issued one fresh token
/// (carrying the armed fault, if one was set) while touching nothing else.
pub open spec fn submit_ok(
    q0: DeviceQueue,
    q1: DeviceQueue,
    b0: Buffer,
    b1: Buffer,
    h: PendingHandle,
    g: CompletionGuard,
    kind: OpKind,
    staged: Seq<u8>,
) -> bool {
    &&& b0.spec_queue_label() == q0.spec_label()
    &&& b1.spec_queue_label() == b0.spec_queue_label()
    &&& b1.spec_id() == b0.spec_id()
    &&& b1.spec_size() == b0.spec_size()
    &&& b1.spec_data() == b0.spec_data()
    &&& b1.spec_phase() is InFlight
    &&& b1.spec_epoch() == b0.spec_epoch() + 1
    &&& h.spec_queue_label() == b0.spec_queue_label()
    &&& h.spec_buffer_id() == b0.spec_id()
    &&& h.spec_epoch() == b0.spec_epoch() + 1
    &&& h.spec_kind() == kind
    &&& h.spec_staged() == staged
    &&& h.spec_token() == q0.spec_token_count()
    &&& g.spec_queue_label() == b0.spec_queue_label()
    &&& g.spec_buffer_id() == b0.spec_id()
    &&& g.spec_epoch() == b0.spec_epoch() + 1
    &&& !g.spec_resolved()
    &&& q1.spec_token_count() == q0.spec_token_count() + 1
    &&& q1.spec_token_remaining(h.spec_token() as int) == q0.spec_latency()
    &&& q1.spec_token_fault(h.spec_token() as int) == q0.spec_armed_fault()
    &&& q1.spec_armed_fault() is None
    &&& q1.spec_allocated() == q0.spec_allocated()
    &&& queue_config_unchanged(q0, q1)
    &&& forall|i: int|
        0 <= i < q0.spec_token_count() ==> #[trigger] q1.spec_token_remaining(i)
            == q0.spec_token_remaining(i) && q1.spec_token_fault(i) == q0.spec_token_fault(i)
}

/// A single byte after the engine's demonstration kernel: incremented,
/// wrapping at the byte boundary.
pub open spec fn byte_bump(b: u8) -> u8 {
    if b == 255 {
        0u8
    } else {
        (b + 1) as u8
    }
}

/// The buffer contents after the engine's demonstration kernel ran over
/// them: every byte incremented, wrapping at the byte boundary.
pub open spec fn kernel_effect(s: Seq<u8>) -> Seq<u8> {
    Seq::new(s.len(), |i: int| byte_bump(s[i]))
}

fn bumped(src: &Vec<u8>) -> (v: Vec<u8>)
    ensures
        v@ == kernel_effect(src@),
{
    let mut v: Vec<u8> = Vec::new();
    let mut i: usize = 0;
    while i < src.len()
        invariant
            i <= src@.len(),
            v@.len() == i,
            forall|j: int| 0 <= j < i ==> v@[j] == byte_bump(src@[j]),
        decreases src@.len() - i,
    {
        let b = src[i];
        if b == 255 {
            v.push(0u8);
        } else {
            v.push(b + 1);
        }
        i = i + 1;
    }
    proof {
        assert(v@ =~= kernel_effect(src@));
    }
    v
}

/// What a successfully resolved operation establishes on the buffer, the
/// guard and the returned host data: the buffer is `Ready` again under the
/// same identity, size and epoch; a host-to-device transfer moved the staged
/// payload into the device contents; a device-to-host transfer left them
/// untouched and handed a copy out; a kernel ran the engine's demonstration
/// kernel over them. The guard keeps its binding and is now resolved.
pub open spec fn resolve_ok(
    b0: Buffer,
    b1: Buffer,
    h: PendingHandle,
    g0: CompletionGuard,
    g1: CompletionGuard,
    data_out: Option<Seq<u8>>,
) -> bool {
    &&& b1.spec_queue_label() == b0.spec_queue_label()
    &&& b1.spec_id() == b0.spec_id()
    &&& b1.spec_size() == b0.spec_size()
    &&& b1.spec_epoch() == b0.spec_epoch()
    &&& b1.spec_phase() is Ready
    &&& g1.spec_queue_label() == g0.spec_queue_label()
    &&& g1.spec_buffer_id() == g0.spec_buffer_id()
    &&& g1.spec_epoch() == g0.spec_epoch()
    &&& g1.spec_resolved()
    &&& match h.spec_kind() {
        OpKind::TransferH2D => b1.spec_data() == h.spec_staged() && data_out is None,
        OpKind::TransferD2H => b1.spec_data() == b0.spec_data() && data_out == Some(
            b0.spec_data(),
        ),
        OpKind::KernelUse => b1.spec_data() == kernel_effect(b0.spec_data()) && data_out is None,
    }
}

/// The engine after completing token `t`: that token needs no further polls,
/// and nothing else about the queue moved.
pub open spec fn queue_after_completion(q0: DeviceQueue, q1: DeviceQueue, t: int) -> bool {
    &&& tokens_unchanged_except(q0, q1, t)
    &&& q1.spec_token_remaining(t) == 0
    &&& q1.spec_token_fault(t) == q0.spec_token_fault(t)
    &&& q1.spec_allocated() == q0.spec_allocated()
    &&& q1.spec_armed_fault() == q0.spec_armed_fault()
    &&& queue_config_unchanged(q0, q1)
}

/// The trace record of a completed operation: byte count and labels follow
/// the operation kind, the transaction fields are absent, and the cause
/// field distinguishes a forced wait on drop from an explicit resolve.
pub open spec fn completion_record(r: Record, kind: OpKind, bytes: usize, forced: bool) -> bool {
    &&& r.t_start_us <= r.t_end_us
    &&& r.bytes == bytes
    &&& r.dir == dir_of_kind(kind)
    &&& r.phase == phase_of_kind(kind)
    &&& r.idle_us == 0
    &&& r.abort_token is None
    &&& r.tx_id is None
    &&& r.retries is None
    &&& r.conflict_sz is None
    &&& if forced {
        r.cause matches Some(c) && c@ == "forced_wait_on_drop"@
    } else {
        r.cause is None
    }
}

/// How the recorder moves when an operation completes: exactly one matching
/// record is appended — unconditionally for a forced wait, and only while
/// auto-tracing is on for an explicit resolve — and nothing else changes.
pub open spec fn traced_completion(
    rec0: Recorder,
    rec1: Recorder,
    kind: OpKind,
    bytes: usize,
    forced: bool,
) -> bool {
    &&& rec1.spec_auto_trace() == rec0.spec_auto_trace()
    &&& rec1.spec_t0() == rec0.spec_t0()
    &&& if forced || rec0.spec_auto_trace() {
        &&& rec1.spec_records().len() == rec0.spec_records().len() + 1
        &&& rec1.spec_records().drop_last() == rec0.spec_records()
        &&& completion_record(rec1.spec_records().last(), kind, bytes, forced)
    } else {
        rec1.spec_records() == rec0.spec_records()
    }
}

fn make_completion_record(
    kind: OpKind,
    bytes: usize,
    t_start_us: u64,
    t_end_us: u64,
    forced: bool,
) -> (r: Record)
    requires
        t_start_us <= t_end_us,
    ensures
        completion_record(r, kind, bytes, forced),
        r.t_start_us == t_start_us,
        r.t_end_us == t_end_us,
{
    let dir = match kind {
        OpKind::TransferH2D => Dir::H2D,
        OpKind::TransferD2H => Dir::D2H,
        OpKind::KernelUse => Dir::Kernel,
    };
    let phase = match kind {
        OpKind::KernelUse => Phase::Kernel,
        _ => Phase::Transfer,
    };
    let cause: Option<String> = if forced {
        Some("forced_wait_on_drop".to_owned())
    } else {
        None
    };
    Record {
        t_start_us,
        t_end_us,
        bytes,
        dir,
        idle_us: 0,
        abort_token: None,
        phase,
        tx_id: None,
        cause,
        retries: None,
        conflict_sz: None,
    }
}

fn do_submit(
    q: &mut DeviceQueue,
    buf: &mut Buffer,
    kind: OpKind,
    staged: Vec<u8>,
    t_start_us: u64,
) -> (r: (PendingHandle, CompletionGuard))
    requires
        old(buf).wf(),
        old(buf).spec_queue_label() == old(q).spec_label(),
        !(old(buf).spec_phase() is InFlight),
        old(buf).spec_epoch() < u64::MAX,
    ensures
        final(buf).wf(),
        submit_ok(*old(q), *final(q), *old(buf), *final(buf), r.0, r.1, kind, staged@),
{
    let epoch = buf.epoch + 1;
    buf.epoch = epoch;
    buf.phase = PhaseTag::InFlight;
    let token = q.issue_token();
    let queue_label = buf.queue_label;
    let buffer_id = buf.id;
    let h = PendingHandle { queue_label, buffer_id, epoch, token, kind, staged, t_start_us };
    let g = CompletionGuard { queue_label, buffer_id, epoch, resolved: false };
    (h, g)
}

/// Enqueue a transfer between the host payload and the buffer. A buffer
/// that was not allocated from this queue fails with `GuardMismatch`. The
/// payload length must equal the buffer's allocated size (the host side of
/// a device-to-host transfer must be sized to receive it); otherwise the
/// call fails with `SizeMismatch`. A buffer that is already in flight fails
/// with `AlreadyPending`. A rejected submission changes nothing. On success
/// the buffer moves to `InFlight` and the returned handle and guard are
/// bound to this exact submission.
pub fn submit_transfer(
    q: &mut DeviceQueue,
    buf: &mut Buffer,
    dir: TransferDir,
    payload: &[u8],
    rec: &Recorder,
) -> (r: Result<(PendingHandle, CompletionGuard), MemError>)
    requires
        old(buf).wf(),
        old(buf).spec_epoch() < u64::MAX,
    ensures
        final(buf).wf(),
        match r {
            Ok(hg) => {
                &&& !(old(buf).spec_phase() is InFlight)
                &&& payload@.len() == old(buf).spec_size()
                &&& submit_ok(
                    *old(q),
                    *final(q),
                    *old(buf),
                    *final(buf),
                    hg.0,
                    hg.1,
                    kind_of_dir(dir),
                    if dir is HostToDevice {
                        payload@
                    } else {
                        Seq::<u8>::empty()
                    },
                )
            },
            Err(e) => {
                &&& *final(buf) == *old(buf)
                &&& *final(q) == *old(q)
                &&& (e == MemError::GuardMismatch <==> old(buf).spec_queue_label() != old(
                    q,
                ).spec_label())
                &&& (e == MemError::AlreadyPending <==> old(buf).spec_queue_label() == old(
                    q,
                ).spec_label() && old(buf).spec_phase() is InFlight)
                &&& (e == MemError::SizeMismatch <==> old(buf).spec_queue_label() == old(
                    q,
                ).spec_label() && !(old(buf).spec_phase() is InFlight) && payload@.len() != old(
                    buf,
                ).spec_size())
                &&& (e == MemError::GuardMismatch || e == MemError::AlreadyPending || e
                    == MemError::SizeMismatch)
            },
        },
{
    if buf.queue_label != q.queue_label {
        return Err(MemError::GuardMismatch);
    }
    if buf.phase == PhaseTag::InFlight {
        return Err(MemError::AlreadyPending);
    }
    if payload.len() != buf.size_bytes {
        return Err(MemError::SizeMismatch);
    }
    let t_start_us = now_us(rec);
    let staged: Vec<u8> = if dir == TransferDir::HostToDevice {
        slice_to_vec(payload)
    } else {
        Vec::new()
    };
    let kind = match dir {
        TransferDir::HostToDevice => OpKind::TransferH2D,
        TransferDir::DeviceToHost => OpKind::TransferD2H,
    };
    Ok(do_submit(q, buf, kind, staged, t_start_us))
}

/// Enqueue a kernel invocation that uses the buffer. A buffer that was not
/// allocated from this queue fails with `GuardMismatch`; one that is
/// already in flight fails with `AlreadyPending`; a rejected submission
/// changes nothing. On success the buffer moves to `InFlight` and the
/// returned handle and guard are bound to this exact submission.
pub fn submit_kernel_use(
    q: &mut DeviceQueue,
    buf: &mut Buffer,
    rec: &Recorder,
) -> (r: Result<(PendingHandle, CompletionGuard), MemError>)
    requires
        old(buf).wf(),
        old(buf).spec_epoch() < u64::MAX,
    ensures
        final(buf).wf(),
        match r {
            Ok(hg) => {
                &&& !(old(buf).spec_phase() is InFlight)
                &&& submit_ok(
                    *old(q),
                    *final(q),
                    *old(buf),
                    *final(buf),
                    hg.0,
                    hg.1,
                    OpKind::KernelUse,
                    Seq::<u8>::empty(),
                )
            },
            Err(e) => {
                &&& *final(buf) == *old(buf)
                &&& *final(q) == *old(q)
                &&& (e == MemError::GuardMismatch <==> old(buf).spec_queue_label() != old(
                    q,
                ).spec_label())
                &&& (e == MemError::AlreadyPending <==> old(buf).spec_queue_label() == old(
                    q,
                ).spec_label() && old(buf).spec_phase() is InFlight)
                &&& (e == MemError::GuardMismatch || e == MemError::AlreadyPending)
            },
        },
{
    if buf.queue_label != q.queue_label {
        return Err(MemError::GuardMismatch);
    }
    if buf.phase == PhaseTag::InFlight {
        return Err(MemError::AlreadyPending);
    }
    let t_start_us = now_us(rec);
    Ok(do_submit(q, buf, OpKind::KernelUse, Vec::new(), t_start_us))
}

/// Every token is untouched, and no token appeared or disappeared.
pub open spec fn tokens_unchanged(q0: DeviceQueue, q1: DeviceQueue) -> bool {
    &&& q1.spec_token_count() == q0.spec_token_count()
    &&& forall|i: int|
        0 <= i < q0.spec_token_count() ==> #[trigger] q1.spec_token_remaining(i)
            == q0.spec_token_remaining(i) && q1.spec_token_fault(i) == q0.spec_token_fault(i)
}

/// The buffer and guard after a failed device operation: the operation is no
/// longer outstanding, so the buffer is `Ready` (its contents untouched, the
/// failed operation had no effect) and the guard's obligation is discharged.
pub open spec fn backend_failure_state(
    b0: Buffer,
    b1: Buffer,
    g0: CompletionGuard,
    g1: CompletionGuard,
) -> bool {
    &&& b1.spec_queue_label() == b0.spec_queue_label()
    &&& b1.spec_id() == b0.spec_id()
    &&& b1.spec_size() == b0.spec_size()
    &&& b1.spec_epoch() == b0.spec_epoch()
    &&& b1.spec_data() == b0.spec_data()
    &&& b1.spec_phase() is Ready
    &&& g1.spec_queue_label() == g0.spec_queue_label()
    &&& g1.spec_buffer_id() == g0.spec_buffer_id()
    &&& g1.spec_epoch() == g0.spec_epoch()
    &&& g1.spec_resolved()
}

/// The engine after one poll of a still-pending token `t`: one tick of its
/// latency was consumed and nothing else about the queue moved.
pub open spec fn queue_after_tick(q0: DeviceQueue, q1: DeviceQueue, t: int) -> bool {
    &&& tokens_unchanged_except(q0, q1, t)
    &&& q1.spec_token_remaining(t) == q0.spec_token_remaining(t) - 1
    &&& q1.spec_token_fault(t) == q0.spec_token_fault(t)
    &&& q1.spec_allocated() == q0.spec_allocated()
    &&& q1.spec_armed_fault() == q0.spec_armed_fault()
    &&& queue_config_unchanged(q0, q1)
}

fn finish_success(
    buf: &mut Buffer,
    handle: &PendingHandle,
    guard: &mut CompletionGuard,
    rec: &mut Recorder,
) -> (out: Option<Vec<u8>>)
    requires
        old(buf).wf(),
        handle.spec_kind() is TransferH2D ==> handle.spec_staged().len() == old(buf).spec_size(),
        !old(guard).spec_resolved(),
        old(buf).spec_phase() is InFlight,
    ensures
        final(buf).wf(),
        resolve_ok(
            *old(buf),
            *final(buf),
            *handle,
            *old(guard),
            *final(guard),
            match out {
                Some(v) => Some(v@),
                None => None,
            },
        ),
        traced_completion(
            *old(rec),
            *final(rec),
            handle.spec_kind(),
            old(buf).spec_size(),
            false,
        ),
{
    let out: Option<Vec<u8>> = match handle.kind {
        OpKind::TransferH2D => {
            let incoming = slice_to_vec(handle.staged.as_slice());
            buf.data = incoming;
            None
        },
        OpKind::TransferD2H => {
            let outgoing = slice_to_vec(buf.data.as_slice());
            Some(outgoing)
        },
        OpKind::KernelUse => {
            let transformed = bumped(&buf.data);
            buf.data = transformed;
            None
        },
    };
    buf.phase = PhaseTag::Ready;
    guard.resolved = true;
    let now = now_us(rec);
    let t_end_us = if now < handle.t_start_us {
        handle.t_start_us
    } else {
        now
    };
    if is_auto_trace_enabled(rec) {
        let ghost rec0 = *rec;
        let r = make_completion_record(
            handle.kind,
            buf.size_bytes,
            handle.t_start_us,
            t_end_us,
            false,
        );
        emit(rec, r);
        proof {
            assert(rec.spec_records().drop_last() =~= rec0.spec_records());
        }
    }
    out
}

/// Resolve an outstanding operation, blocking until the engine reports its
/// completion. On success the buffer is `Ready` again, the guard is spent,
/// the operation's effect (see [`resolve_ok`]) has been applied, a
/// device-to-host transfer hands the read bytes back, and one trace record
/// was emitted while auto-tracing is on. An already-resolved guard fails
/// with `DoubleCompletion`, a guard or buffer that does not belong to the
/// handle fails with `GuardMismatch`, and both rejections change nothing. A
/// device-side failure is surfaced as `BackendOperationFailed`: the guard
/// is spent and the buffer is `Ready` with untouched contents.
pub fn resolve_blocking(
    q: &mut DeviceQueue,
    buf: &mut Buffer,
    handle: &PendingHandle,
    guard: &mut CompletionGuard,
    rec: &mut Recorder,
) -> (r: Result<Option<Vec<u8>>, MemError>)
    requires
        old(buf).wf(),
    ensures
        final(buf).wf(),
        match r {
            Ok(out) => {
                &&& !old(guard).spec_resolved()
                &&& resolvable(*old(q), *old(buf), *handle, *old(guard))
                &&& old(q).spec_token_fault(handle.spec_token() as int) is None
                &&& resolve_ok(
                    *old(buf),
                    *final(buf),
                    *handle,
                    *old(guard),
                    *final(guard),
                    match out {
                        Some(v) => Some(v@),
                        None => None,
                    },
                )
                &&& queue_after_completion(*old(q), *final(q), handle.spec_token() as int)
                &&& traced_completion(
                    *old(rec),
                    *final(rec),
                    handle.spec_kind(),
                    old(buf).spec_size(),
                    false,
                )
            },
            Err(e) => {
                &&& (e is DoubleCompletion <==> old(guard).spec_resolved())
                &&& (e is GuardMismatch <==> !old(guard).spec_resolved() && !resolvable(
                    *old(q),
                    *old(buf),
                    *handle,
                    *old(guard),
                ))
                &&& ((e is DoubleCompletion || e is GuardMismatch) ==> *final(q) == *old(q)
                    && *final(buf) == *old(buf) && *final(guard) == *old(guard) && *final(rec)
                    == *old(rec))
                &&& (e matches MemError::BackendOperationFailed(code) ==> {
                    &&& !old(guard).spec_resolved()
                    &&& resolvable(*old(q), *old(buf), *handle, *old(guard))
                    &&& old(q).spec_token_fault(handle.spec_token() as int) == Some(code)
                    &&& backend_failure_state(*old(buf), *final(buf), *old(guard), *final(guard))
                    &&& queue_after_completion(*old(q), *final(q), handle.spec_token() as int)
                    &&& *final(rec) == *old(rec)
                })
                &&& (e is DoubleCompletion || e is GuardMismatch || e matches
                MemError::BackendOperationFailed(_))
            },
        },
{
    if guard.resolved {
        return Err(MemError::DoubleCompletion);
    }
    if guard.queue_label != handle.queue_label || buf.queue_label != handle.queue_label
        || guard.buffer_id != handle.buffer_id || guard.epoch != handle.epoch || buf.id
        != handle.buffer_id || buf.epoch != handle.epoch || buf.phase != PhaseTag::InFlight
        || q.queue_label != handle.queue_label || handle.token >= q.tokens.len() {
        return Err(MemError::GuardMismatch);
    }
    if matches!(handle.kind, OpKind::TransferH2D) && handle.staged.len() != buf.size_bytes {
        return Err(MemError::GuardMismatch);
    }
    let fault = q.wait_token(handle.token);
    match fault {
        Some(code) => {
            buf.phase = PhaseTag::Ready;
            guard.resolved = true;
            Err(MemError::BackendOperationFailed(code))
        },
        None => Ok(finish_success(buf, handle, guard, rec)),
    }
}

/// The outcome of a non-blocking resolve attempt.
#[derive(Debug, PartialEq, Eq)]
pub enum Resolution {
    /// The operation has not completed yet; the guard was not consumed and
    /// nothing about the buffer changed.
    NotYet,
    /// The operation completed; for a device-to-host transfer the read
    /// bytes are carried along.
    Done(Option<Vec<u8>>),
}

/// Resolve an outstanding operation without blocking: one poll of the
/// engine. While the operation is still pending the call returns
/// [`Resolution::NotYet`], consumes nothing and changes nothing but one
/// tick of the token's remaining latency. Once the engine reports
/// completion the call behaves exactly as [`resolve_blocking`]: same
/// effects, same trace record, same error taxonomy.
pub fn resolve_poll(
    q: &mut DeviceQueue,
    buf: &mut Buffer,
    handle: &PendingHandle,
    guard: &mut CompletionGuard,
    rec: &mut Recorder,
) -> (r: Result<Resolution, MemError>)
    requires
        old(buf).wf(),
    ensures
        final(buf).wf(),
        match r {
            Ok(res) => match res {
                Resolution::NotYet => {
                    &&& !old(guard).spec_resolved()
                    &&& resolvable(*old(q), *old(buf), *handle, *old(guard))
                    &&& old(q).spec_token_remaining(handle.spec_token() as int) > 0
                    &&& queue_after_tick(*old(q), *final(q), handle.spec_token() as int)
                    &&& *final(buf) == *old(buf)
                    &&& *final(guard) == *old(guard)
                    &&& *final(rec) == *old(rec)
                },
                Resolution::Done(out) => {
                    &&& !old(guard).spec_resolved()
                    &&& resolvable(*old(q), *old(buf), *handle, *old(guard))
                    &&& old(q).spec_token_remaining(handle.spec_token() as int) == 0
                    &&& old(q).spec_token_fault(handle.spec_token() as int) is None
                    &&& resolve_ok(
                        *old(buf),
                        *final(buf),
                        *handle,
                        *old(guard),
                        *final(guard),
                        match out {
                            Some(v) => Some(v@),
                            None => None,
                        },
                    )
                    &&& queue_after_completion(*old(q), *final(q), handle.spec_token() as int)
                    &&& traced_completion(
                        *old(rec),
                        *final(rec),
                        handle.spec_kind(),
                        old(buf).spec_size(),
                        false,
                    )
                },
            },
            Err(e) => {
                &&& (e is DoubleCompletion <==> old(guard).spec_resolved())
                &&& (e is GuardMismatch <==> !old(guard).spec_resolved() && !resolvable(
                    *old(q),
                    *old(buf),
                    *handle,
                    *old(guard),
                ))
                &&& ((e is DoubleCompletion || e is GuardMismatch) ==> *final(q) == *old(q)
                    && *final(buf) == *old(buf) && *final(guard) == *old(guard) && *final(rec)
                    == *old(rec))
                &&& (e matches MemError::BackendOperationFailed(code) ==> {
                    &&& !old(guard).spec_resolved()
                    &&& resolvable(*old(q), *old(buf), *handle, *old(guard))
                    &&& old(q).spec_token_remaining(handle.spec_token() as int) == 0
                    &&& old(q).spec_token_fault(handle.spec_token() as int) == Some(code)
                    &&& backend_failure_state(*old(buf), *final(buf), *old(guard), *final(guard))
                    &&& queue_after_completion(*old(q), *final(q), handle.spec_token() as int)
                    &&& *final(rec) == *old(rec)
                })
                &&& (e is DoubleCompletion || e is GuardMismatch || e matches
                MemError::BackendOperationFailed(_))
            },
        },
{
    if guard.resolved {
        return Err(MemError::DoubleCompletion);
    }
    if guard.queue_label != handle.queue_label || buf.queue_label != handle.queue_label
        || guard.buffer_id != handle.buffer_id || guard.epoch != handle.epoch || buf.id
        != handle.buffer_id || buf.epoch != handle.epoch || buf.phase != PhaseTag::InFlight
        || q.queue_label != handle.queue_label || handle.token >= q.tokens.len() {
        return Err(MemError::GuardMismatch);
    }
    if matches!(handle.kind, OpKind::TransferH2D) && handle.staged.len() != buf.size_bytes {
        return Err(MemError::GuardMismatch);
    }
    match q.poll_token(handle.token) {
        PollOutcome::Pending => Ok(Resolution::NotYet),
        PollOutcome::Done => Ok(Resolution::Done(finish_success(buf, handle, guard, rec))),
        PollOutcome::Failed(code) => {
            buf.phase = PhaseTag::Ready;
            guard.resolved = true;
            Err(MemError::BackendOperationFailed(code))
        },
    }
}

/// The queue's byte budget after giving `size` bytes back: the budget never
/// goes below zero, so a buffer that was not allocated from this queue
/// cannot underflow it.
pub open spec fn released_budget(q0: DeviceQueue, size: usize) -> usize {
    if size <= q0.spec_allocated() {
        (q0.spec_allocated() - size) as usize
    } else {
        0
    }
}

/// Forced wait on drop: consume an in-flight buffer together with its
/// pending handle, block until the engine reports the operation complete,
/// give the device allocation back to the queue's budget, and record a
/// `forced_wait_on_drop` event — unconditionally, even while auto-tracing
/// is off, so that a dropped handle is visible in testing as distinct from
/// an explicit resolve. The backend's fault code, if the operation failed,
/// is handed back as the only remaining channel, since no resolve is left
/// to report it.
pub fn abandon(
    q: &mut DeviceQueue,
    buf: Buffer,
    handle: PendingHandle,
    rec: &mut Recorder,
) -> (faulted: Option<u32>)
    requires
        buf.wf(),
        buf.spec_queue_label() == handle.spec_queue_label(),
        buf.spec_id() == handle.spec_buffer_id(),
        buf.spec_epoch() == handle.spec_epoch(),
        buf.spec_phase() is InFlight,
        old(q).spec_label() == handle.spec_queue_label(),
        (handle.spec_token() as int) < old(q).spec_token_count(),
    ensures
        old(q).wf() ==> final(q).wf(),
        faulted == old(q).spec_token_fault(handle.spec_token() as int),
        final(q).spec_allocated() == released_budget(*old(q), buf.spec_size()),
        tokens_unchanged_except(*old(q), *final(q), handle.spec_token() as int),
        final(q).spec_token_remaining(handle.spec_token() as int) == 0,
        final(q).spec_token_fault(handle.spec_token() as int) == old(q).spec_token_fault(
            handle.spec_token() as int,
        ),
        final(q).spec_armed_fault() == old(q).spec_armed_fault(),
        queue_config_unchanged(*old(q), *final(q)),
        traced_completion(*old(rec), *final(rec), handle.spec_kind(), buf.spec_size(), true),
{
    let fault = q.wait_token(handle.token);
    let ghost q_waited = *q;
    if buf.size_bytes <= q.allocated_bytes {
        q.allocated_bytes = q.allocated_bytes - buf.size_bytes;
    } else {
        q.allocated_bytes = 0;
    }
    proof {
        assert forall|i: int| 0 <= i < old(q).spec_token_count() && i != handle.spec_token() as int
            implies q.spec_token_remaining(i) == old(q).spec_token_remaining(i)
                && q.spec_token_fault(i) == old(q).spec_token_fault(i) by {
            assert(q_waited.spec_token_remaining(i) == old(q).spec_token_remaining(i));
            assert(q_waited.spec_token_fault(i) == old(q).spec_token_fault(i));
        }
    }
    let now = now_us(rec);
    let t_end_us = if now < handle.t_start_us {
        handle.t_start_us
    } else {
        now
    };
    let ghost rec0 = *rec;
    let r = make_completion_record(handle.kind, buf.size_bytes, handle.t_start_us, t_end_us, true);
    emit(rec, r);
    proof {
        assert(rec.spec_records().drop_last() =~= rec0.spec_records());
    }
    fault
}

/// Destroy a buffer that has no operation outstanding, giving its bytes
/// back to the queue's budget. An in-flight buffer must be resolved or go
/// through [`abandon`] instead: the forced wait needs the pending handle.
pub fn release(q: &mut DeviceQueue, buf: Buffer)
    requires
        !(buf.spec_phase() is InFlight),
    ensures
        old(q).wf() ==> final(q).wf(),
        final(q).spec_allocated() == released_budget(*old(q), buf.spec_size()),
        tokens_unchanged(*old(q), *final(q)),
        final(q).spec_armed_fault() == old(q).spec_armed_fault(),
        queue_config_unchanged(*old(q), *final(q)),
{
    if buf.size_bytes <= q.allocated_bytes {
        q.allocated_bytes = q.allocated_bytes - buf.size_bytes;
    } else {
        q.allocated_bytes = 0;
    }
}

} // verus!
