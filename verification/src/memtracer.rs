//! Transfer and abort tracing over an explicitly owned recorder.
//!
//! A [`Recorder`] owns the event log and the auto-trace flag that gate what
//! is recorded; callers construct one, hand it to the operations that emit
//! events, and read the log back out. Timestamps come from the wall clock
//! and are therefore never constrained by contracts; everything else about
//! an emitted record is.

pub mod report;

use vstd::prelude::*;

verus! {

/// Transfer direction of a traced event.
#[derive(Clone, Copy, Debug, PartialEq, Eq, Structural)]
pub enum Dir {
    /// Host to device.
    H2D,
    /// Device to host.
    D2H,
    /// Kernel execution (no direction of its own).
    Kernel,
}

/// Operation type (semantically clearer alias vocabulary for [`Dir`]).
#[derive(Clone, Copy, Debug, PartialEq, Eq, Structural)]
pub enum Operation {
    /// Host to device.
    H2D,
    /// Device to host.
    D2H,
    /// Kernel execution.
    Kernel,
}

/// Phase of a traced event.
#[derive(Clone, Copy, Debug, PartialEq, Eq, Structural)]
pub enum Phase {
    /// A data transfer.
    Transfer,
    /// A kernel execution.
    Kernel,
    /// A transaction abort.
    Abort,
}

impl Operation {
    /// Short label of the operation.
    pub fn as_str(self) -> (r: &'static str)
        ensures
            self is H2D ==> r@ == "H2D"@,
            self is D2H ==> r@ == "D2H"@,
            self is Kernel ==> r@ == "KRN"@,
    {
        match self {
            Operation::H2D => "H2D",
            Operation::D2H => "D2H",
            Operation::Kernel => "KRN",
        }
    }
}

impl Dir {
    /// Short label of the direction.
    pub fn as_str(self) -> (r: &'static str)
        ensures
            self is H2D ==> r@ == "H2D"@,
            self is D2H ==> r@ == "D2H"@,
            self is Kernel ==> r@ == "KRN"@,
    {
        match self {
            Dir::H2D => "H2D",
            Dir::D2H => "D2H",
            Dir::Kernel => "KRN",
        }
    }
}

impl Phase {
    /// Label of the phase.
    pub fn as_str(self) -> (r: &'static str)
        ensures
            self is Transfer ==> r@ == "Transfer"@,
            self is Kernel ==> r@ == "Kernel"@,
            self is Abort ==> r@ == "Abort"@,
    {
        match self {
            Phase::Transfer => "Transfer",
            Phase::Kernel => "Kernel",
            Phase::Abort => "Abort",
        }
    }
}

/// One traced event. Transfer and kernel events carry timestamps, a byte
/// count and a direction; abort events additionally carry the transaction
/// fields.
#[derive(Debug)]
pub struct Record {
    /// Start of the operation, microseconds.
    pub t_start_us: u64,
    /// End of the operation, microseconds.
    pub t_end_us: u64,
    /// Bytes moved, zero for aborts.
    pub bytes: usize,
    /// Direction of the traced operation.
    pub dir: Dir,
    /// Idle time attributed to the operation, microseconds.
    pub idle_us: u64,
    /// Abort token of the surrounding scope, if any.
    pub abort_token: Option<String>,
    /// Which phase the event belongs to.
    pub phase: Phase,
    /// Transaction identity, for abort events.
    pub tx_id: Option<u64>,
    /// Cause label, for abort events and forced waits.
    pub cause: Option<String>,
    /// Retry count, for abort events.
    pub retries: Option<u32>,
    /// Conflict set size, for abort events.
    pub conflict_sz: Option<usize>,
}

/// Relies on std::time::SystemTime::now and duration_since, for the current
/// wall-clock time in microseconds since the Unix epoch (zero if the clock
/// reads earlier than the epoch).
#[verifier::external_body]
fn clock_us() -> u64 {
    match std::time::SystemTime::now().duration_since(std::time::UNIX_EPOCH) {
        Ok(d) => d.as_micros() as u64,
        Err(_) => 0,
    }
}

/// The event log and its configuration, explicitly owned by the caller.
pub struct Recorder {
    records: Vec<Record>,
    auto_trace: bool,
    t0_us: u64,
}

impl Recorder {
    /// The events recorded so far, in emission order.
    pub closed spec fn spec_records(&self) -> Seq<Record> {
        self.records@
    }

    /// Whether events are currently being recorded.
    pub closed spec fn spec_auto_trace(&self) -> bool {
        self.auto_trace
    }

    /// The reference instant that [`now_us`] measures from.
    pub closed spec fn spec_t0(&self) -> u64 {
        self.t0_us
    }

    /// A fresh recorder: empty log, auto-tracing on, reference instant taken
    /// from the wall clock now.
    pub fn new() -> (rec: Recorder)
        ensures
            rec.spec_records() == Seq::<Record>::empty(),
            rec.spec_auto_trace(),
    {
        Recorder { records: Vec::new(), auto_trace: true, t0_us: clock_us() }
    }

    /// The events recorded so far, in emission order.
    pub fn records(&self) -> (r: &Vec<Record>)
        ensures
            r@ == self.spec_records(),
    {
        &self.records
    }
}

/// Append one event to the log unconditionally.
pub fn emit(rec: &mut Recorder, r: Record)
    ensures
        final(rec).spec_records() == old(rec).spec_records().push(r),
        final(rec).spec_auto_trace() == old(rec).spec_auto_trace(),
        final(rec).spec_t0() == old(rec).spec_t0(),
{
    rec.records.push(r);
}

/// Turn auto-tracing on.
pub fn enable_auto_trace(rec: &mut Recorder)
    ensures
        final(rec).spec_auto_trace(),
        final(rec).spec_records() == old(rec).spec_records(),
        final(rec).spec_t0() == old(rec).spec_t0(),
{
    rec.auto_trace = true;
}

/// Turn auto-tracing off.
pub fn disable_auto_trace(rec: &mut Recorder)
    ensures
        !final(rec).spec_auto_trace(),
        final(rec).spec_records() == old(rec).spec_records(),
        final(rec).spec_t0() == old(rec).spec_t0(),
{
    rec.auto_trace = false;
}

/// Whether auto-tracing is currently on.
pub fn is_auto_trace_enabled(rec: &Recorder) -> (b: bool)
    ensures
        b == rec.spec_auto_trace(),
{
    rec.auto_trace
}

/// Clear the event log; the auto-trace flag is untouched.
pub fn reset(rec: &mut Recorder)
    ensures
        final(rec).spec_records() == Seq::<Record>::empty(),
        final(rec).spec_auto_trace() == old(rec).spec_auto_trace(),
        final(rec).spec_t0() == old(rec).spec_t0(),
{
    rec.records.clear();
}

/// Microseconds elapsed on the wall clock since the recorder was created
/// (zero if the clock went backwards). The value depends on the clock, so
/// nothing is promised of it.
pub fn now_us(rec: &Recorder) -> u64 {
    let t = clock_us();
    if t >= rec.t0_us {
        t - rec.t0_us
    } else {
        0
    }
}

/// Scope marker that changes the auto-trace flag and remembers the previous
/// value, to be put back with [`TracingScope::restore`].
#[derive(Debug)]
pub struct TracingScope {
    prev: bool,
}

impl TracingScope {
    /// The flag value this scope will restore.
    pub closed spec fn spec_prev(&self) -> bool {
        self.prev
    }

    /// Set the auto-trace flag to `enable`, remembering the previous value.
    pub fn new(rec: &mut Recorder, enable: bool) -> (s: TracingScope)
        ensures
            s.spec_prev() == old(rec).spec_auto_trace(),
            final(rec).spec_auto_trace() == enable,
            final(rec).spec_records() == old(rec).spec_records(),
            final(rec).spec_t0() == old(rec).spec_t0(),
    {
        let prev = rec.auto_trace;
        rec.auto_trace = enable;
        TracingScope { prev }
    }

    /// A scope with tracing turned on.
    pub fn enabled(rec: &mut Recorder) -> (s: TracingScope)
        ensures
            s.spec_prev() == old(rec).spec_auto_trace(),
            final(rec).spec_auto_trace(),
            final(rec).spec_records() == old(rec).spec_records(),
            final(rec).spec_t0() == old(rec).spec_t0(),
    {
        Self::new(rec, true)
    }

    /// A scope with tracing turned off.
    pub fn disabled(rec: &mut Recorder) -> (s: TracingScope)
        ensures
            s.spec_prev() == old(rec).spec_auto_trace(),
            !final(rec).spec_auto_trace(),
            final(rec).spec_records() == old(rec).spec_records(),
            final(rec).spec_t0() == old(rec).spec_t0(),
    {
        Self::new(rec, false)
    }

    /// Put the remembered flag value back.
    pub fn restore(self, rec: &mut Recorder)
        ensures
            final(rec).spec_auto_trace() == self.spec_prev(),
            final(rec).spec_records() == old(rec).spec_records(),
            final(rec).spec_t0() == old(rec).spec_t0(),
    {
        rec.auto_trace = self.prev;
    }
}

/// What [`trace_abort`] records: an abort-phase event carrying the
/// transaction fields, with equal start and end timestamps.
pub open spec fn abort_record(
    r: Record,
    tx_id: u64,
    cause: Seq<char>,
    retries: u32,
    conflict_sz: u32,
    abort_token: Seq<char>,
) -> bool {
    &&& r.t_start_us == r.t_end_us
    &&& r.bytes == 0
    &&& r.dir is Kernel
    &&& r.idle_us == 0
    &&& r.abort_token matches Some(t) && t@ == abort_token
    &&& r.phase is Abort
    &&& r.tx_id == Some(tx_id)
    &&& r.cause matches Some(c) && c@ == cause
    &&& r.retries == Some(retries)
    &&& r.conflict_sz == Some(conflict_sz as usize)
}

/// Record one transaction abort. The event is appended even while
/// auto-tracing is off, as abort bookkeeping is explicit, not automatic.
pub fn trace_abort(
    rec: &mut Recorder,
    tx_id: u64,
    cause: &str,
    retries: u32,
    conflict_sz: u32,
    abort_token: &str,
)
    ensures
        final(rec).spec_records().len() == old(rec).spec_records().len() + 1,
        final(rec).spec_records().drop_last() == old(rec).spec_records(),
        abort_record(
            final(rec).spec_records().last(),
            tx_id,
            cause@,
            retries,
            conflict_sz,
            abort_token@,
        ),
        final(rec).spec_auto_trace() == old(rec).spec_auto_trace(),
        final(rec).spec_t0() == old(rec).spec_t0(),
{
    let t_us = clock_us();
    let r = Record {
        t_start_us: t_us,
        t_end_us: t_us,
        bytes: 0,
        dir: Dir::Kernel,
        idle_us: 0,
        abort_token: Some(abort_token.to_owned()),
        phase: Phase::Abort,
        tx_id: Some(tx_id),
        cause: Some(cause.to_owned()),
        retries: Some(retries),
        conflict_sz: Some(conflict_sz as usize),
    };
    emit(rec, r);
}

} // verus!
