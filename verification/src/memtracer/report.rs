//! Report computations over a recorder's log: the transfer/kernel event
//! rows, the per-cause abort aggregation, and the overall totals. Rendering
//! (files, formatting) is left to unverified callers; everything computed
//! here is pinned down exactly.

use vstd::prelude::*;

verus! {

use crate::memtracer::{Dir, Phase, Record, Recorder};

/// One row of the transfer/kernel event report: the fields of a non-abort
/// record.
#[derive(Debug)]
pub struct EventRow {
    /// Start of the operation, microseconds.
    pub t_start_us: u64,
    /// End of the operation, microseconds.
    pub t_end_us: u64,
    /// Bytes moved.
    pub bytes: usize,
    /// Direction of the operation.
    pub dir: Dir,
    /// Idle time attributed to the operation, microseconds.
    pub idle_us: u64,
    /// Abort token of the surrounding scope, if any.
    pub abort_token: Option<String>,
    /// Which phase the event belongs to.
    pub phase: Phase,
}

/// The row a non-abort record is reported as.
pub open spec fn spec_row_of(r: Record) -> EventRow {
    EventRow {
        t_start_us: r.t_start_us,
        t_end_us: r.t_end_us,
        bytes: r.bytes,
        dir: r.dir,
        idle_us: r.idle_us,
        abort_token: r.abort_token,
        phase: r.phase,
    }
}

/// The event report of a log: one row per record, in log order, with the
/// abort records left out.
pub open spec fn spec_event_rows(s: Seq<Record>) -> Seq<EventRow>
    decreases s.len(),
{
    if s.len() == 0 {
        Seq::<EventRow>::empty()
    } else {
        let rest = spec_event_rows(s.drop_last());
        if s.last().phase is Abort {
            rest
        } else {
            rest.push(spec_row_of(s.last()))
        }
    }
}

/// The transfer/kernel event report of the recorder's log.
pub fn event_rows(rec: &Recorder) -> (rows: Vec<EventRow>)
    ensures
        rows@ == spec_event_rows(rec.spec_records()),
{
    let records = rec.records();
    let mut rows: Vec<EventRow> = Vec::new();
    let mut i: usize = 0;
    while i < records.len()
        invariant
            i <= records@.len(),
            records@ == rec.spec_records(),
            rows@ == spec_event_rows(records@.take(i as int)),
        decreases records@.len() - i,
    {
        proof {
            assert(records@.take(i + 1).drop_last() =~= records@.take(i as int));
            assert(records@.take(i + 1).last() == records@[i as int]);
        }
        let r = &records[i];
        if r.phase != Phase::Abort {
            let tok: Option<String> = match &r.abort_token {
                Some(t) => Some(t.clone()),
                None => None,
            };
            rows.push(
                EventRow {
                    t_start_us: r.t_start_us,
                    t_end_us: r.t_end_us,
                    bytes: r.bytes,
                    dir: r.dir,
                    idle_us: r.idle_us,
                    abort_token: tok,
                    phase: r.phase,
                },
            );
        }
        i = i + 1;
    }
    proof {
        assert(records@.take(records@.len() as int) =~= records@);
    }
    rows
}

/// Ghost model of one abort aggregation bucket.
pub ghost struct AggModel {
    /// The abort token the bucket is keyed by.
    pub token: Seq<char>,
    /// The cause label the bucket is keyed by.
    pub cause: Seq<char>,
    /// How many aborts fell into the bucket.
    pub count: u64,
    /// Sum of the retry counts (saturating).
    pub retries_sum: u64,
    /// Sum of the conflict set sizes (saturating).
    pub conflict_sum: u64,
    /// Smallest conflict set size seen.
    pub conflict_min: usize,
    /// Largest conflict set size seen.
    pub conflict_max: usize,
    /// Earliest non-zero start timestamp seen.
    pub first_us: u64,
    /// Latest end timestamp seen.
    pub last_us: u64,
}

/// One abort aggregation bucket: all abort records sharing one abort token
/// and one cause label.
#[derive(Debug)]
pub struct AbortAgg {
    /// The abort token the bucket is keyed by.
    pub abort_token: String,
    /// The cause label the bucket is keyed by.
    pub cause: String,
    /// How many aborts fell into the bucket.
    pub count: u64,
    /// Sum of the retry counts (saturating).
    pub retries_sum: u64,
    /// Sum of the conflict set sizes (saturating).
    pub conflict_sum: u64,
    /// Smallest conflict set size seen.
    pub conflict_min: usize,
    /// Largest conflict set size seen.
    pub conflict_max: usize,
    /// Earliest non-zero start timestamp seen.
    pub first_us: u64,
    /// Latest end timestamp seen.
    pub last_us: u64,
}

impl View for AbortAgg {
    type V = AggModel;

    open spec fn view(&self) -> AggModel {
        AggModel {
            token: self.abort_token@,
            cause: self.cause@,
            count: self.count,
            retries_sum: self.retries_sum,
            conflict_sum: self.conflict_sum,
            conflict_min: self.conflict_min,
            conflict_max: self.conflict_max,
            first_us: self.first_us,
            last_us: self.last_us,
        }
    }
}

/// The models of a vector of buckets, in order.
pub open spec fn aggs_view(s: Seq<AbortAgg>) -> Seq<AggModel> {
    s.map_values(|a: AbortAgg| a@)
}

/// The abort token a record is keyed by: absent means empty.
pub open spec fn spec_token_of(r: Record) -> Seq<char> {
    match r.abort_token {
        Some(t) => t@,
        None => Seq::<char>::empty(),
    }
}

/// The cause label a record is keyed by: absent means empty.
pub open spec fn spec_cause_of(r: Record) -> Seq<char> {
    match r.cause {
        Some(c) => c@,
        None => Seq::<char>::empty(),
    }
}

/// The retry count of a record: absent means zero.
pub open spec fn spec_retries_of(r: Record) -> u32 {
    match r.retries {
        Some(n) => n,
        None => 0u32,
    }
}

/// The conflict set size of a record: absent means zero.
pub open spec fn spec_conflict_of(r: Record) -> usize {
    match r.conflict_sz {
        Some(n) => n,
        None => 0usize,
    }
}

/// Whether bucket `a` is the bucket for the key `(token, cause)`.
pub open spec fn agg_matches(a: AggModel, token: Seq<char>, cause: Seq<char>) -> bool {
    a.token == token && a.cause == cause
}

/// The index of the first bucket keyed by `(token, cause)`, or -1 if none.
pub open spec fn find_key(s: Seq<AggModel>, token: Seq<char>, cause: Seq<char>) -> int
    decreases s.len(),
{
    if s.len() == 0 {
        -1
    } else if agg_matches(s[0], token, cause) {
        0
    } else {
        let r = find_key(s.drop_first(), token, cause);
        if r == -1 {
            -1
        } else {
            r + 1
        }
    }
}

proof fn lemma_find_key_none(s: Seq<AggModel>, token: Seq<char>, cause: Seq<char>)
    requires
        forall|k: int| 0 <= k < s.len() ==> !agg_matches(#[trigger] s[k], token, cause),
    ensures
        find_key(s, token, cause) == -1,
    decreases s.len(),
{
    if s.len() > 0 {
        assert forall|k: int| 0 <= k < s.drop_first().len() implies !agg_matches(
            #[trigger] s.drop_first()[k],
            token,
            cause,
        ) by {
            assert(s.drop_first()[k] == s[k + 1]);
        }
        lemma_find_key_none(s.drop_first(), token, cause);
    }
}

proof fn lemma_find_key_at(s: Seq<AggModel>, token: Seq<char>, cause: Seq<char>, i: int)
    requires
        0 <= i < s.len(),
        agg_matches(s[i], token, cause),
        forall|k: int| 0 <= k < i ==> !agg_matches(#[trigger] s[k], token, cause),
    ensures
        find_key(s, token, cause) == i,
    decreases i,
{
    if i > 0 {
        assert(!agg_matches(s[0], token, cause));
        assert forall|k: int| 0 <= k < i - 1 implies !agg_matches(
            #[trigger] s.drop_first()[k],
            token,
            cause,
        ) by {
            assert(s.drop_first()[k] == s[k + 1]);
        }
        assert(s.drop_first()[i - 1] == s[i]);
        lemma_find_key_at(s.drop_first(), token, cause, i - 1);
    }
}

/// A fresh, empty bucket for the key `(token, cause)`: the minimum starts
/// at the largest possible size, every other statistic at zero.
pub open spec fn agg_fresh(token: Seq<char>, cause: Seq<char>) -> AggModel {
    AggModel {
        token,
        cause,
        count: 0u64,
        retries_sum: 0u64,
        conflict_sum: 0u64,
        conflict_min: usize::MAX,
        conflict_max: 0usize,
        first_us: 0u64,
        last_us: 0u64,
    }
}

/// Bucket `a` after absorbing abort record `r`: the count and the
/// (saturating) sums grow, the extrema widen, and the time span stretches —
/// a start timestamp counts as earliest only once it is non-zero.
pub open spec fn agg_apply(a: AggModel, r: Record) -> AggModel {
    AggModel {
        token: a.token,
        cause: a.cause,
        count: a.count.saturating_add(1),
        retries_sum: a.retries_sum.saturating_add(spec_retries_of(r) as u64),
        conflict_sum: a.conflict_sum.saturating_add(spec_conflict_of(r) as u64),
        conflict_min: if spec_conflict_of(r) < a.conflict_min {
            spec_conflict_of(r)
        } else {
            a.conflict_min
        },
        conflict_max: if spec_conflict_of(r) > a.conflict_max {
            spec_conflict_of(r)
        } else {
            a.conflict_max
        },
        first_us: if a.first_us == 0 || r.t_start_us < a.first_us {
            r.t_start_us
        } else {
            a.first_us
        },
        last_us: if r.t_end_us > a.last_us {
            r.t_end_us
        } else {
            a.last_us
        },
    }
}

/// The abort aggregation of a log: abort records fall into buckets keyed by
/// `(abort token, cause)`; buckets appear in order of first occurrence.
pub open spec fn spec_abort_aggregate(s: Seq<Record>) -> Seq<AggModel>
    decreases s.len(),
{
    if s.len() == 0 {
        Seq::<AggModel>::empty()
    } else {
        let prev = spec_abort_aggregate(s.drop_last());
        let r = s.last();
        if !(r.phase is Abort) {
            prev
        } else {
            let token = spec_token_of(r);
            let cause = spec_cause_of(r);
            let i = find_key(prev, token, cause);
            if i == -1 {
                prev.push(agg_apply(agg_fresh(token, cause), r))
            } else {
                prev.update(i, agg_apply(prev[i], r))
            }
        }
    }
}

fn find_agg(out: &Vec<AbortAgg>, token: &String, cause: &String) -> (idx: Option<usize>)
    ensures
        match idx {
            Some(i) => {
                &&& i < out@.len()
                &&& find_key(aggs_view(out@), token@, cause@) == i as int
            },
            None => find_key(aggs_view(out@), token@, cause@) == -1,
        },
{
    let mut j: usize = 0;
    while j < out.len()
        invariant
            j <= out@.len(),
            forall|k: int| 0 <= k < j ==> !agg_matches(#[trigger] aggs_view(out@)[k], token@, cause@),
        decreases out@.len() - j,
    {
        if out[j].abort_token == *token && out[j].cause == *cause {
            proof {
                assert(agg_matches(aggs_view(out@)[j as int], token@, cause@));
                lemma_find_key_at(aggs_view(out@), token@, cause@, j as int);
            }
            return Some(j);
        }
        proof {
            assert(!agg_matches(aggs_view(out@)[j as int], token@, cause@));
        }
        j = j + 1;
    }
    proof {
        lemma_find_key_none(aggs_view(out@), token@, cause@);
    }
    None
}

/// The abort aggregation of the recorder's log: one bucket per `(abort
/// token, cause)` pair, in order of first occurrence, carrying the count,
/// the (saturating) retry and conflict sums, the conflict extrema, and the
/// time span of the bucket's aborts.
pub fn aggregate_aborts(rec: &Recorder) -> (out: Vec<AbortAgg>)
    ensures
        aggs_view(out@) == spec_abort_aggregate(rec.spec_records()),
{
    let records = rec.records();
    let mut out: Vec<AbortAgg> = Vec::new();
    let mut i: usize = 0;
    while i < records.len()
        invariant
            i <= records@.len(),
            records@ == rec.spec_records(),
            aggs_view(out@) == spec_abort_aggregate(records@.take(i as int)),
        decreases records@.len() - i,
    {
        proof {
            assert(records@.take(i + 1).drop_last() =~= records@.take(i as int));
            assert(records@.take(i + 1).last() == records@[i as int]);
        }
        let r = &records[i];
        if r.phase == Phase::Abort {
            let token: String = match &r.abort_token {
                Some(t) => t.clone(),
                None => String::new(),
            };
            let cause: String = match &r.cause {
                Some(c) => c.clone(),
                None => String::new(),
            };
            let retries: u32 = match r.retries {
                Some(n) => n,
                None => 0,
            };
            let conflict: usize = match r.conflict_sz {
                Some(n) => n,
                None => 0,
            };
            match find_agg(&out, &token, &cause) {
                Some(j) => {
                    let ghost before = out@;
                    let entry = &mut out[j];
                    entry.count = entry.count.saturating_add(1);
                    entry.retries_sum = entry.retries_sum.saturating_add(retries as u64);
                    entry.conflict_sum = entry.conflict_sum.saturating_add(conflict as u64);
                    if conflict < entry.conflict_min {
                        entry.conflict_min = conflict;
                    }
                    if conflict > entry.conflict_max {
                        entry.conflict_max = conflict;
                    }
                    if entry.first_us == 0 || r.t_start_us < entry.first_us {
                        entry.first_us = r.t_start_us;
                    }
                    if r.t_end_us > entry.last_us {
                        entry.last_us = r.t_end_us;
                    }
                    proof {
                        assert(out@[j as int]@ == agg_apply(
                            aggs_view(before)[j as int],
                            records@[i as int],
                        ));
                        assert(aggs_view(out@) =~= aggs_view(before).update(
                            j as int,
                            out@[j as int]@,
                        ));
                    }
                },
                None => {
                    let ghost before = out@;
                    let fresh = AbortAgg {
                        abort_token: token,
                        cause,
                        count: 1,
                        retries_sum: retries as u64,
                        conflict_sum: conflict as u64,
                        conflict_min: conflict,
                        conflict_max: conflict,
                        first_us: r.t_start_us,
                        last_us: r.t_end_us,
                    };
                    out.push(fresh);
                    proof {
                        assert(out@.last()@ == agg_apply(
                            agg_fresh(spec_token_of(records@[i as int]), spec_cause_of(records@[i as int])),
                            records@[i as int],
                        ));
                        assert(aggs_view(out@) =~= aggs_view(before).push(out@.last()@));
                    }
                },
            }
        }
        i = i + 1;
    }
    proof {
        assert(records@.take(records@.len() as int) =~= records@);
    }
    out
}

/// The totals of a log: event count, summed idle time, bytes moved in each
/// direction, and the abort count; the sums saturate.
#[derive(Debug, PartialEq, Eq, Structural)]
pub struct TraceTotals {
    /// Number of records in the log.
    pub events_total: u64,
    /// Sum of the idle times, microseconds.
    pub idle_total_us: u64,
    /// Bytes moved host-to-device.
    pub bytes_h2d: u64,
    /// Bytes moved device-to-host.
    pub bytes_d2h: u64,
    /// Number of abort records.
    pub aborts: u64,
}

/// The totals of a log, record by record.
pub open spec fn spec_trace_totals(s: Seq<Record>) -> TraceTotals
    decreases s.len(),
{
    if s.len() == 0 {
        TraceTotals {
            events_total: 0u64,
            idle_total_us: 0u64,
            bytes_h2d: 0u64,
            bytes_d2h: 0u64,
            aborts: 0u64,
        }
    } else {
        let t = spec_trace_totals(s.drop_last());
        let r = s.last();
        TraceTotals {
            events_total: t.events_total.saturating_add(1),
            idle_total_us: t.idle_total_us.saturating_add(r.idle_us),
            bytes_h2d: if r.dir is H2D {
                t.bytes_h2d.saturating_add(r.bytes as u64)
            } else {
                t.bytes_h2d
            },
            bytes_d2h: if r.dir is D2H {
                t.bytes_d2h.saturating_add(r.bytes as u64)
            } else {
                t.bytes_d2h
            },
            aborts: if r.phase is Abort {
                t.aborts.saturating_add(1)
            } else {
                t.aborts
            },
        }
    }
}

/// The totals of the recorder's log.
pub fn trace_totals(rec: &Recorder) -> (t: TraceTotals)
    ensures
        t == spec_trace_totals(rec.spec_records()),
{
    let records = rec.records();
    let mut t = TraceTotals {
        events_total: 0,
        idle_total_us: 0,
        bytes_h2d: 0,
        bytes_d2h: 0,
        aborts: 0,
    };
    let mut i: usize = 0;
    while i < records.len()
        invariant
            i <= records@.len(),
            records@ == rec.spec_records(),
            t == spec_trace_totals(records@.take(i as int)),
        decreases records@.len() - i,
    {
        proof {
            assert(records@.take(i + 1).drop_last() =~= records@.take(i as int));
            assert(records@.take(i + 1).last() == records@[i as int]);
        }
        let r = &records[i];
        t.events_total = t.events_total.saturating_add(1);
        t.idle_total_us = t.idle_total_us.saturating_add(r.idle_us);
        if r.dir == Dir::H2D {
            t.bytes_h2d = t.bytes_h2d.saturating_add(r.bytes as u64);
        }
        if r.dir == Dir::D2H {
            t.bytes_d2h = t.bytes_d2h.saturating_add(r.bytes as u64);
        }
        if r.phase == Phase::Abort {
            t.aborts = t.aborts.saturating_add(1);
        }
        i = i + 1;
    }
    proof {
        assert(records@.take(records@.len() as int) =~= records@);
    }
    t
}

} // verus!
