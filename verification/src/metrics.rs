//! Per-call latency samples, allocation counters, and their summary
//! statistics, over an explicitly owned aggregator.
//!
//! [`record`] appends one `(name, microseconds)` sample; [`summary_stats`]
//! groups the samples by name and computes each group's count, mean and
//! 95th-percentile latency. The throughput figure is recomputed soundly
//! from total bytes and total elapsed time (see
//! [`throughput_bytes_per_sec`]); printing and formatting are left to
//! unverified callers.

use vstd::prelude::*;

verus! {

use vstd::multiset::Multiset;
use vstd::seq_lib::group_to_multiset_ensures;
use vstd::slice::slice_to_vec;

/// Latency samples and allocation counters, owned by the caller instead of
/// living in process-wide state.
pub struct Metrics {
    times: Vec<(String, u64)>,
    allocs: u64,
    alloc_bytes: u64,
}

impl Metrics {
    /// The recorded `(name, microseconds)` samples, in recording order.
    pub closed spec fn spec_times(&self) -> Seq<(String, u64)> {
        self.times@
    }

    /// Number of device allocations noted so far.
    pub closed spec fn spec_allocs(&self) -> u64 {
        self.allocs
    }

    /// Total bytes of device memory noted as allocated.
    pub closed spec fn spec_alloc_bytes(&self) -> u64 {
        self.alloc_bytes
    }

    /// A fresh aggregator with no samples and zeroed counters.
    pub fn new() -> (m: Metrics)
        ensures
            m.spec_times() == Seq::<(String, u64)>::empty(),
            m.spec_allocs() == 0,
            m.spec_alloc_bytes() == 0,
    {
        Metrics { times: Vec::new(), allocs: 0, alloc_bytes: 0 }
    }

    /// Number of device allocations noted so far.
    pub fn allocs(&self) -> (r: u64)
        ensures
            r == self.spec_allocs(),
    {
        self.allocs
    }

    /// Total bytes of device memory noted as allocated.
    pub fn alloc_bytes(&self) -> (r: u64)
        ensures
            r == self.spec_alloc_bytes(),
    {
        self.alloc_bytes
    }
}

/// Append one latency sample: `name` took `elapsed_us` microseconds.
pub fn record(m: &mut Metrics, name: &'static str, elapsed_us: u64)
    ensures
        final(m).spec_times().len() == old(m).spec_times().len() + 1,
        final(m).spec_times().drop_last() == old(m).spec_times(),
        final(m).spec_times().last().0@ == name@,
        final(m).spec_times().last().1 == elapsed_us,
        final(m).spec_allocs() == old(m).spec_allocs(),
        final(m).spec_alloc_bytes() == old(m).spec_alloc_bytes(),
{
    let ghost before = m.times@;
    m.times.push((name.to_owned(), elapsed_us));
    proof {
        assert(m.times@.drop_last() =~= before);
    }
}

/// Note one device allocation of `bytes` bytes; the counters saturate.
pub fn note_alloc(m: &mut Metrics, bytes: u64)
    ensures
        final(m).spec_allocs() == old(m).spec_allocs().saturating_add(1),
        final(m).spec_alloc_bytes() == old(m).spec_alloc_bytes().saturating_add(bytes),
        final(m).spec_times() == old(m).spec_times(),
{
    m.allocs = m.allocs.saturating_add(1);
    m.alloc_bytes = m.alloc_bytes.saturating_add(bytes);
}

/// Ghost model of one named sample group.
pub ghost struct GroupModel {
    /// The sample name the group is keyed by.
    pub name: Seq<char>,
    /// The group's samples, in recording order.
    pub samples: Seq<u64>,
}

/// All samples recorded under one name, in recording order.
#[derive(Debug)]
pub struct SampleGroup {
    /// The sample name the group is keyed by.
    pub name: String,
    /// The group's samples, in recording order.
    pub samples: Vec<u64>,
}

impl View for SampleGroup {
    type V = GroupModel;

    open spec fn view(&self) -> GroupModel {
        GroupModel { name: self.name@, samples: self.samples@ }
    }
}

/// The models of a vector of groups, in order.
pub open spec fn groups_view(s: Seq<SampleGroup>) -> Seq<GroupModel> {
    s.map_values(|g: SampleGroup| g@)
}

/// The index of the first group named `name`, or -1 if none.
pub open spec fn find_group(s: Seq<GroupModel>, name: Seq<char>) -> int
    decreases s.len(),
{
    if s.len() == 0 {
        -1
    } else if s[0].name == name {
        0
    } else {
        let r = find_group(s.drop_first(), name);
        if r == -1 {
            -1
        } else {
            r + 1
        }
    }
}

proof fn lemma_find_group_none(s: Seq<GroupModel>, name: Seq<char>)
    requires
        forall|k: int| 0 <= k < s.len() ==> (#[trigger] s[k]).name != name,
    ensures
        find_group(s, name) == -1,
    decreases s.len(),
{
    if s.len() > 0 {
        assert forall|k: int| 0 <= k < s.drop_first().len() implies (#[trigger] s.drop_first()[k]).name
            != name by {
            assert(s.drop_first()[k] == s[k + 1]);
        }
        lemma_find_group_none(s.drop_first(), name);
    }
}

proof fn lemma_find_group_at(s: Seq<GroupModel>, name: Seq<char>, i: int)
    requires
        0 <= i < s.len(),
        s[i].name == name,
        forall|k: int| 0 <= k < i ==> (#[trigger] s[k]).name != name,
    ensures
        find_group(s, name) == i,
    decreases i,
{
    if i > 0 {
        assert forall|k: int| 0 <= k < i - 1 implies (#[trigger] s.drop_first()[k]).name != name by {
            assert(s.drop_first()[k] == s[k + 1]);
        }
        assert(s.drop_first()[i - 1] == s[i]);
        lemma_find_group_at(s.drop_first(), name, i - 1);
    }
}

/// The grouping of a sample list: samples fall into groups keyed by their
/// name; groups appear in order of first occurrence and keep their samples
/// in recording order.
pub open spec fn spec_groups(times: Seq<(String, u64)>) -> Seq<GroupModel>
    decreases times.len(),
{
    if times.len() == 0 {
        Seq::<GroupModel>::empty()
    } else {
        let prev = spec_groups(times.drop_last());
        let name = times.last().0@;
        let v = times.last().1;
        let i = find_group(prev, name);
        if i == -1 {
            prev.push(GroupModel { name, samples: seq![v] })
        } else {
            prev.update(i, GroupModel { name: prev[i].name, samples: prev[i].samples.push(v) })
        }
    }
}

fn find_group_exec(out: &Vec<SampleGroup>, name: &String) -> (idx: Option<usize>)
    ensures
        match idx {
            Some(i) => i < out@.len() && find_group(groups_view(out@), name@) == i as int,
            None => find_group(groups_view(out@), name@) == -1,
        },
{
    let mut j: usize = 0;
    while j < out.len()
        invariant
            j <= out@.len(),
            forall|k: int| 0 <= k < j ==> (#[trigger] groups_view(out@)[k]).name != name@,
        decreases out@.len() - j,
    {
        if out[j].name == *name {
            proof {
                lemma_find_group_at(groups_view(out@), name@, j as int);
            }
            return Some(j);
        }
        proof {
            assert(groups_view(out@)[j as int].name != name@);
        }
        j = j + 1;
    }
    proof {
        lemma_find_group_none(groups_view(out@), name@);
    }
    None
}

/// The samples grouped by name, in order of first occurrence; every group
/// holds at least one sample.
pub fn group_samples(m: &Metrics) -> (out: Vec<SampleGroup>)
    ensures
        groups_view(out@) == spec_groups(m.spec_times()),
        forall|i: int| 0 <= i < out@.len() ==> (#[trigger] out@[i])@.samples.len() > 0,
{
    let mut out: Vec<SampleGroup> = Vec::new();
    let mut i: usize = 0;
    while i < m.times.len()
        invariant
            i <= m.times@.len(),
            groups_view(out@) == spec_groups(m.times@.take(i as int)),
            forall|t: int| 0 <= t < out@.len() ==> (#[trigger] out@[t])@.samples.len() > 0,
        decreases m.times@.len() - i,
    {
        proof {
            assert(m.times@.take(i + 1).drop_last() =~= m.times@.take(i as int));
            assert(m.times@.take(i + 1).last() == m.times@[i as int]);
        }
        let name: String = m.times[i].0.clone();
        let v: u64 = m.times[i].1;
        match find_group_exec(&out, &name) {
            Some(j) => {
                let ghost before = out@;
                let entry = &mut out[j];
                entry.samples.push(v);
                proof {
                    assert(out@[j as int]@.samples =~= before[j as int]@.samples.push(v));
                    assert(groups_view(out@) =~= groups_view(before).update(
                        j as int,
                        out@[j as int]@,
                    ));
                }
            },
            None => {
                let ghost before = out@;
                let mut samples: Vec<u64> = Vec::new();
                samples.push(v);
                out.push(SampleGroup { name, samples });
                proof {
                    assert(out@.last()@.samples =~= seq![v]);
                    assert(groups_view(out@) =~= groups_view(before).push(out@.last()@));
                }
            },
        }
        i = i + 1;
    }
    proof {
        assert(m.times@.take(m.times@.len() as int) =~= m.times@);
    }
    out
}

/// Ascending order.
pub open spec fn is_sorted(s: Seq<u64>) -> bool {
    forall|i: int, j: int| 0 <= i < j < s.len() ==> s[i] <= s[j]
}

/// A copy of the samples in ascending order: same multiset, sorted.
pub fn sorted_samples(src: &Vec<u64>) -> (out: Vec<u64>)
    ensures
        is_sorted(out@),
        out@.to_multiset() == src@.to_multiset(),
        out@.len() == src@.len(),
{
    broadcast use group_to_multiset_ensures;
    broadcast use vstd::multiset::group_multiset_axioms;

    let mut rest: Vec<u64> = slice_to_vec(src.as_slice());
    let mut out: Vec<u64> = Vec::new();
    while rest.len() > 0
        invariant
            out@.to_multiset().add(rest@.to_multiset()) =~= src@.to_multiset(),
            out@.len() + rest@.len() == src@.len(),
            is_sorted(out@),
            forall|a: int, b: int|
                #![trigger out@[a], rest@[b]]
                0 <= a < out@.len() && 0 <= b < rest@.len() ==> out@[a] <= rest@[b],
        decreases rest@.len(),
    {
        let mut m: usize = 0;
        let mut k: usize = 1;
        while k < rest.len()
            invariant
                m < k <= rest@.len(),
                rest@.len() > 0,
                forall|t: int| 0 <= t < k ==> rest@[m as int] <= #[trigger] rest@[t],
            decreases rest@.len() - k,
        {
            if rest[k] < rest[m] {
                m = k;
            }
            k = k + 1;
        }
        let x = rest[m];
        let ghost rest0 = rest@;
        let ghost out0 = out@;
        rest.remove(m);
        out.push(x);
        proof {
            broadcast use group_to_multiset_ensures;
            broadcast use vstd::multiset::group_multiset_axioms;

            assert(rest0.remove(m as int).to_multiset() =~= rest0.to_multiset().remove(x));
            assert(out0.push(x).to_multiset() =~= out0.to_multiset().insert(x));
            assert(rest0.to_multiset().count(x) > 0) by {
                assert(rest0.contains(x));
            }
            assert(out@.to_multiset().add(rest@.to_multiset()) =~= src@.to_multiset());
        }
    }
    proof {
        broadcast use group_to_multiset_ensures;
        broadcast use vstd::multiset::group_multiset_axioms;

        assert(rest@.to_multiset() =~= Multiset::<u64>::empty());
        assert(out@.to_multiset() =~= src@.to_multiset());
        assert(out@.to_multiset().len() == out@.len());
        assert(src@.to_multiset().len() == src@.len());
    }
    out
}

/// The exact integer sum of a sample list.
pub open spec fn spec_sum(s: Seq<u64>) -> int
    decreases s.len(),
{
    if s.len() == 0 {
        0
    } else {
        spec_sum(s.drop_last()) + s.last()
    }
}

proof fn lemma_sum_bound(s: Seq<u64>)
    ensures
        0 <= spec_sum(s) <= s.len() * (u64::MAX as int),
    decreases s.len(),
{
    if s.len() > 0 {
        lemma_sum_bound(s.drop_last());
        assert(s.len() * (u64::MAX as int) == (s.len() - 1) * (u64::MAX as int) + (
        u64::MAX as int)) by (nonlinear_arith);
    }
}

/// The mean of the samples, in microseconds, rounded down.
pub fn mean_us(samples: &Vec<u64>) -> (r: u64)
    requires
        samples@.len() > 0,
    ensures
        r as int == spec_sum(samples@) / (samples@.len() as int),
{
    let mut acc: u128 = 0;
    let mut i: usize = 0;
    while i < samples.len()
        invariant
            i <= samples@.len(),
            acc as int == spec_sum(samples@.take(i as int)),
        decreases samples@.len() - i,
    {
        proof {
            assert(samples@.take(i + 1).drop_last() =~= samples@.take(i as int));
            assert(samples@.take(i + 1).last() == samples@[i as int]);
            lemma_sum_bound(samples@.take(i as int));
            assert(samples@.take(i as int).len() * (u64::MAX as int) <= (u64::MAX as int) * (
            u64::MAX as int)) by (nonlinear_arith)
                requires
                    samples@.take(i as int).len() <= u64::MAX,
            ;
        }
        acc = acc + (samples[i] as u128);
        i = i + 1;
    }
    proof {
        assert(samples@.take(samples@.len() as int) =~= samples@);
        lemma_sum_bound(samples@);
    }
    let len128 = samples.len() as u128;
    let mean = acc / len128;
    proof {
        assert(acc as int / len128 as int <= u64::MAX) by (nonlinear_arith)
            requires
                len128 > 0,
                acc as int <= len128 as int * (u64::MAX as int),
        ;
    }
    mean as u64
}

/// The index the 95th-percentile sample is read from in a sorted list of
/// `len` samples.
pub open spec fn p95_index(len: nat) -> int {
    let k = (len * 95) / 100;
    if k == 0 {
        0
    } else {
        k - 1
    }
}

/// The 95th-percentile sample of an ascending list.
pub fn p95_us(sorted: &Vec<u64>) -> (r: u64)
    requires
        sorted@.len() > 0,
    ensures
        r == sorted@[p95_index(sorted@.len())],
{
    let len = sorted.len();
    let k128: u128 = (len as u128) * 95 / 100;
    proof {
        assert((len as int * 95) / 100 <= len as int) by (nonlinear_arith);
    }
    let k = k128 as usize;
    let idx: usize = if k == 0 {
        0
    } else {
        k - 1
    };
    sorted[idx]
}

/// Summary of one sample group: its name, how many samples it holds, their
/// mean and their 95th percentile, both in microseconds.
#[derive(Debug)]
pub struct NameStats {
    /// The sample name.
    pub name: String,
    /// How many samples were recorded under the name.
    pub count: usize,
    /// Mean latency, microseconds, rounded down.
    pub mean_us: u64,
    /// 95th-percentile latency, microseconds.
    pub p95_us: u64,
}

/// What one summary entry says of its group: same name, the group's sample
/// count, and mean and 95th percentile read off the ascending ordering of
/// the group's samples.
pub open spec fn stats_entry_ok(s: NameStats, g: GroupModel) -> bool {
    &&& s.name@ == g.name
    &&& s.count as nat == g.samples.len()
    &&& exists|sorted: Seq<u64>|
        #[trigger] is_sorted(sorted) && sorted.to_multiset() == g.samples.to_multiset()
            && sorted.len() == g.samples.len() && s.mean_us as int == spec_sum(sorted) / (
        sorted.len() as int) && s.p95_us == sorted[p95_index(sorted.len())]
}

/// The per-name latency summary: one entry per distinct sample name, in
/// order of first occurrence, each carrying the group's count, mean and
/// 95th percentile. The summary drains the samples — each sample is
/// reported by exactly one summary — and leaves the allocation counters in
/// place.
pub fn summary_stats(m: &mut Metrics) -> (out: Vec<NameStats>)
    ensures
        out@.len() == spec_groups(old(m).spec_times()).len(),
        forall|i: int|
            0 <= i < out@.len() ==> stats_entry_ok(
                #[trigger] out@[i],
                spec_groups(old(m).spec_times())[i],
            ),
        final(m).spec_times() == Seq::<(String, u64)>::empty(),
        final(m).spec_allocs() == old(m).spec_allocs(),
        final(m).spec_alloc_bytes() == old(m).spec_alloc_bytes(),
{
    let groups = group_samples(m);
    let mut out: Vec<NameStats> = Vec::new();
    let mut i: usize = 0;
    while i < groups.len()
        invariant
            i <= groups@.len(),
            out@.len() == i,
            groups_view(groups@) == spec_groups(m.spec_times()),
            forall|t: int| 0 <= t < groups@.len() ==> (#[trigger] groups@[t])@.samples.len() > 0,
            forall|t: int|
                0 <= t < i ==> stats_entry_ok(#[trigger] out@[t], spec_groups(m.spec_times())[t]),
        decreases groups@.len() - i,
    {
        let g = &groups[i];
        let sorted = sorted_samples(&g.samples);
        let mean_v = mean_us(&sorted);
        let p95_v = p95_us(&sorted);
        let entry = NameStats { name: g.name.clone(), count: g.samples.len(), mean_us: mean_v, p95_us: p95_v };
        out.push(entry);
        proof {
            assert(is_sorted(sorted@));
            assert(stats_entry_ok(out@.last(), spec_groups(m.spec_times())[i as int]));
        }
        i = i + 1;
    }
    m.times.clear();
    out
}

/// Throughput in bytes per second from a byte total and an elapsed time:
/// `total_bytes * 1000000 / total_us`, or nothing when no time elapsed.
/// Deriving the figure from the totals alone keeps it sound however the
/// individual samples were taken.
pub fn throughput_bytes_per_sec(total_bytes: u64, total_us: u64) -> (r: Option<u128>)
    ensures
        total_us == 0 ==> r is None,
        total_us > 0 ==> r == Some((total_bytes as int * 1000000 / total_us as int) as u128),
{
    if total_us == 0 {
        return None;
    }
    let scaled: u128 = (total_bytes as u128) * 1000000;
    Some(scaled / (total_us as u128))
}

} // verus!
