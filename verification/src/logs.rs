//! The unified log of an instance: emulator output and bridge reports
//! merged into one timeline, ordered by timestamp (a stable order: entries
//! with equal timestamps keep the order in which they were gathered), and
//! cut to the requested tail.

use vstd::prelude::*;
use crate::protocol::{LogEntry, LogEntryView, LogSource};

verus! {

/// One recorded bridge report, with its timestamp already in milliseconds
/// since the instance started.
#[derive(Debug)]
pub struct BridgeLog {
    pub ts_ms: u64,
    pub direction: String,
    pub raw_hex: String,
}

/// The entry for one line of emulator output, stamped `ts_ms`.
pub open spec fn emulator_entry(ts_ms: u64, line: Seq<char>) -> LogEntryView {
    LogEntryView {
        ts_ms,
        source: LogSource::Emulator,
        message: line,
        direction: Seq::empty(),
        raw_hex: Seq::empty(),
    }
}

/// The stamp of emulator line `i` of `k`. The emulator does not stamp its
/// lines, so they are spread evenly over the time since the instance
/// started: the first at 0, the last at the query time `now_ms`. A single
/// line carries the query time.
pub open spec fn spread_stamp(now_ms: u64, i: int, k: int) -> u64 {
    if k <= 1 {
        now_ms
    } else {
        ((now_ms as int * i) / (k - 1)) as u64
    }
}

/// The entries for the emulator's lines, in buffer order.
pub open spec fn emulator_entries(emu_output: Seq<String>, now_ms: u64) -> Seq<LogEntryView> {
    Seq::new(
        emu_output.len(),
        |i: int| emulator_entry(spread_stamp(now_ms, i, emu_output.len() as int), emu_output[i]@),
    )
}

/// Spread stamps lie in `[0, now_ms]`, never decrease along the buffer,
/// and (with two lines or more) run from 0 to `now_ms`.
pub proof fn lemma_spread_stamps(now_ms: u64, k: int)
    ensures
        forall|i: int, j: int|
            0 <= i <= j < k ==> #[trigger] spread_stamp(now_ms, i, k) <= #[trigger] spread_stamp(
                now_ms,
                j,
                k,
            ) <= now_ms,
        k >= 2 ==> spread_stamp(now_ms, 0, k) == 0 && spread_stamp(now_ms, k - 1, k) == now_ms,
{
    assert forall|i: int, j: int|
        0 <= i <= j < k implies #[trigger] spread_stamp(now_ms, i, k) <= #[trigger] spread_stamp(
            now_ms,
            j,
            k,
        ) <= now_ms by {
        if k > 1 {
            lemma_spread_bounds(now_ms as int, i, j, k - 1);
        }
    }
    if k >= 2 {
        assert((now_ms as int * (k - 1)) / (k - 1) == now_ms as int) by (nonlinear_arith)
            requires
                k >= 2,
        ;
    }
}

proof fn lemma_spread_bounds(t: int, i: int, j: int, d: int)
    requires
        0 <= i <= j <= d,
        d > 0,
        t >= 0,
    ensures
        0 <= (t * i) / d <= (t * j) / d <= t,
{
    assert(0 <= t * i <= t * j <= t * d) by (nonlinear_arith)
        requires
            0 <= i <= j <= d,
            t >= 0,
    ;
    vstd::arithmetic::div_mod::lemma_div_is_ordered(t * i, t * j, d);
    vstd::arithmetic::div_mod::lemma_div_is_ordered(t * j, t * d, d);
    vstd::arithmetic::div_mod::lemma_div_pos_is_pos(t * i, d);
    assert((t * d) / d == t) by (nonlinear_arith)
        requires
            d > 0,
    ;
}

/// The entry for one bridge report.
pub open spec fn bridge_entry(b: BridgeLog) -> LogEntryView {
    LogEntryView {
        ts_ms: b.ts_ms,
        source: LogSource::Bridge,
        message: Seq::empty(),
        direction: b.direction@,
        raw_hex: b.raw_hex@,
    }
}

/// The entries gathered before ordering: emulator lines first (if the
/// source asks for them), then bridge reports (if it asks for those).
pub open spec fn gathered(
    emu_output: Seq<String>,
    now_ms: u64,
    bridge_log: Seq<BridgeLog>,
    source: LogSource,
) -> Seq<LogEntryView> {
    let emu = if source == LogSource::Emulator || source == LogSource::All {
        emulator_entries(emu_output, now_ms)
    } else {
        Seq::empty()
    };
    let br = if source == LogSource::Bridge || source == LogSource::All {
        bridge_log.map_values(|b: BridgeLog| bridge_entry(b))
    } else {
        Seq::empty()
    };
    emu + br
}

/// `e` placed into `sorted` after every entry whose timestamp is not later
/// than its own.
pub open spec fn insert_by_ts(sorted: Seq<LogEntryView>, e: LogEntryView) -> Seq<LogEntryView>
    decreases sorted.len(),
{
    if sorted.len() == 0 || sorted.last().ts_ms <= e.ts_ms {
        sorted.push(e)
    } else {
        insert_by_ts(sorted.drop_last(), e).push(sorted.last())
    }
}

/// `s` in stable timestamp order.
pub open spec fn sort_by_ts(s: Seq<LogEntryView>) -> Seq<LogEntryView>
    decreases s.len(),
{
    if s.len() == 0 {
        s
    } else {
        insert_by_ts(sort_by_ts(s.drop_last()), s.last())
    }
}

/// The last `n` entries, or all of them when there are no more than `n`
/// or no tail was asked for.
pub open spec fn apply_tail(s: Seq<LogEntryView>, tail: Option<usize>) -> Seq<LogEntryView> {
    match tail {
        Some(n) => if s.len() > n {
            s.subrange(s.len() - n, s.len() as int)
        } else {
            s
        },
        None => s,
    }
}

/// The views of a sequence of entries.
pub open spec fn entry_views(s: Seq<LogEntry>) -> Seq<LogEntryView> {
    s.map_values(|e: LogEntry| e@)
}

/// Timestamps never decrease along `s`.
pub open spec fn sorted_by_ts(s: Seq<LogEntryView>) -> bool {
    forall|i: int, j: int| 0 <= i <= j < s.len() ==> s[i].ts_ms <= s[j].ts_ms
}

/// The entries of `s` that carry timestamp `k`, in order.
pub open spec fn with_ts(s: Seq<LogEntryView>, k: u64) -> Seq<LogEntryView> {
    s.filter(|e: LogEntryView| e.ts_ms == k)
}

proof fn lemma_insert_at(sorted: Seq<LogEntryView>, e: LogEntryView, p: int)
    requires
        0 <= p <= sorted.len(),
        p == 0 || sorted[p - 1].ts_ms <= e.ts_ms,
        forall|k: int| p <= k < sorted.len() ==> sorted[k].ts_ms > e.ts_ms,
    ensures
        insert_by_ts(sorted, e) == sorted.insert(p, e),
    decreases sorted.len(),
{
    if sorted.len() == p {
        assert(sorted.push(e) =~= sorted.insert(p, e));
    } else {
        let d = sorted.drop_last();
        lemma_insert_at(d, e, p);
        assert(d.insert(p, e).push(sorted.last()) =~= sorted.insert(p, e));
    }
}

proof fn lemma_insert_bounded(s: Seq<LogEntryView>, e: LogEntryView, m: u64)
    requires
        forall|i: int| 0 <= i < s.len() ==> s[i].ts_ms <= m,
        e.ts_ms <= m,
    ensures
        forall|i: int|
            0 <= i < insert_by_ts(s, e).len() ==> #[trigger] insert_by_ts(s, e)[i].ts_ms <= m,
        insert_by_ts(s, e).len() == s.len() + 1,
    decreases s.len(),
{
    if s.len() == 0 || s.last().ts_ms <= e.ts_ms {
    } else {
        lemma_insert_bounded(s.drop_last(), e, m);
    }
}

proof fn lemma_insert_sorted(s: Seq<LogEntryView>, e: LogEntryView)
    requires
        sorted_by_ts(s),
    ensures
        sorted_by_ts(insert_by_ts(s, e)),
    decreases s.len(),
{
    if s.len() == 0 || s.last().ts_ms <= e.ts_ms {
    } else {
        let d = s.drop_last();
        lemma_insert_sorted(d, e);
        lemma_insert_bounded(d, e, s.last().ts_ms);
    }
}

proof fn lemma_insert_multiset(s: Seq<LogEntryView>, e: LogEntryView)
    ensures
        insert_by_ts(s, e).to_multiset() == s.to_multiset().insert(e),
    decreases s.len(),
{
    broadcast use vstd::seq_lib::group_to_multiset_ensures;

    if s.len() == 0 || s.last().ts_ms <= e.ts_ms {
    } else {
        let d = s.drop_last();
        lemma_insert_multiset(d, e);
        assert(s =~= d.push(s.last()));
        assert(insert_by_ts(s, e).to_multiset() =~= s.to_multiset().insert(e));
    }
}

proof fn lemma_insert_with_ts(s: Seq<LogEntryView>, e: LogEntryView, k: u64)
    ensures
        with_ts(insert_by_ts(s, e), k) == if e.ts_ms == k {
            with_ts(s, k).push(e)
        } else {
            with_ts(s, k)
        },
    decreases s.len(),
{
    let p = |x: LogEntryView| x.ts_ms == k;
    if s.len() == 0 || s.last().ts_ms <= e.ts_ms {
        s.lemma_filter_push(e, p);
    } else {
        let d = s.drop_last();
        lemma_insert_with_ts(d, e, k);
        insert_by_ts(d, e).lemma_filter_push(s.last(), p);
        d.lemma_filter_push(s.last(), p);
        assert(s =~= d.push(s.last()));
        if e.ts_ms == k {
            d.filter(p).lemma_filter_push(e, p);
        }
    }
}

/// Ordering by timestamp yields timestamps that never decrease.
pub proof fn lemma_sort_by_ts_sorted(s: Seq<LogEntryView>)
    ensures
        sorted_by_ts(sort_by_ts(s)),
    decreases s.len(),
{
    if s.len() > 0 {
        lemma_sort_by_ts_sorted(s.drop_last());
        lemma_insert_sorted(sort_by_ts(s.drop_last()), s.last());
    }
}

/// Ordering by timestamp neither drops nor adds entries.
pub proof fn lemma_sort_by_ts_permutes(s: Seq<LogEntryView>)
    ensures
        sort_by_ts(s).to_multiset() == s.to_multiset(),
    decreases s.len(),
{
    broadcast use vstd::seq_lib::group_to_multiset_ensures;

    if s.len() > 0 {
        let d = s.drop_last();
        lemma_sort_by_ts_permutes(d);
        lemma_insert_multiset(sort_by_ts(d), s.last());
        assert(s =~= d.push(s.last()));
    }
}

/// Ordering by timestamp is stable: the entries of any one timestamp keep
/// the order in which they were gathered.
pub proof fn lemma_sort_by_ts_stable(s: Seq<LogEntryView>, k: u64)
    ensures
        with_ts(sort_by_ts(s), k) == with_ts(s, k),
    decreases s.len(),
{
    if s.len() > 0 {
        let d = s.drop_last();
        lemma_sort_by_ts_stable(d, k);
        lemma_insert_with_ts(sort_by_ts(d), s.last(), k);
        d.lemma_filter_push(s.last(), |x: LogEntryView| x.ts_ms == k);
        assert(s =~= d.push(s.last()));
    }
}

/// The log answer is in timestamp order, holds at most `tail` entries,
/// and holds every gathered entry when no tail was asked for.
pub proof fn lemma_log_answer_shape(s: Seq<LogEntryView>, tail: Option<usize>)
    ensures
        sorted_by_ts(apply_tail(sort_by_ts(s), tail)),
        tail matches Some(n) ==> apply_tail(sort_by_ts(s), tail).len() == if s.len() > n {
            n as nat
        } else {
            s.len()
        },
        tail is None ==> apply_tail(sort_by_ts(s), tail).to_multiset() == s.to_multiset(),
{
    broadcast use vstd::seq_lib::group_to_multiset_ensures;

    lemma_sort_by_ts_sorted(s);
    lemma_sort_by_ts_permutes(s);
    let t = sort_by_ts(s);
    assert(t.len() == s.len()) by {
        assert(t.to_multiset().len() == s.to_multiset().len());
    }
    match tail {
        Some(n) => {
            if t.len() > n {
                let u = t.subrange(t.len() - n, t.len() as int);
                assert forall|i: int, j: int| 0 <= i <= j < u.len() implies u[i].ts_ms
                    <= u[j].ts_ms by {
                    assert(u[i] == t[t.len() - n + i]);
                    assert(u[j] == t[t.len() - n + j]);
                }
            }
        },
        None => {},
    }
}

fn entry_of_line(ts_ms: u64, line: &String) -> (e: LogEntry)
    ensures
        e@ == emulator_entry(ts_ms, line@),
{
    let e = LogEntry {
        ts_ms,
        source: LogSource::Emulator,
        message: line.clone(),
        direction: String::new(),
        raw_hex: String::new(),
    };
    assert(e@ =~= emulator_entry(ts_ms, line@));
    e
}

fn entry_of_report(b: &BridgeLog) -> (e: LogEntry)
    ensures
        e@ == bridge_entry(*b),
{
    let e = LogEntry {
        ts_ms: b.ts_ms,
        source: LogSource::Bridge,
        message: String::new(),
        direction: b.direction.clone(),
        raw_hex: b.raw_hex.clone(),
    };
    assert(e@ =~= bridge_entry(*b));
    e
}

fn stamp_of_line(now_ms: u64, i: usize, k: usize) -> (ts: u64)
    requires
        i < k,
    ensures
        ts == spread_stamp(now_ms, i as int, k as int),
{
    if k <= 1 {
        now_ms
    } else {
        proof {
            lemma_spread_bounds(now_ms as int, i as int, i as int, k - 1);
            assert(now_ms as int * i as int <= u64::MAX as int * u64::MAX as int) by (nonlinear_arith)
                requires
                    now_ms <= u64::MAX,
                    i <= u64::MAX,
            ;
        }
        let p: u128 = (now_ms as u128) * (i as u128);
        let q: u128 = p / ((k - 1) as u128);
        q as u64
    }
}

/// Builds the log answer for an instance from its captured emulator
/// lines (spread evenly over `[0, now_ms]`, `now_ms` being the time since
/// the instance started) and bridge reports: the entries of the requested
/// source, in stable timestamp order, cut to the last `tail`.
pub fn collect_logs(
    emu_output: &Vec<String>,
    now_ms: u64,
    bridge_log: &Vec<BridgeLog>,
    source: LogSource,
    tail: Option<usize>,
) -> (r: Vec<LogEntry>)
    ensures
        entry_views(r@) == apply_tail(
            sort_by_ts(gathered(emu_output@, now_ms, bridge_log@, source)),
            tail,
        ),
{
    let ghost all = gathered(emu_output@, now_ms, bridge_log@, source);
    let mut pending: Vec<LogEntry> = Vec::new();
    let ghost emu_part: Seq<LogEntryView> = Seq::empty();
    if source == LogSource::Emulator || source == LogSource::All {
        let k = emu_output.len();
        let ghost want = emulator_entries(emu_output@, now_ms);
        let mut i: usize = 0;
        while i < k
            invariant
                k == emu_output@.len(),
                want == emulator_entries(emu_output@, now_ms),
                i <= k,
                entry_views(pending@) == want.subrange(0, i as int),
            decreases k - i,
        {
            let ghost before = pending@;
            let ts = stamp_of_line(now_ms, i, k);
            let e = entry_of_line(ts, &emu_output[i]);
            pending.push(e);
            proof {
                assert(want.subrange(0, i + 1) =~= want.subrange(0, i as int).push(want[i as int]));
                assert(entry_views(pending@) =~= entry_views(before).push(e@));
            }
            i = i + 1;
        }
        assert(want.subrange(0, k as int) =~= want);
        proof {
            emu_part = want;
        }
    }
    assert(entry_views(pending@) =~= emu_part);
    if source == LogSource::Bridge || source == LogSource::All {
        let mut i: usize = 0;
        while i < bridge_log.len()
            invariant
                i <= bridge_log@.len(),
                entry_views(pending@) == emu_part + bridge_log@.subrange(0, i as int).map_values(
                    |b: BridgeLog| bridge_entry(b),
                ),
            decreases bridge_log@.len() - i,
        {
            let ghost before = pending@;
            let e = entry_of_report(&bridge_log[i]);
            pending.push(e);
            proof {
                let prev = bridge_log@.subrange(0, i as int);
                assert(bridge_log@.subrange(0, i + 1) =~= prev.push(bridge_log@[i as int]));
                assert(entry_views(pending@) =~= entry_views(before).push(e@));
            }
            i = i + 1;
            assert(entry_views(pending@) =~= emu_part + bridge_log@.subrange(0, i as int).map_values(
                |b: BridgeLog| bridge_entry(b),
            ));
        }
        assert(bridge_log@.subrange(0, i as int) =~= bridge_log@);
    }
    assert(entry_views(pending@) =~= all);

    // Stable insertion sort by timestamp.
    let ghost n = pending@.len();
    let mut out: Vec<LogEntry> = Vec::new();
    let ghost k: int = 0;
    assert(all.subrange(0, 0) =~= Seq::<LogEntryView>::empty());
    while pending.len() > 0
        invariant
            0 <= k <= n,
            n == all.len(),
            pending@.len() == n - k,
            entry_views(pending@) == all.subrange(k, n as int),
            entry_views(out@) == sort_by_ts(all.subrange(0, k)),
        decreases pending@.len(),
    {
        let ghost pv = pending@;
        let e = pending.remove(0);
        assert(entry_views(pv)[0] == all[k]);
        assert(e@ == all[k]);
        let mut p = out.len();
        while p > 0 && out[p - 1].ts_ms > e.ts_ms
            invariant
                p <= out@.len(),
                forall|q: int| p <= q < out@.len() ==> out@[q].ts_ms > e.ts_ms,
            decreases p,
        {
            p = p - 1;
        }
        proof {
            let sv = entry_views(out@);
            lemma_insert_at(sv, e@, p as int);
            assert(all.subrange(0, k + 1).drop_last() =~= all.subrange(0, k as int));
            assert(all.subrange(0, k + 1).last() == all[k]);
        }
        let ghost before = out@;
        out.insert(p, e);
        proof {
            assert(entry_views(out@) =~= entry_views(before).insert(p as int, e@));
            assert(entry_views(pending@) =~= entry_views(pv).subrange(1, pv.len() as int));
            assert(all.subrange(k, n as int).subrange(1, n - k) =~= all.subrange(k + 1, n as int));
            k = k + 1;
            assert(entry_views(pending@) =~= all.subrange(k, n as int));
            assert(entry_views(out@) == sort_by_ts(all.subrange(0, k)));
        }
    }
    assert(all.subrange(0, n as int) =~= all);
    match tail {
        Some(t) => {
            let len = out.len();
            if len > t {
                let kept = out.split_off(len - t);
                assert(entry_views(kept@) =~= apply_tail(sort_by_ts(all), tail));
                return kept;
            }
            out
        },
        None => out,
    }
}

} // verus!
