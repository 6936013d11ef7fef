use vstd::prelude::*;
use vstd::relations::{sorted_by, total_ordering};
use crate::clock::{clock_now, nanos_since};
use crate::snap::Snap;
use crate::text::{count_text, decimal, millis_text, millis_text_of};
use vstd::string::StringExecFns;

verus! {

broadcast use vstd::seq_lib::group_to_multiset_ensures;

/// Why a statistic could not be computed.
#[derive(Clone, Copy, Debug, PartialEq, Eq, Structural)]
pub enum StatsError {
    /// The history holds no snapshot.
    NoData,
    /// The requested fraction is not a number in `[0, 1]`.
    InvalidArgument,
}

/// The history length that `cull` is usually asked to keep.
pub const DEFAULT_MAX_SNAPSHOTS: usize = 100;

/// `a + b`, saturating at `u64::MAX`.
pub open spec fn saturating_sum(a: u64, b: u64) -> u64 {
    if a + b > u64::MAX {
        u64::MAX
    } else {
        (a + b) as u64
    }
}

/// The history after a recording of `elapsed` nanoseconds is handed in: a guard that
/// opened the snapshot appends it; any other adds its time to the last snapshot
/// (and starts the history when there is none).
pub open spec fn submitted(h: Seq<Snap>, opens_snap: bool, elapsed: u64) -> Seq<Snap> {
    if opens_snap || h.len() == 0 {
        h.push(Snap { duration: elapsed })
    } else {
        h.update(h.len() - 1, Snap { duration: saturating_sum(h.last().duration, elapsed) })
    }
}

/// The durations of a history, in order.
pub open spec fn durations(h: Seq<Snap>) -> Seq<u64> {
    h.map_values(|s: Snap| s.duration)
}

/// The sum of the durations of a history.
pub open spec fn total(h: Seq<Snap>) -> int
    decreases h.len(),
{
    if h.len() == 0 {
        0
    } else {
        total(h.drop_last()) + h.last().duration
    }
}

/// The order `<=` on durations.
pub open spec fn leq_u64() -> spec_fn(u64, u64) -> bool {
    |a: u64, b: u64| a <= b
}

/// The durations of a history in ascending order.
pub open spec fn sorted_durations(h: Seq<Snap>) -> Seq<u64> {
    durations(h).sort_by(leq_u64())
}

/// The position in the sorted durations that fraction `num / den` selects among
/// `n` snapshots: `floor(num * n / den)`, kept below `n`.
pub open spec fn percentile_index(num: u64, den: u64, n: nat) -> int {
    let i = (num as int) * (n as int) / (den as int);
    if i >= n {
        n - 1
    } else {
        i
    }
}

/// The mean duration of `h`, rounded down; `NoData` when `h` is empty.
pub open spec fn average_of(h: Seq<Snap>) -> Result<u64, StatsError> {
    if h.len() == 0 {
        Err(StatsError::NoData)
    } else {
        Ok((total(h) / (h.len() as int)) as u64)
    }
}

/// The duration that fraction `num / den` selects in the sorted durations of `h`;
/// `InvalidArgument` for a fraction outside `[0, 1]`, else `NoData` when `h` is empty.
pub open spec fn percentile_of(h: Seq<Snap>, num: u64, den: u64) -> Result<u64, StatsError> {
    if !valid_fraction(num, den) {
        Err(StatsError::InvalidArgument)
    } else if h.len() == 0 {
        Err(StatsError::NoData)
    } else {
        Ok(sorted_durations(h)[percentile_index(num, den, h.len())])
    }
}

/// `Ok(d)` as milliseconds with two decimals, an error as `n/a`.
pub open spec fn stat_text(r: Result<u64, StatsError>) -> Seq<char> {
    match r {
        Ok(d) => millis_text_of(d),
        Err(_) => seq!['n', '/', 'a'],
    }
}

/// Whether `num / den` is a fraction in `[0, 1]`.
pub open spec fn valid_fraction(num: u64, den: u64) -> bool {
    den > 0 && num <= den
}

/// Times one recording of a `Monitor`, from `Monitor::record` to `Monitor::release`.
pub struct MonitorRecordingGuard {
    start: std::time::Instant,
    opens_snap: bool,
}

impl MonitorRecordingGuard {
    /// Whether this recording opened the snapshot it is written into.
    pub closed spec fn opens(&self) -> bool {
        self.opens_snap
    }

    pub fn opens_snap(&self) -> (r: bool)
        ensures
            r == self.opens(),
    {
        self.opens_snap
    }

    /// Starts the clock for a recording that opens a new snapshot, or merges into
    /// the last one.
    pub fn new(opens_snap: bool) -> (r: MonitorRecordingGuard)
        ensures
            r.opens() == opens_snap,
    {
        MonitorRecordingGuard { start: clock_now(), opens_snap }
    }
}

/// A named, ordered history of snapshots, oldest first.
///
/// A recording is opened by `record` and closed by `release`, or both around a
/// closure by `measure`. Opening takes `&mut` access and at most one recording is
/// opened per frame, so the merge into the last snapshot is reached only through a
/// guard made with `MonitorRecordingGuard::new(false)`.
pub struct Monitor {
    pub name: String,
    pub snaps: Vec<Snap>,
    /// Set while a recording of the current frame is open; `new_frame` clears it.
    pub create_new_snap: bool,
    pub max_snapshots: usize,
}

/// A point-in-time copy of a monitor's history, walked front to back.
pub struct MonitorIterator {
    index: usize,
    snaps: Vec<Snap>,
}

impl MonitorIterator {
    pub closed spec fn items(&self) -> Seq<Snap> {
        self.snaps@
    }

    pub closed spec fn position(&self) -> int {
        self.index as int
    }

    pub closed spec fn well_formed(&self) -> bool {
        self.index <= self.snaps.len()
    }

    /// The next snapshot, or `None` once all have been handed out.
    pub fn next(&mut self) -> (r: Option<Snap>)
        requires
            old(self).well_formed(),
        ensures
            final(self).well_formed(),
            final(self).items() == old(self).items(),
            old(self).position() < old(self).items().len() ==> {
                &&& r == Some(old(self).items()[old(self).position()])
                &&& final(self).position() == old(self).position() + 1
            },
            old(self).position() >= old(self).items().len() ==> {
                &&& r.is_none()
                &&& final(self).position() == old(self).position()
            },
    {
        if self.index < self.snaps.len() {
            let s = self.snaps[self.index];
            self.index = self.index + 1;
            Some(s)
        } else {
            None
        }
    }

    /// Goes back to the first snapshot of the copy.
    pub fn restart(&mut self)
        ensures
            final(self).well_formed(),
            final(self).items() == old(self).items(),
            final(self).position() == 0,
    {
        self.index = 0;
    }

    /// How many snapshots are still to come.
    pub fn count(&self) -> (r: usize)
        requires
            self.well_formed(),
        ensures
            r == self.items().len() - self.position(),
    {
        self.snaps.len() - self.index
    }
}


/// A statistic as text: milliseconds with two decimals, or `n/a`.
fn stat_string(r: Result<u64, StatsError>) -> (t: String)
    ensures
        t@ == stat_text(r),
{
    match r {
        Ok(d) => millis_text(d),
        Err(_) => {
            let mut t = String::new();
            t.append("n/a");
            proof {
                reveal_strlit("n/a");
                assert(t@ =~= seq!['n', '/', 'a']);
            }
            t
        },
    }
}

/// Whether `s` is in ascending order.
pub open spec fn ascending(s: Seq<u64>) -> bool {
    forall|a: int, b: int| 0 <= a < b < s.len() ==> s[a] <= s[b]
}

/// The durations of `h`, sorted ascending.
fn sorted_copy(h: &Vec<Snap>) -> (r: Vec<u64>)
    ensures
        r@ == sorted_durations(h@),
{
    let mut out: Vec<u64> = Vec::new();
    let mut i: usize = 0;
    while i < h.len()
        invariant
            i <= h.len(),
            ascending(out@),
            out@.to_multiset() == durations(h@).subrange(0, i as int).to_multiset(),
        decreases h.len() - i,
    {
        let x: u64 = h[i].duration;
        let mut pos: usize = 0;
        while pos < out.len() && out[pos] <= x
            invariant
                pos <= out.len(),
                forall|j: int| 0 <= j < pos ==> out@[j] <= x,
            decreases out.len() - pos,
        {
            pos = pos + 1;
        }
        let ghost before = out@;
        proof {
            assert(durations(h@).subrange(0, i + 1) =~= durations(h@).subrange(0, i as int).push(
                x,
            ));
        }
        out.insert(pos, x);
        proof {
            assert forall|a: int, b: int| 0 <= a < b < out@.len() implies out@[a] <= out@[b] by {
                if b < pos {
                } else if b == pos {
                } else if a < pos {
                    assert(out@[b] == before[b - 1]);
                } else if a == pos {
                    assert(before[pos as int] > x);
                    assert(out@[b] == before[b - 1]);
                } else {
                    assert(out@[a] == before[a - 1]);
                    assert(out@[b] == before[b - 1]);
                }
            }
        }
        i = i + 1;
    }
    proof {
        assert(durations(h@).subrange(0, h@.len() as int) =~= durations(h@));
        let leq = leq_u64();
        assert(sorted_by(out@, leq));
        assert(total_ordering(leq));
        durations(h@).lemma_sort_by_ensures(leq);
        vstd::seq_lib::lemma_sorted_unique(out@, sorted_durations(h@), leq);
    }
    out
}

impl Monitor {
    /// A monitor named `name`, with an empty history, no recording open and the
    /// default retention bound.
    pub fn new(name: &str) -> (r: Monitor)
        ensures
            r.name@ == name@,
            r.snaps@ == Seq::<Snap>::empty(),
            !r.create_new_snap,
            r.max_snapshots == DEFAULT_MAX_SNAPSHOTS,
    {
        Monitor {
            name: name.to_owned(),
            snaps: Vec::new(),
            create_new_snap: false,
            max_snapshots: DEFAULT_MAX_SNAPSHOTS,
        }
    }

    /// Opens a recording for this frame. Returns `None` when one is already open
    /// this frame, else marks the frame as recorded and returns a guard that opens
    /// a new snapshot.
    pub fn record(&mut self) -> (r: Option<MonitorRecordingGuard>)
        ensures
            r.is_some() == !old(self).create_new_snap,
            r matches Some(g) ==> g.opens(),
            final(self).create_new_snap,
            final(self).snaps@ == old(self).snaps@,
            final(self).name == old(self).name,
            final(self).max_snapshots == old(self).max_snapshots,
    {
        if self.create_new_snap {
            None
        } else {
            self.create_new_snap = true;
            Some(MonitorRecordingGuard::new(true))
        }
    }

    /// Hands in a recording of `elapsed` nanoseconds: appended as a new snapshot when
    /// `opens_snap`, else added to the last one.
    pub fn submit(&mut self, opens_snap: bool, elapsed: u64)
        ensures
            final(self).snaps@ == submitted(old(self).snaps@, opens_snap, elapsed),
            final(self).create_new_snap == old(self).create_new_snap,
            final(self).name == old(self).name,
            final(self).max_snapshots == old(self).max_snapshots,
    {
        let n = self.snaps.len();
        if opens_snap || n == 0 {
            self.snaps.push(Snap { duration: elapsed });
        } else {
            let last = self.snaps[n - 1].duration;
            let merged: u64 = if last > u64::MAX - elapsed {
                u64::MAX
            } else {
                last + elapsed
            };
            self.snaps.set(n - 1, Snap { duration: merged });
        }
    }

    /// Closes the recording of `guard`: the time passed since it was made is handed
    /// to `submit`, and returned.
    pub fn release(&mut self, guard: MonitorRecordingGuard) -> (elapsed: u64)
        ensures
            final(self).snaps@ == submitted(old(self).snaps@, guard.opens(), elapsed),
            final(self).create_new_snap == old(self).create_new_snap,
            final(self).name == old(self).name,
            final(self).max_snapshots == old(self).max_snapshots,
    {
        let elapsed = nanos_since(&guard.start);
        self.submit(guard.opens_snap, elapsed);
        elapsed
    }

    /// Runs `f` as this frame's recorded region: `record`, then `f`, then `release`.
    /// The time is recorded, and returned beside `f`'s value, only when no recording
    /// was open yet this frame; `f` runs either way.
    pub fn measure<R, F: FnOnce() -> R>(&mut self, f: F) -> (r: (R, Option<u64>))
        requires
            f.requires(()),
        ensures
            f.ensures((), r.0),
            old(self).create_new_snap ==> r.1.is_none() && final(self).snaps@ == old(self).snaps@,
            !old(self).create_new_snap ==> (r.1 matches Some(e) && final(self).snaps@ == old(
                self,
            ).snaps@.push((Snap { duration: e }))),
            final(self).create_new_snap,
            final(self).name == old(self).name,
            final(self).max_snapshots == old(self).max_snapshots,
    {
        let guard = self.record();
        let value = f();
        match guard {
            Some(g) => {
                let elapsed = self.release(g);
                (value, Some(elapsed))
            },
            None => (value, None),
        }
    }

    /// The mean duration, rounded down, or `NoData` on an empty history.
    pub fn average(&self) -> (r: Result<u64, StatsError>)
        ensures
            r == average_of(self.snaps@),
    {
        let n = self.snaps.len();
        if n == 0 {
            return Err(StatsError::NoData);
        }
        let mut sum: u128 = 0;
        let mut i: usize = 0;
        while i < n
            invariant
                n == self.snaps@.len(),
                i <= n,
                sum == total(self.snaps@.subrange(0, i as int)),
                sum <= (i as int) * (u64::MAX as int),
            decreases n - i,
        {
            let d = self.snaps[i].duration;
            proof {
                assert(self.snaps@.subrange(0, i + 1).drop_last() =~= self.snaps@.subrange(
                    0,
                    i as int,
                ));
                assert((i as int + 1) * (u64::MAX as int) == (i as int) * (u64::MAX as int) + (
                u64::MAX as int)) by (nonlinear_arith);
                assert((i as int + 1) * (u64::MAX as int) <= u128::MAX) by (nonlinear_arith)
                    requires
                        i < u64::MAX,
                ;
            }
            sum = sum + d as u128;
            i = i + 1;
        }
        proof {
            assert(self.snaps@.subrange(0, n as int) =~= self.snaps@);
            vstd::arithmetic::div_mod::lemma_div_is_ordered(
                sum as int,
                (n as int) * (u64::MAX as int),
                n as int,
            );
            vstd::arithmetic::div_mod::lemma_div_by_multiple(u64::MAX as int, n as int);
            assert((n as int) * (u64::MAX as int) == (u64::MAX as int) * (n as int)) by (
            nonlinear_arith);
        }
        Ok((sum / (n as u128)) as u64)
    }

    /// The duration at fraction `num / den` of the sorted history: index
    /// `floor(num * len / den)`, kept below `len`. A fraction outside `[0, 1]` (or
    /// `den == 0`) is `InvalidArgument`; an empty history is `NoData`.
    pub fn percentile(&self, num: u64, den: u64) -> (r: Result<u64, StatsError>)
        ensures
            r == percentile_of(self.snaps@, num, den),
    {
        if den == 0 || num > den {
            return Err(StatsError::InvalidArgument);
        }
        let n = self.snaps.len();
        if n == 0 {
            return Err(StatsError::NoData);
        }
        let sorted = sorted_copy(&self.snaps);
        proof {
            durations(self.snaps@).lemma_sort_by_ensures(leq_u64());
            assert(durations(self.snaps@).len() == n);
            assert(sorted@.to_multiset().len() == durations(self.snaps@).to_multiset().len());
            assert(sorted@.len() == n);
            assert((num as int) * (n as int) <= u128::MAX) by (nonlinear_arith)
                requires
                    num <= u64::MAX,
                    n <= u64::MAX,
            ;
        }
        let scaled: u128 = (num as u128) * (n as u128);
        let at: u128 = scaled / (den as u128);
        let idx: usize = if at >= n as u128 {
            n - 1
        } else {
            at as usize
        };
        Ok(sorted[idx])
    }

    /// A one-line summary: the number of snapshots, the mean and the duration at
    /// one percent, in milliseconds with two decimals (`n/a` where there is no data).
    pub fn describe(&self) -> (r: String)
        ensures
            r@ == seq!['M', 'o', 'n', 'i', 't', 'o', 'r', ':', ' ', '('] + decimal(
                self.snaps@.len() as nat,
            ) + " snaps, avg: "@ + stat_text(average_of(self.snaps@)) + ", 1%: "@ + stat_text(
                percentile_of(self.snaps@, 1, 100),
            ) + seq![')'],
    {
        let mut s = String::new();
        s.append("Monitor: (");
        let count = count_text(self.snaps.len());
        s.append(count.as_str());
        s.append(" snaps, avg: ");
        let avg = stat_string(self.average());
        s.append(avg.as_str());
        s.append(", 1%: ");
        let low = stat_string(self.percentile(1, 100));
        s.append(low.as_str());
        s.append(")");
        proof {
            reveal_strlit("Monitor: (");
            reveal_strlit(" snaps, avg: ");
            reveal_strlit(", 1%: ");
            reveal_strlit(")");
            assert(s@ =~= seq!['M', 'o', 'n', 'i', 't', 'o', 'r', ':', ' ', '('] + decimal(
                self.snaps@.len() as nat,
            ) + " snaps, avg: "@ + stat_text(average_of(self.snaps@)) + ", 1%: "@ + stat_text(
                percentile_of(self.snaps@, 1, 100),
            ) + seq![')']);
        }
        s
    }

    /// A copy of the current history, to be walked from the first snapshot.
    pub fn iter(&self) -> (r: MonitorIterator)
        ensures
            r.well_formed(),
            r.items() == self.snaps@,
            r.position() == 0,
    {
        let mut copy: Vec<Snap> = Vec::new();
        let mut i: usize = 0;
        while i < self.snaps.len()
            invariant
                i <= self.snaps@.len(),
                copy@ == self.snaps@.subrange(0, i as int),
            decreases self.snaps@.len() - i,
        {
            copy.push(self.snaps[i]);
            i = i + 1;
            proof {
                assert(copy@ =~= self.snaps@.subrange(0, i as int));
            }
        }
        proof {
            assert(copy@ =~= self.snaps@);
        }
        MonitorIterator { index: 0, snaps: copy }
    }

    /// The number of snapshots in the history.
    pub fn len(&self) -> (r: usize)
        ensures
            r == self.snaps@.len(),
    {
        self.snaps.len()
    }

    /// The most recent snapshot, if any.
    pub fn latest(&self) -> (r: Option<Snap>)
        ensures
            self.snaps@.len() == 0 ==> r.is_none(),
            self.snaps@.len() > 0 ==> r == Some(self.snaps@.last()),
    {
        let n = self.snaps.len();
        if n > 0 {
            Some(self.snaps[n - 1])
        } else {
            None
        }
    }

    /// Keeps only the first `max_snapshots` snapshots, the oldest ones; a shorter
    /// history is left as it is.
    pub fn cull(&mut self, max_snapshots: usize)
        ensures
            old(self).snaps@.len() > max_snapshots ==> final(self).snaps@ == old(self).snaps@.subrange(
                0,
                max_snapshots as int,
            ),
            old(self).snaps@.len() <= max_snapshots ==> final(self).snaps@ == old(self).snaps@,
            final(self).create_new_snap == old(self).create_new_snap,
            final(self).name == old(self).name,
            final(self).max_snapshots == old(self).max_snapshots,
    {
        if self.snaps.len() > max_snapshots {
            self.snaps.truncate(max_snapshots);
        }
    }

    /// Empties the history.
    pub fn clear(&mut self)
        ensures
            final(self).snaps@ == Seq::<Snap>::empty(),
            final(self).create_new_snap == old(self).create_new_snap,
            final(self).name == old(self).name,
            final(self).max_snapshots == old(self).max_snapshots,
    {
        self.snaps.clear();
    }

    /// Marks a frame boundary: the next `record` opens a new snapshot.
    pub fn new_frame(&mut self)
        ensures
            !final(self).create_new_snap,
            final(self).snaps@ == old(self).snaps@,
            final(self).name == old(self).name,
            final(self).max_snapshots == old(self).max_snapshots,
    {
        self.create_new_snap = false;
    }
}

/// The history after one recording per element of `elapsed`, each of which opened
/// its own snapshot, as `record` then `release` do within one frame.
pub open spec fn after_recordings(h: Seq<Snap>, elapsed: Seq<u64>) -> Seq<Snap>
    decreases elapsed.len(),
{
    if elapsed.len() == 0 {
        h
    } else {
        submitted(after_recordings(h, elapsed.drop_last()), true, elapsed.last())
    }
}

/// Each completed recording that opened its snapshot adds exactly one snapshot,
/// holding the measured time: `n` such recordings on a history of length `l` leave
/// one of length `l + n`, the old snapshots first.
pub proof fn lemma_recordings_add_one_each(h: Seq<Snap>, elapsed: Seq<u64>)
    ensures
        after_recordings(h, elapsed).len() == h.len() + elapsed.len(),
        after_recordings(h, elapsed).subrange(0, h.len() as int) == h,
        forall|i: int|
            0 <= i < elapsed.len() ==> #[trigger] after_recordings(h, elapsed)[h.len() + i].duration
                == elapsed[i],
    decreases elapsed.len(),
{
    if elapsed.len() > 0 {
        let prev = elapsed.drop_last();
        lemma_recordings_add_one_each(h, prev);
        let a = after_recordings(h, prev);
        assert(after_recordings(h, elapsed) == a.push(Snap { duration: elapsed.last() }));
        assert(after_recordings(h, elapsed).subrange(0, h.len() as int) =~= a.subrange(
            0,
            h.len() as int,
        ));
        assert forall|i: int| 0 <= i < elapsed.len() implies #[trigger] after_recordings(
            h,
            elapsed,
        )[h.len() + i].duration == elapsed[i] by {
            if i < prev.len() {
                assert(a[h.len() + i].duration == prev[i]);
            }
        }
    } else {
        assert(h.subrange(0, h.len() as int) =~= h);
    }
}

/// On a non-empty history the fraction `0 / den` selects the least duration and
/// `den / den` the greatest.
pub proof fn lemma_percentile_extremes(h: Seq<Snap>, den: u64)
    requires
        h.len() > 0,
        den > 0,
    ensures
        percentile_index(0, den, h.len()) == 0,
        percentile_index(den, den, h.len()) == h.len() - 1,
        percentile_of(h, 0, den) == Ok::<u64, StatsError>(sorted_durations(h)[0]),
        percentile_of(h, den, den) == Ok::<u64, StatsError>(sorted_durations(h)[h.len() - 1]),
        durations(h).contains(sorted_durations(h)[0]),
        durations(h).contains(sorted_durations(h)[h.len() - 1]),
        forall|i: int| 0 <= i < h.len() ==> sorted_durations(h)[0] <= #[trigger] h[i].duration,
        forall|i: int|
            0 <= i < h.len() ==> #[trigger] h[i].duration <= sorted_durations(h)[h.len() - 1],
{
    let d = durations(h);
    let s = sorted_durations(h);
    let n = h.len();
    assert((den as int) * (n as int) / (den as int) == n as int) by (nonlinear_arith)
        requires
            den > 0,
    ;
    assert((0 as int) * (n as int) / (den as int) == 0) by (nonlinear_arith)
        requires
            den > 0,
    ;
    d.lemma_sort_by_ensures(leq_u64());
    assert(d.len() == n);
    assert(s.to_multiset().len() == d.to_multiset().len());
    assert(s.len() == n);
    assert(s.contains(s[0]));
    assert(s.contains(s[n - 1]));
    assert forall|i: int| 0 <= i < h.len() implies sorted_durations(h)[0] <= #[trigger] h[i].duration
        && h[i].duration <= sorted_durations(h)[h.len() - 1] by {
        assert(d[i] == h[i].duration);
        assert(d.contains(d[i]));
        assert(d.to_multiset().count(d[i]) > 0);
        assert(s.to_multiset().count(d[i]) > 0);
        assert(s.contains(d[i]));
        let k = choose|k: int| 0 <= k < s.len() && s[k] == d[i];
        if k > 0 {
            assert((leq_u64())(s[0], s[k]));
        }
        if k < n - 1 {
            assert((leq_u64())(s[k], s[n - 1]));
        }
    }
}

/// An emptied history has no statistics: the mean and every valid percentile are
/// `NoData`.
pub proof fn lemma_empty_history_has_no_data(num: u64, den: u64)
    requires
        valid_fraction(num, den),
    ensures
        average_of(Seq::<Snap>::empty()) == Err::<u64, StatsError>(StatsError::NoData),
        percentile_of(Seq::<Snap>::empty(), num, den) == Err::<u64, StatsError>(
            StatsError::NoData,
        ),
{
}

} // verus!
