//! Usage history for the trend charts: one series of points per provider,
//! pruned to the last seven days. `N` is the numeric type of the amounts.
use crate::models::ProviderState;
use crate::text::{owned, str_eq};
use vstd::prelude::*;

verus! {

/// Points older than this (milliseconds) are dropped.
pub const RETENTION_MS: i64 = 604800000;

/// One data point of a trend chart.
#[derive(Debug)]
pub struct HistoryPoint<N> {
    pub timestamp: i64,
    pub used: N,
    pub limit: N,
    pub state: String,
}

/// What a point holds.
pub type PointView<N> = (i64, N, N, Seq<char>);

pub open spec fn point_view<N>(p: HistoryPoint<N>) -> PointView<N> {
    (p.timestamp, p.used, p.limit, p.state@)
}

pub open spec fn points_view<N>(v: Seq<HistoryPoint<N>>) -> Seq<PointView<N>> {
    v.map_values(|p: HistoryPoint<N>| point_view(p))
}

/// The points at or after `cutoff`, in order.
pub open spec fn since<N>(v: Seq<PointView<N>>, cutoff: int) -> Seq<PointView<N>>
    decreases v.len(),
{
    if v.len() == 0 {
        v
    } else {
        let r = since(v.drop_last(), cutoff);
        if v.last().0 >= cutoff {
            r.push(v.last())
        } else {
            r
        }
    }
}

/// Lower-case name of a state, as history points record it.
pub open spec fn state_label_spec(s: ProviderState) -> Seq<char> {
    match s {
        ProviderState::Good => "ok"@,
        ProviderState::Warn => "warn"@,
        ProviderState::Danger => "danger"@,
        ProviderState::Unknown => "unknown"@,
    }
}

pub fn state_label(s: ProviderState) -> (r: &'static str)
    ensures
        r@ == state_label_spec(s),
{
    match s {
        ProviderState::Good => "ok",
        ProviderState::Warn => "warn",
        ProviderState::Danger => "danger",
        ProviderState::Unknown => "unknown",
    }
}

pub open spec fn distinct_ids<N>(d: Seq<(String, Vec<HistoryPoint<N>>)>) -> bool {
    forall|i: int, j: int| 0 <= i < j < d.len() ==> (#[trigger] d[i]).0@ != (#[trigger] d[j]).0@
}

/// The series of each provider.
pub open spec fn series_map<N>(d: Seq<(String, Vec<HistoryPoint<N>>)>) -> Map<Seq<char>, Seq<PointView<N>>>
    decreases d.len(),
{
    if d.len() == 0 {
        Map::empty()
    } else {
        series_map(d.drop_last()).insert(d.last().0@, points_view(d.last().1@))
    }
}

proof fn lemma_series_map_index<N>(d: Seq<(String, Vec<HistoryPoint<N>>)>, i: int)
    requires
        distinct_ids(d),
        0 <= i < d.len(),
    ensures
        series_map(d).dom().contains(d[i].0@),
        series_map(d)[d[i].0@] == points_view(d[i].1@),
    decreases d.len(),
{
    if i < d.len() - 1 {
        let t = d.drop_last();
        assert(t[i] == d[i]);
        assert forall|a: int, b: int| 0 <= a < b < t.len() implies (#[trigger] t[a]).0@ != (#[trigger] t[b]).0@ by {
            assert(t[a] == d[a] && t[b] == d[b]);
        }
        lemma_series_map_index(t, i);
        assert(d[i].0@ != d[d.len() - 1].0@);
    }
}

proof fn lemma_series_map_absent<N>(d: Seq<(String, Vec<HistoryPoint<N>>)>, k: Seq<char>)
    requires
        forall|i: int| 0 <= i < d.len() ==> (#[trigger] d[i]).0@ != k,
    ensures
        !series_map(d).dom().contains(k),
    decreases d.len(),
{
    if d.len() > 0 {
        let t = d.drop_last();
        assert forall|i: int| 0 <= i < t.len() implies (#[trigger] t[i]).0@ != k by {
            assert(t[i] == d[i]);
        }
        lemma_series_map_absent(t, k);
    }
}

proof fn lemma_series_map_update<N>(d: Seq<(String, Vec<HistoryPoint<N>>)>, i: int, v: Vec<HistoryPoint<N>>)
    requires
        distinct_ids(d),
        0 <= i < d.len(),
    ensures
        distinct_ids(d.update(i, (d[i].0, v))),
        series_map(d.update(i, (d[i].0, v))) == series_map(d).insert(d[i].0@, points_view(v@)),
    decreases d.len(),
{
    let e = d.update(i, (d[i].0, v));
    assert forall|a: int, b: int| 0 <= a < b < e.len() implies (#[trigger] e[a]).0@ != (#[trigger] e[b]).0@ by {
        assert(e[a].0 == d[a].0 && e[b].0 == d[b].0);
    }
    let t = d.drop_last();
    assert forall|a: int, b: int| 0 <= a < b < t.len() implies (#[trigger] t[a]).0@ != (#[trigger] t[b]).0@ by {
        assert(t[a] == d[a] && t[b] == d[b]);
    }
    if i < d.len() - 1 {
        assert(t[i] == d[i]);
        lemma_series_map_update(t, i, v);
        assert(e.drop_last() =~= t.update(i, (d[i].0, v)));
        assert(d[i].0@ != d[d.len() - 1].0@);
        assert(series_map(e) =~= series_map(d).insert(d[i].0@, points_view(v@)));
    } else {
        assert(e.drop_last() =~= t);
        assert(series_map(e) =~= series_map(d).insert(d[i].0@, points_view(v@)));
    }
}

/// Series of all providers.
pub struct HistoryStore<N> {
    data: Vec<(String, Vec<HistoryPoint<N>>)>,
}

impl<N> HistoryStore<N> {
    #[verifier::type_invariant]
    spec fn wf(self) -> bool {
        distinct_ids(self.data@)
    }

    /// The series of each provider (providers without points may be absent).
    pub closed spec fn view_map(self) -> Map<Seq<char>, Seq<PointView<N>>> {
        series_map(self.data@)
    }

    /// The series of a provider.
    pub open spec fn series(self, id: Seq<char>) -> Seq<PointView<N>> {
        if self.view_map().dom().contains(id) {
            self.view_map()[id]
        } else {
            Seq::empty()
        }
    }

    pub fn new() -> (r: HistoryStore<N>)
        ensures
            r.view_map() == Map::<Seq<char>, Seq<PointView<N>>>::empty(),
    {
        HistoryStore { data: Vec::new() }
    }

    fn find(data: &Vec<(String, Vec<HistoryPoint<N>>)>, id: &str) -> (r: Option<usize>)
        ensures
            match r {
                Some(i) => i < data@.len() && data@[i as int].0@ == id@,
                None => forall|j: int| 0 <= j < data@.len() ==> (#[trigger] data@[j]).0@ != id@,
            },
    {
        let n = data.len();
        let mut i: usize = 0;
        while i < n
            invariant
                n == data@.len(),
                i <= n,
                forall|j: int| 0 <= j < i ==> (#[trigger] data@[j]).0@ != id@,
            decreases n - i,
        {
            if str_eq(data[i].0.as_str(), id) {
                return Some(i);
            }
            i = i + 1;
        }
        None
    }

    /// Replace a provider's series.
    fn set_series(data: &mut Vec<(String, Vec<HistoryPoint<N>>)>, id: &str, points: Vec<HistoryPoint<N>>)
        requires
            distinct_ids(old(data)@),
        ensures
            distinct_ids(final(data)@),
            series_map(final(data)@) == series_map(old(data)@).insert(id@, points_view(points@)),
    {
        match Self::find(data, id) {
            Some(i) => {
                let ghost before = data@;
                let k = data[i].0.clone();
                data.set(i, (k, points));
                proof {
                    assert(data@ =~= before.update(i as int, (before[i as int].0, points)));
                    lemma_series_map_update(before, i as int, points);
                }
            },
            None => {
                let ghost before = data@;
                data.push((owned(id), points));
                proof {
                    assert forall|a: int, b: int| 0 <= a < b < data@.len() implies (#[trigger] data@[a]).0@
                        != (#[trigger] data@[b]).0@ by {
                        if b == data@.len() - 1 {
                            assert(data@[a] == before[a]);
                        } else {
                            assert(data@[a] == before[a] && data@[b] == before[b]);
                        }
                    }
                    assert(data@.drop_last() =~= before);
                }
            },
        }
    }

    /// Take a provider's series out (leaving it empty).
    fn take_series(data: &mut Vec<(String, Vec<HistoryPoint<N>>)>, id: &str) -> (r: Vec<HistoryPoint<N>>)
        requires
            distinct_ids(old(data)@),
        ensures
            distinct_ids(final(data)@),
            points_view(r@) == (if series_map(old(data)@).dom().contains(id@) {
                series_map(old(data)@)[id@]
            } else {
                Seq::empty()
            }),
            series_map(final(data)@) == (if series_map(old(data)@).dom().contains(id@) {
                series_map(old(data)@).insert(id@, Seq::empty())
            } else {
                series_map(old(data)@)
            }),
    {
        match Self::find(data, id) {
            Some(i) => {
                let ghost before = data@;
                proof {
                    lemma_series_map_index(before, i as int);
                }
                let k = data[i].0.clone();
                let (_, pts) = data.remove(i);
                let empty: Vec<HistoryPoint<N>> = Vec::new();
                data.insert(i, (k, empty));
                proof {
                    let e = data@[i as int].1;
                    assert(data@ =~= before.update(i as int, (before[i as int].0, e)));
                    lemma_series_map_update(before, i as int, e);
                    assert(points_view(e@) =~= Seq::<PointView<N>>::empty());
                }
                pts
            },
            None => {
                proof {
                    lemma_series_map_absent(data@, id@);
                }
                let r: Vec<HistoryPoint<N>> = Vec::new();
                assert(points_view(r@) =~= Seq::<PointView<N>>::empty());
                r
            },
        }
    }

    /// Replace the series of the given providers (the import of a sync).
    pub fn import_all(&mut self, entries: Vec<(String, Vec<HistoryPoint<N>>)>)
        ensures
            final(self).view_map() == imported(old(self).view_map(), entries@),
    {
        proof {
            use_type_invariant(&*self);
        }
        let mut data: Vec<(String, Vec<HistoryPoint<N>>)> = Vec::new();
        std::mem::swap(&mut data, &mut self.data);
        let ghost m0 = series_map(data@);
        let mut entries = entries;
        let ghost all = entries@;
        let n = entries.len();
        let mut i: usize = 0;
        while i < n
            invariant
                n == all.len(),
                i <= n,
                entries@ == all.skip(i as int),
                distinct_ids(data@),
                series_map(data@) == imported(m0, all.take(i as int)),
            decreases n - i,
        {
            let (id, points) = entries.remove(0);
            assert(all[i as int] == (id, points));
            assert(entries@ =~= all.skip(i + 1));
            assert(all.take(i + 1).drop_last() =~= all.take(i as int));
            Self::set_series(&mut data, id.as_str(), points);
            i = i + 1;
        }
        assert(all.take(n as int) =~= all);
        self.data = data;
    }

    /// Append the points of a snapshot (each to its provider's series), then
    /// drop every point older than seven days before `now`.
    pub fn insert(&mut self, now: i64, samples: Vec<(String, HistoryPoint<N>)>)
        requires
            now >= i64::MIN + RETENTION_MS,
        ensures
            forall|k: Seq<char>|
                #[trigger] final(self).series(k) == since(
                    old(self).series(k) + appended(samples@, k),
                    now - RETENTION_MS,
                ),
    {
        proof {
            use_type_invariant(&*self);
        }
        let mut data: Vec<(String, Vec<HistoryPoint<N>>)> = Vec::new();
        std::mem::swap(&mut data, &mut self.data);
        let ghost d0 = data@;
        let mut samples = samples;
        let ghost all = samples@;
        let n = samples.len();
        let mut i: usize = 0;
        while i < n
            invariant
                n == all.len(),
                i <= n,
                samples@ == all.skip(i as int),
                distinct_ids(data@),
                forall|k: Seq<char>|
                    #[trigger] series_of(series_map(data@), k) == series_of(series_map(d0), k)
                        + appended(all.take(i as int), k),
            decreases n - i,
        {
            let (id, p) = samples.remove(0);
            assert(all[i as int] == (id, p));
            assert(samples@ =~= all.skip(i + 1));
            assert(all.take(i + 1).drop_last() =~= all.take(i as int));
            let ghost before = series_map(data@);
            let mut pts = Self::take_series(&mut data, id.as_str());
            let ghost old_pts = points_view(pts@);
            pts.push(p);
            assert(points_view(pts@) =~= old_pts.push(point_view(p)));
            Self::set_series(&mut data, id.as_str(), pts);
            assert forall|k: Seq<char>|
                #[trigger] series_of(series_map(data@), k) == series_of(series_map(d0), k) + appended(
                    all.take(i + 1),
                    k,
                ) by {
                let t1 = all.take(i + 1);
                assert(t1.drop_last() =~= all.take(i as int));
                assert(t1.last() == (id, p));
                assert(series_map(data@) =~= before.insert(id@, old_pts.push(point_view(p))));
                if k == id@ {
                    assert(old_pts == series_of(before, k));
                    assert(appended(t1, k) == appended(all.take(i as int), k).push(point_view(p)));
                    assert(series_of(series_map(data@), k) =~= series_of(before, k).push(point_view(p)));
                    assert(series_of(series_map(d0), k) + appended(all.take(i + 1), k) =~= (series_of(
                        series_map(d0),
                        k,
                    ) + appended(all.take(i as int), k)).push(point_view(p)));
                } else {
                    assert(appended(t1, k) == appended(all.take(i as int), k));
                    assert(series_of(series_map(data@), k) == series_of(before, k));
                }
            }
            i = i + 1;
        }
        assert(all.take(n as int) =~= all);
        let cutoff = now - RETENTION_MS;
        Self::prune(&mut data, cutoff);
        self.data = data;
        assert forall|k: Seq<char>|
            #[trigger] self.series(k) == since(old(self).series(k) + appended(all, k), now - RETENTION_MS) by {
            assert(self.series(k) == series_of(series_map(self.data@), k));
            assert(old(self).series(k) == series_of(series_map(d0), k));
        }
    }

    /// Drop the points before `cutoff` from every series.
    fn prune(data: &mut Vec<(String, Vec<HistoryPoint<N>>)>, cutoff: i64)
        requires
            distinct_ids(old(data)@),
        ensures
            distinct_ids(final(data)@),
            forall|k: Seq<char>|
                #[trigger] series_of(series_map(final(data)@), k) == since(
                    series_of(series_map(old(data)@), k),
                    cutoff as int,
                ),
    {
        let ghost d0 = data@;
        let n = data.len();
        let mut i: usize = 0;
        while i < n
            invariant
                n == data@.len(),
                n == d0.len(),
                i <= n,
                distinct_ids(data@),
                forall|j: int| 0 <= j < n ==> (#[trigger] data@[j]).0@ == d0[j].0@,
                forall|j: int| 0 <= j < i ==> points_view((#[trigger] data@[j]).1@) == since(points_view(d0[j].1@), cutoff as int),
                forall|j: int| i <= j < n ==> (#[trigger] data@[j]).1@ == d0[j].1@,
            decreases n - i,
        {
            let ghost before = data@;
            let pts = Self::take_at(data, i);
            let kept = keep_since(pts, cutoff);
            let k = data[i].0.clone();
            data.set(i, (k, kept));
            proof {
                assert(data@ =~= before.update(i as int, (before[i as int].0, kept)));
                lemma_series_map_update(before, i as int, kept);
            }
            i = i + 1;
        }
        proof {
            assert forall|k: Seq<char>|
                #[trigger] series_of(series_map(data@), k) == since(series_of(series_map(d0), k), cutoff as int) by {
                if exists|j: int| 0 <= j < n && data@[j].0@ == k {
                    let j = choose|j: int| 0 <= j < n && data@[j].0@ == k;
                    lemma_series_map_index(data@, j);
                    lemma_series_map_index(d0, j);
                } else {
                    lemma_series_map_absent(data@, k);
                    assert forall|j: int| 0 <= j < d0.len() implies (#[trigger] d0[j]).0@ != k by {
                        assert(data@[j].0@ == d0[j].0@);
                    }
                    lemma_series_map_absent(d0, k);
                    assert(since(Seq::<PointView<N>>::empty(), cutoff as int) =~= Seq::<PointView<N>>::empty());
                }
            }
        }
    }

    /// Take the points of entry `i` out (leaving them empty).
    fn take_at(data: &mut Vec<(String, Vec<HistoryPoint<N>>)>, i: usize) -> (r: Vec<HistoryPoint<N>>)
        requires
            i < old(data)@.len(),
        ensures
            r@ == old(data)@[i as int].1@,
            final(data)@.len() == old(data)@.len(),
            forall|j: int| 0 <= j < old(data)@.len() ==> (#[trigger] final(data)@[j]).0 == old(data)@[j].0,
            forall|j: int| 0 <= j < old(data)@.len() && j != i ==> (#[trigger] final(data)@[j]).1 == old(data)@[j].1,
    {
        let k = data[i].0.clone();
        let (_, pts) = data.remove(i);
        data.insert(i, (k, Vec::new()));
        pts
    }
}

impl<N: Copy> HistoryStore<N> {
    /// The points of a provider within the last `hours` hours before `now`.
    pub fn query_range(&self, id: &str, now: i64, hours: u32) -> (r: Vec<HistoryPoint<N>>)
        requires
            now - hours * 3600000 >= i64::MIN,
        ensures
            points_view(r@) == since(self.series(id@), now - hours * 3600000),
    {
        proof {
            use_type_invariant(self);
        }
        let cutoff = now - (hours as i64) * 3600000;
        match Self::find(&self.data, id) {
            Some(i) => {
                proof {
                    lemma_series_map_index(self.data@, i as int);
                }
                copy_since(&self.data[i].1, cutoff)
            },
            None => {
                proof {
                    lemma_series_map_absent(self.data@, id@);
                }
                let r: Vec<HistoryPoint<N>> = Vec::new();
                assert(points_view(r@) =~= since(Seq::<PointView<N>>::empty(), cutoff as int));
                r
            },
        }
    }

    /// Every provider's series (for sync), one entry per provider.
    pub fn export_all(&self) -> (r: Vec<(String, Vec<HistoryPoint<N>>)>)
        ensures
            distinct_ids(r@),
            series_map(r@) == self.view_map(),
    {
        proof {
            use_type_invariant(self);
        }
        let mut r: Vec<(String, Vec<HistoryPoint<N>>)> = Vec::new();
        let n = self.data.len();
        let mut i: usize = 0;
        while i < n
            invariant
                n == self.data@.len(),
                i <= n,
                r@.len() == i,
                forall|j: int| 0 <= j < i ==> (#[trigger] r@[j]).0@ == self.data@[j].0@ && points_view(r@[j].1@) == points_view(self.data@[j].1@),
            decreases n - i,
        {
            let pts = copy_since(&self.data[i].1, i64::MIN);
            proof {
                lemma_since_all(points_view(self.data@[i as int].1@), i64::MIN as int);
            }
            r.push((self.data[i].0.clone(), pts));
            i = i + 1;
        }
        proof {
            lemma_same_series(r@, self.data@);
        }
        r
    }
}

proof fn lemma_since_all<N>(v: Seq<PointView<N>>, cutoff: int)
    requires
        forall|i: int| 0 <= i < v.len() ==> (#[trigger] v[i]).0 >= cutoff,
    ensures
        since(v, cutoff) == v,
    decreases v.len(),
{
    if v.len() > 0 {
        lemma_since_all(v.drop_last(), cutoff);
        assert(v.drop_last().push(v.last()) =~= v);
    }
}

proof fn lemma_same_series<N>(a: Seq<(String, Vec<HistoryPoint<N>>)>, b: Seq<(String, Vec<HistoryPoint<N>>)>)
    requires
        a.len() == b.len(),
        forall|j: int| 0 <= j < a.len() ==> (#[trigger] a[j]).0@ == b[j].0@ && points_view(a[j].1@) == points_view(b[j].1@),
    ensures
        series_map(a) == series_map(b),
        distinct_ids(b) ==> distinct_ids(a),
    decreases a.len(),
{
    if a.len() > 0 {
        assert forall|j: int| 0 <= j < a.len() - 1 implies (#[trigger] a.drop_last()[j]).0@ == b.drop_last()[j].0@ && points_view(a.drop_last()[j].1@) == points_view(b.drop_last()[j].1@) by {
            assert(a.drop_last()[j] == a[j] && b.drop_last()[j] == b[j]);
        }
        lemma_same_series(a.drop_last(), b.drop_last());
        assert(a[a.len() - 1] == a.last() && b[b.len() - 1] == b.last());
    }
    if distinct_ids(b) {
        assert forall|x: int, y: int| 0 <= x < y < a.len() implies (#[trigger] a[x]).0@ != (#[trigger] a[y]).0@ by {
            assert(b[x].0@ != b[y].0@);
        }
    }
}

/// Copies of the points at or after `cutoff`.
fn copy_since<N: Copy>(pts: &Vec<HistoryPoint<N>>, cutoff: i64) -> (r: Vec<HistoryPoint<N>>)
    ensures
        points_view(r@) == since(points_view(pts@), cutoff as int),
{
    let mut kept: Vec<HistoryPoint<N>> = Vec::new();
    let n = pts.len();
    let mut i: usize = 0;
    while i < n
        invariant
            n == pts@.len(),
            i <= n,
            points_view(kept@) == since(points_view(pts@.take(i as int)), cutoff as int),
        decreases n - i,
    {
        let p = &pts[i];
        assert(points_view(pts@.take(i + 1)).drop_last() =~= points_view(pts@.take(i as int)));
        assert(points_view(pts@.take(i + 1)).last() == point_view(*p));
        let ghost before = kept@;
        if p.timestamp >= cutoff {
            kept.push(HistoryPoint { timestamp: p.timestamp, used: p.used, limit: p.limit, state: p.state.clone() });
            assert(points_view(kept@) =~= points_view(before).push(point_view(*p)));
        }
        i = i + 1;
    }
    assert(pts@.take(n as int) =~= pts@);
    kept
}

/// The series a map gives a provider (empty when it has none).
pub open spec fn series_of<N>(m: Map<Seq<char>, Seq<PointView<N>>>, k: Seq<char>) -> Seq<PointView<N>> {
    if m.dom().contains(k) {
        m[k]
    } else {
        Seq::empty()
    }
}

/// The points of a snapshot that belong to provider `k`, in order.
pub open spec fn appended<N>(samples: Seq<(String, HistoryPoint<N>)>, k: Seq<char>) -> Seq<PointView<N>>
    decreases samples.len(),
{
    if samples.len() == 0 {
        Seq::empty()
    } else {
        let r = appended(samples.drop_last(), k);
        if samples.last().0@ == k {
            r.push(point_view(samples.last().1))
        } else {
            r
        }
    }
}

/// The map after an import: each imported provider's series replaced, in order.
pub open spec fn imported<N>(
    m: Map<Seq<char>, Seq<PointView<N>>>,
    entries: Seq<(String, Vec<HistoryPoint<N>>)>,
) -> Map<Seq<char>, Seq<PointView<N>>>
    decreases entries.len(),
{
    if entries.len() == 0 {
        m
    } else {
        imported(m, entries.drop_last()).insert(entries.last().0@, points_view(entries.last().1@))
    }
}

/// Pruning keeps exactly the points at or after the cutoff: a point is in
/// `since(v, cutoff)` if and only if it is in `v` and not older than the cutoff.
pub proof fn lemma_since_keeps_recent<N>(v: Seq<PointView<N>>, cutoff: int, x: PointView<N>)
    ensures
        since(v, cutoff).contains(x) <==> (v.contains(x) && x.0 >= cutoff),
    decreases v.len(),
{
    if v.len() > 0 {
        let t = v.drop_last();
        lemma_since_keeps_recent(t, cutoff, x);
        assert(v =~= t.push(v.last()));
        if t.contains(x) {
            let j = choose|j: int| 0 <= j < t.len() && t[j] == x;
            assert(v[j] == x);
        }
        if v.contains(x) && !t.contains(x) {
            let j = choose|j: int| 0 <= j < v.len() && v[j] == x;
            if j < t.len() {
                assert(t[j] == x);
            }
        }
        let r = since(t, cutoff);
        if v.last().0 >= cutoff {
            assert(since(v, cutoff) == r.push(v.last()));
            if r.push(v.last()).contains(x) {
                let j = choose|j: int| 0 <= j < r.len() + 1 && r.push(v.last())[j] == x;
                if j < r.len() {
                    assert(r[j] == x);
                }
            }
            if r.contains(x) {
                let j = choose|j: int| 0 <= j < r.len() && r[j] == x;
                assert(r.push(v.last())[j] == x);
            }
            assert(r.push(v.last())[r.len() as int] == v.last());
        }
    }
}

/// The points of a snapshot for provider `k` are the snapshot's points with that id.
proof fn lemma_appended_contains<N>(samples: Seq<(String, HistoryPoint<N>)>, k: Seq<char>, i: int)
    requires
        0 <= i < samples.len(),
        samples[i].0@ == k,
    ensures
        appended(samples, k).contains(point_view(samples[i].1)),
    decreases samples.len(),
{
    let t = samples.drop_last();
    let r = appended(t, k);
    if i < samples.len() - 1 {
        assert(t[i] == samples[i]);
        lemma_appended_contains(t, k, i);
        let j = choose|j: int| 0 <= j < r.len() && r[j] == point_view(samples[i].1);
        if samples.last().0@ == k {
            assert(r.push(point_view(samples.last().1))[j] == r[j]);
        }
    } else {
        assert(r.push(point_view(samples.last().1))[r.len() as int] == point_view(samples[i].1));
    }
}

/// A point recorded by `insert` at `now` is what a later `query_range` over a
/// window that covers it returns: inserting a snapshot and then querying a
/// provider gives back that provider's new point, as long as neither the
/// seven-day retention nor the queried window has passed it by.
pub proof fn lemma_inserted_point_is_queried<N>(
    before: Seq<PointView<N>>,
    samples: Seq<(String, HistoryPoint<N>)>,
    k: Seq<char>,
    i: int,
    now: int,
    window_start: int,
)
    requires
        0 <= i < samples.len(),
        samples[i].0@ == k,
        samples[i].1.timestamp >= now - RETENTION_MS,
        samples[i].1.timestamp >= window_start,
    ensures
        since(since(before + appended(samples, k), now - RETENTION_MS), window_start).contains(
            point_view(samples[i].1),
        ),
{
    let x = point_view(samples[i].1);
    let all = before + appended(samples, k);
    lemma_appended_contains(samples, k, i);
    let j = choose|j: int| 0 <= j < appended(samples, k).len() && appended(samples, k)[j] == x;
    assert(all[before.len() + j] == x);
    lemma_since_keeps_recent(all, now - RETENTION_MS, x);
    lemma_since_keeps_recent(since(all, now - RETENTION_MS), window_start, x);
}

/// Importing an export into an empty store reproduces the exported series.
pub proof fn lemma_import_of_export<N>(entries: Seq<(String, Vec<HistoryPoint<N>>)>)
    ensures
        imported(Map::empty(), entries) == series_map(entries),
    decreases entries.len(),
{
    if entries.len() > 0 {
        lemma_import_of_export(entries.drop_last());
    }
}

/// An import replaces the series of the providers it names and leaves every
/// other provider's series as it was.
pub proof fn lemma_import_keeps_others<N>(
    m: Map<Seq<char>, Seq<PointView<N>>>,
    entries: Seq<(String, Vec<HistoryPoint<N>>)>,
    k: Seq<char>,
)
    requires
        forall|i: int| 0 <= i < entries.len() ==> (#[trigger] entries[i]).0@ != k,
    ensures
        series_of(imported(m, entries), k) == series_of(m, k),
    decreases entries.len(),
{
    if entries.len() > 0 {
        let t = entries.drop_last();
        assert forall|i: int| 0 <= i < t.len() implies (#[trigger] t[i]).0@ != k by {
            assert(t[i] == entries[i]);
        }
        lemma_import_keeps_others(m, t, k);
        assert(entries[entries.len() - 1] == entries.last());
    }
}

/// The points at or after `cutoff`.
fn keep_since<N>(pts: Vec<HistoryPoint<N>>, cutoff: i64) -> (r: Vec<HistoryPoint<N>>)
    ensures
        points_view(r@) == since(points_view(pts@), cutoff as int),
{
    let mut pts = pts;
    let ghost all = pts@;
    let mut kept: Vec<HistoryPoint<N>> = Vec::new();
    let n = pts.len();
    let mut i: usize = 0;
    while i < n
        invariant
            n == all.len(),
            i <= n,
            pts@ == all.skip(i as int),
            points_view(kept@) == since(points_view(all.take(i as int)), cutoff as int),
        decreases n - i,
    {
        let p = pts.remove(0);
        assert(all[i as int] == p);
        assert(pts@ =~= all.skip(i + 1));
        assert(points_view(all.take(i + 1)).drop_last() =~= points_view(all.take(i as int)));
        assert(points_view(all.take(i + 1)).last() == point_view(p));
        let ghost before = kept@;
        if p.timestamp >= cutoff {
            kept.push(p);
            assert(points_view(kept@) =~= points_view(before).push(point_view(p)));
        }
        i = i + 1;
    }
    assert(all.take(n as int) =~= all);
    kept
}

} // verus!
