//! Threshold toasts: when to fire them, de-duplication per provider, and the
//! Do Not Disturb window.
use crate::models::ProviderMeta;
use crate::text::{concat, decimal, owned, parse_u32, parse_u32_spec, str_eq, trim, trim_spec, u64_to_decimal};
use vstd::prelude::*;
use vstd::string::*;

verus! {

/// Providers already warned about in this session (so the same state does not
/// fire again on every poll).
#[derive(Debug)]
pub struct NotifierState {
    pub fired: Vec<String>,
}

pub open spec fn fired_set(s: Seq<String>) -> Set<Seq<char>>
    decreases s.len(),
{
    if s.len() == 0 {
        Set::empty()
    } else {
        fired_set(s.drop_last()).insert(s.last()@)
    }
}

impl View for NotifierState {
    type V = Set<Seq<char>>;

    open spec fn view(&self) -> Set<Seq<char>> {
        fired_set(self.fired@)
    }
}

proof fn lemma_fired_prefix(s: Seq<String>, k: int)
    requires
        0 <= k <= s.len(),
    ensures
        fired_set(s.take(k)).subset_of(fired_set(s)),
    decreases s.len() - k,
{
    if k < s.len() {
        lemma_fired_prefix(s, k + 1);
        assert(s.take(k + 1).drop_last() =~= s.take(k));
    } else {
        assert(s.take(k) =~= s);
    }
}

/// One provider's reading in a snapshot: whether its remaining share is below
/// the toast threshold.
pub struct Reading {
    pub id: String,
    pub below: bool,
}

/// Effect of one reading: fire when newly below, forget when recovered.
pub open spec fn step_fired(fired: Set<Seq<char>>, id: Seq<char>, below: bool) -> Set<Seq<char>> {
    if below {
        fired.insert(id)
    } else {
        fired.remove(id)
    }
}

pub open spec fn step_fires(fired: Set<Seq<char>>, id: Seq<char>, below: bool) -> bool {
    below && !fired.contains(id)
}

/// Warned set after a snapshot's readings, in order.
pub open spec fn after_readings(fired: Set<Seq<char>>, rs: Seq<Reading>) -> Set<Seq<char>>
    decreases rs.len(),
{
    if rs.len() == 0 {
        fired
    } else {
        step_fired(after_readings(fired, rs.drop_last()), rs.last().id@, rs.last().below)
    }
}

/// Providers toasted for a snapshot, in order.
pub open spec fn toasts_for(fired: Set<Seq<char>>, rs: Seq<Reading>) -> Seq<Seq<char>>
    decreases rs.len(),
{
    if rs.len() == 0 {
        Seq::empty()
    } else {
        let f = after_readings(fired, rs.drop_last());
        let t = toasts_for(fired, rs.drop_last());
        if step_fires(f, rs.last().id@, rs.last().below) {
            t.push(rs.last().id@)
        } else {
            t
        }
    }
}

/// A snapshot names each provider at most once.
pub open spec fn distinct_ids(rs: Seq<Reading>) -> bool {
    forall|i: int, j: int| 0 <= i < j < rs.len() ==> (#[trigger] rs[i]).id@ != (#[trigger] rs[j]).id@
}

impl NotifierState {
    pub fn new() -> (r: NotifierState)
        ensures
            r@ == Set::<Seq<char>>::empty(),
    {
        let r = NotifierState { fired: Vec::new() };
        assert(r@ =~= Set::<Seq<char>>::empty());
        r
    }

    pub fn contains(&self, id: &str) -> (r: bool)
        ensures
            r == self@.contains(id@),
    {
        let n = self.fired.len();
        let mut i: usize = 0;
        while i < n
            invariant
                n == self.fired@.len(),
                i <= n,
                !fired_set(self.fired@.take(i as int)).contains(id@),
            decreases n - i,
        {
            assert(self.fired@.take(i + 1).drop_last() =~= self.fired@.take(i as int));
            if str_eq(self.fired[i].as_str(), id) {
                proof {
                    assert(self.fired@.take(i + 1).last() == self.fired@[i as int]);
                    lemma_fired_prefix(self.fired@, i + 1);
                }
                return true;
            }
            i = i + 1;
        }
        assert(self.fired@.take(n as int) =~= self.fired@);
        false
    }

    pub fn insert(&mut self, id: &str)
        ensures
            final(self)@ == old(self)@.insert(id@),
    {
        if !self.contains(id) {
            let ghost before = self.fired@;
            self.fired.push(owned(id));
            assert(self.fired@.drop_last() =~= before);
        } else {
            assert(self@.insert(id@) =~= self@);
        }
    }

    pub fn remove(&mut self, id: &str)
        ensures
            final(self)@ == old(self)@.remove(id@),
    {
        let ghost orig = self.fired@;
        let mut kept: Vec<String> = Vec::new();
        let n = self.fired.len();
        let mut i: usize = 0;
        assert(fired_set(kept@) =~= fired_set(orig.take(0)).remove(id@));
        while i < n
            invariant
                n == self.fired@.len(),
                self.fired@ == orig,
                i <= n,
                fired_set(kept@) == fired_set(orig.take(i as int)).remove(id@),
            decreases n - i,
        {
            assert(orig.take(i + 1).drop_last() =~= orig.take(i as int));
            let ghost before = kept@;
            if !str_eq(self.fired[i].as_str(), id) {
                kept.push(self.fired[i].clone());
                assert(kept@.drop_last() =~= before);
            }
            assert(fired_set(kept@) =~= fired_set(orig.take(i + 1)).remove(id@));
            i = i + 1;
        }
        assert(orig.take(n as int) =~= orig);
        self.fired = kept;
    }

    /// Process a snapshot: a provider that is below the threshold and was not
    /// yet warned about gets a toast (returned, in order) and is marked; one
    /// that is no longer below is unmarked, so its next dip fires again. With
    /// notifications off, or inside the Do Not Disturb window, nothing changes.
    pub fn evaluate(&mut self, readings: &Vec<Reading>, notify_enabled: bool, in_dnd: bool) -> (r: Vec<String>)
        ensures
            !notify_enabled || in_dnd ==> final(self)@ == old(self)@ && r@.len() == 0,
            notify_enabled && !in_dnd ==> final(self)@ == after_readings(old(self)@, readings@)
                && r@.map_values(|s: String| s@) == toasts_for(old(self)@, readings@),
    {
        let mut toasts: Vec<String> = Vec::new();
        if !notify_enabled || in_dnd {
            return toasts;
        }
        let ghost f0 = self@;
        let n = readings.len();
        let mut i: usize = 0;
        while i < n
            invariant
                n == readings@.len(),
                i <= n,
                self@ == after_readings(f0, readings@.take(i as int)),
                toasts@.map_values(|s: String| s@) == toasts_for(f0, readings@.take(i as int)),
            decreases n - i,
        {
            assert(readings@.take(i + 1).drop_last() =~= readings@.take(i as int));
            let rd = &readings[i];
            let already = self.contains(rd.id.as_str());
            if rd.below && !already {
                let ghost before = toasts@;
                toasts.push(rd.id.clone());
                assert(toasts@.map_values(|s: String| s@) =~= before.map_values(|s: String| s@).push(rd.id@));
                self.insert(rd.id.as_str());
            } else if !rd.below && already {
                self.remove(rd.id.as_str());
            } else if !rd.below {
                proof {
                    assert(self@.remove(rd.id@) =~= self@);
                }
            } else {
                proof {
                    assert(self@.insert(rd.id@) =~= self@);
                }
            }
            i = i + 1;
        }
        assert(readings@.take(n as int) =~= readings@);
        toasts
    }
}

/// After a snapshot whose providers are distinct, a provider of the snapshot
/// is marked exactly when it is below, and other providers keep their mark.
pub proof fn lemma_after_readings(fired: Set<Seq<char>>, rs: Seq<Reading>, k: Seq<char>)
    requires
        distinct_ids(rs),
    ensures
        (exists|i: int| 0 <= i < rs.len() && rs[i].id@ == k) ==> forall|i: int|
            0 <= i < rs.len() && #[trigger] rs[i].id@ == k ==> (after_readings(fired, rs).contains(k)
                == rs[i].below),
        (forall|i: int| 0 <= i < rs.len() ==> #[trigger] rs[i].id@ != k) ==> (after_readings(
            fired,
            rs,
        ).contains(k) == fired.contains(k)),
    decreases rs.len(),
{
    if rs.len() > 0 {
        let d = rs.drop_last();
        assert forall|i: int, j: int| 0 <= i < j < d.len() implies (#[trigger] d[i]).id@ != (
        #[trigger] d[j]).id@ by {
            assert(d[i] == rs[i] && d[j] == rs[j]);
        }
        lemma_after_readings(fired, d, k);
        if rs.last().id@ != k {
            assert forall|i: int| 0 <= i < d.len() && #[trigger] d[i].id@ == k implies true by {}
            if exists|i: int| 0 <= i < rs.len() && rs[i].id@ == k {
                let w = choose|i: int| 0 <= i < rs.len() && rs[i].id@ == k;
                assert(d[w] == rs[w]);
            }
            assert forall|i: int| 0 <= i < rs.len() && #[trigger] rs[i].id@ == k implies (after_readings(
                fired,
                rs,
            ).contains(k) == rs[i].below) by {
                assert(d[i] == rs[i]);
            }
            if forall|i: int| 0 <= i < rs.len() ==> #[trigger] rs[i].id@ != k {
                assert forall|i: int| 0 <= i < d.len() implies #[trigger] d[i].id@ != k by {
                    assert(d[i] == rs[i]);
                }
            }
        } else {
            assert forall|i: int| 0 <= i < rs.len() && #[trigger] rs[i].id@ == k implies (after_readings(
                fired,
                rs,
            ).contains(k) == rs[i].below) by {
                if i < rs.len() - 1 {
                    assert(rs[i].id@ == rs[rs.len() - 1].id@);
                }
            }
        }
    }
}

/// No toast for a provider the snapshot does not name.
proof fn lemma_toasts_named(fired: Set<Seq<char>>, rs: Seq<Reading>, j: int)
    requires
        0 <= j < toasts_for(fired, rs).len(),
    ensures
        exists|i: int| 0 <= i < rs.len() && rs[i].id@ == toasts_for(fired, rs)[j] && rs[i].below,
    decreases rs.len(),
{
    let d = rs.drop_last();
    let t = toasts_for(fired, d);
    if j < t.len() {
        lemma_toasts_named(fired, d, j);
        let i = choose|i: int| 0 <= i < d.len() && d[i].id@ == t[j] && d[i].below;
        assert(rs[i] == d[i]);
    } else {
        assert(rs[rs.len() - 1] == rs.last());
    }
}

/// A toast fires for a provider only if it was not marked before the snapshot
/// (snapshots with distinct providers).
pub proof fn lemma_toasts_fire_only_unmarked(fired: Set<Seq<char>>, rs: Seq<Reading>, j: int)
    requires
        distinct_ids(rs),
        0 <= j < toasts_for(fired, rs).len(),
    ensures
        !fired.contains(toasts_for(fired, rs)[j]),
    decreases rs.len(),
{
    let d = rs.drop_last();
    assert forall|a: int, b: int| 0 <= a < b < d.len() implies (#[trigger] d[a]).id@ != (
    #[trigger] d[b]).id@ by {
        assert(d[a] == rs[a] && d[b] == rs[b]);
    }
    let t = toasts_for(fired, d);
    let k = toasts_for(fired, rs)[j];
    if j < t.len() {
        lemma_toasts_fire_only_unmarked(fired, d, j);
    } else {
        let last = rs.last();
        assert(k == last.id@);
        assert forall|i: int| 0 <= i < d.len() implies #[trigger] d[i].id@ != k by {
            assert(d[i] == rs[i]);
            assert(rs[rs.len() - 1] == last);
        }
        lemma_after_readings(fired, d, k);
    }
}

/// De-duplication: evaluating the same snapshot again, right after it was
/// evaluated, fires no toast.
pub proof fn lemma_no_repeat_toast(fired: Set<Seq<char>>, rs: Seq<Reading>)
    requires
        distinct_ids(rs),
    ensures
        toasts_for(after_readings(fired, rs), rs).len() == 0,
{
    let f1 = after_readings(fired, rs);
    if toasts_for(f1, rs).len() > 0 {
        lemma_toasts_fire_only_unmarked(f1, rs, 0);
        lemma_toasts_named(f1, rs, 0);
        let k = toasts_for(f1, rs)[0];
        let i = choose|i: int| 0 <= i < rs.len() && rs[i].id@ == k && rs[i].below;
        lemma_after_readings(fired, rs, k);
        assert(f1.contains(k));
    }
}

/// A provider below the threshold that was not marked gets a toast
/// (snapshots with distinct providers).
pub proof fn lemma_toast_when_newly_below(fired: Set<Seq<char>>, rs: Seq<Reading>, j: int)
    requires
        distinct_ids(rs),
        0 <= j < rs.len(),
        rs[j].below,
        !fired.contains(rs[j].id@),
    ensures
        toasts_for(fired, rs).contains(rs[j].id@),
    decreases rs.len(),
{
    let d = rs.drop_last();
    let k = rs[j].id@;
    assert forall|a: int, b: int| 0 <= a < b < d.len() implies (#[trigger] d[a]).id@ != (
    #[trigger] d[b]).id@ by {
        assert(d[a] == rs[a] && d[b] == rs[b]);
    }
    if j < rs.len() - 1 {
        assert(d[j] == rs[j]);
        lemma_toast_when_newly_below(fired, d, j);
        let t = toasts_for(fired, d);
        let w = choose|w: int| 0 <= w < t.len() && t[w] == k;
        if step_fires(after_readings(fired, d), rs.last().id@, rs.last().below) {
            assert(toasts_for(fired, rs)[w] == k);
        }
    } else {
        assert forall|i: int| 0 <= i < d.len() implies #[trigger] d[i].id@ != k by {
            assert(d[i] == rs[i]);
        }
        lemma_after_readings(fired, d, k);
        let t = toasts_for(fired, rs);
        assert(t[t.len() - 1] == k);
    }
}

/// Reset on recovery: once a snapshot shows a provider no longer below the
/// threshold, its next dip below fires a toast again.
pub proof fn lemma_refire_after_recovery(
    fired: Set<Seq<char>>,
    recovered: Seq<Reading>,
    dipped: Seq<Reading>,
    i: int,
    j: int,
)
    requires
        distinct_ids(recovered),
        distinct_ids(dipped),
        0 <= i < recovered.len(),
        0 <= j < dipped.len(),
        !recovered[i].below,
        dipped[j].below,
        dipped[j].id@ == recovered[i].id@,
    ensures
        toasts_for(after_readings(fired, recovered), dipped).contains(dipped[j].id@),
{
    lemma_after_readings(fired, recovered, recovered[i].id@);
    lemma_toast_when_newly_below(after_readings(fired, recovered), dipped, j);
}

// ---------------------------------------------------------------------------
// Toast text
// ---------------------------------------------------------------------------

/// Toast title: "⚠️ <label> below <pct>%".
pub open spec fn toast_title_spec(label: Seq<char>, pct: u32) -> Seq<char> {
    "⚠️ "@ + label + " below "@ + decimal(pct as nat) + "%"@
}

pub fn toast_title(label: &str, pct: u32) -> (r: String)
    ensures
        r@ == toast_title_spec(label@, pct),
{
    let mut r = owned("⚠️ ");
    r.append(label);
    r.append(" below ");
    let d = u64_to_decimal(pct as u64);
    r.append(d.as_str());
    r.append("%");
    r
}

/// The label a toast names a provider by: its Settings label, else its id.
pub open spec fn toast_label_spec(metas: Seq<ProviderMeta>, id: Seq<char>) -> Seq<char>
    decreases metas.len(),
{
    if metas.len() == 0 {
        id
    } else if metas[0].id@ == id {
        metas[0].label@
    } else {
        toast_label_spec(metas.drop_first(), id)
    }
}

pub fn toast_label(metas: &Vec<ProviderMeta>, id: &str) -> (r: String)
    ensures
        r@ == toast_label_spec(metas@, id@),
{
    let n = metas.len();
    let mut i: usize = 0;
    assert(metas@.skip(0) =~= metas@);
    while i < n
        invariant
            n == metas@.len(),
            i <= n,
            toast_label_spec(metas@, id@) == toast_label_spec(metas@.skip(i as int), id@),
        decreases n - i,
    {
        assert(metas@.skip(i as int).drop_first() =~= metas@.skip(i + 1));
        assert(metas@.skip(i as int)[0] == metas@[i as int]);
        if str_eq(metas[i].id.as_str(), id) {
            return metas[i].label.clone();
        }
        i = i + 1;
    }
    owned(id)
}

/// Toast body for a provider without a primary metric: its error, else a prompt.
pub fn fallback_body(error: &Option<String>) -> (r: String)
    ensures
        r@ == match error {
            Some(e) => e@,
            None => "check provider"@,
        },
{
    match error {
        Some(e) => e.clone(),
        None => owned("check provider"),
    }
}

/// The toast names a provider by the label of the first Settings entry with its
/// id; only when no entry has that id is the id itself used.
pub proof fn lemma_toast_label_first_match(metas: Seq<ProviderMeta>, id: Seq<char>)
    ensures
        forall|j: int|
            0 <= j < metas.len() && metas[j].id@ == id && (forall|k: int| 0 <= k < j ==> (#[trigger] metas[k]).id@ != id)
                ==> toast_label_spec(metas, id) == (#[trigger] metas[j]).label@,
        (forall|k: int| 0 <= k < metas.len() ==> (#[trigger] metas[k]).id@ != id) ==> toast_label_spec(metas, id) == id,
    decreases metas.len(),
{
    if metas.len() > 0 {
        let t = metas.drop_first();
        lemma_toast_label_first_match(t, id);
        assert forall|j: int|
            0 <= j < metas.len() && metas[j].id@ == id && (forall|k: int| 0 <= k < j ==> (#[trigger] metas[k]).id@ != id)
                implies toast_label_spec(metas, id) == (#[trigger] metas[j]).label@ by {
            if j > 0 {
                assert(metas[0].id@ != id);
                assert(t[j - 1] == metas[j]);
                assert forall|k: int| 0 <= k < j - 1 implies (#[trigger] t[k]).id@ != id by {
                    assert(t[k] == metas[k + 1]);
                }
            }
        }
        if forall|k: int| 0 <= k < metas.len() ==> (#[trigger] metas[k]).id@ != id {
            assert(metas[0].id@ != id);
            assert forall|k: int| 0 <= k < t.len() implies (#[trigger] t[k]).id@ != id by {
                assert(t[k] == metas[k + 1]);
            }
        }
    }
}

// ---------------------------------------------------------------------------
// Do Not Disturb
// ---------------------------------------------------------------------------

/// `i` is the only `:` in `s`.
pub open spec fn sole_colon(s: Seq<char>, i: int) -> bool {
    &&& 0 <= i < s.len()
    &&& s[i] == ':'
    &&& forall|j: int| 0 <= j < s.len() && j != i ==> #[trigger] s[j] != ':'
}

/// "HH:MM" (each part may carry surrounding whitespace) as hours and minutes.
pub open spec fn parse_hhmm_spec(s: Seq<char>) -> Option<(u32, u32)> {
    if exists|i: int| sole_colon(s, i) {
        let i = choose|i: int| sole_colon(s, i);
        let h = parse_u32_spec(trim_spec(s.take(i)));
        let m = parse_u32_spec(trim_spec(s.skip(i + 1)));
        match (h, m) {
            (Some(h), Some(m)) => if h <= 23 && m <= 59 {
                Some((h, m))
            } else {
                None
            },
            _ => None,
        }
    } else {
        None
    }
}

pub fn parse_hhmm(s: &str) -> (r: Option<(u32, u32)>)
    ensures
        r == parse_hhmm_spec(s@),
{
    let n = s.unicode_len();
    let mut count: usize = 0;
    let mut first: usize = 0;
    let mut i: usize = 0;
    while i < n
        invariant
            n == s@.len(),
            i <= n,
            count <= i,
            count == 0 ==> forall|j: int| 0 <= j < i ==> #[trigger] s@[j] != ':',
            count >= 1 ==> first < i && s@[first as int] == ':' && forall|j: int|
                0 <= j < first ==> #[trigger] s@[j] != ':',
            count == 1 ==> forall|j: int| 0 <= j < i && j != first ==> #[trigger] s@[j] != ':',
            count >= 2 ==> exists|j: int| 0 <= j < i && j != first && #[trigger] s@[j] == ':',
        decreases n - i,
    {
        if s.get_char(i) == ':' {
            if count == 0 {
                first = i;
            }
            count = count + 1;
        }
        i = i + 1;
    }
    if count != 1 {
        proof {
            if exists|k: int| sole_colon(s@, k) {
                let k = choose|k: int| sole_colon(s@, k);
                if count >= 2 {
                    let j = choose|j: int| 0 <= j < n && j != first && #[trigger] s@[j] == ':';
                    assert(s@[first as int] == ':');
                }
            }
        }
        return None;
    }
    proof {
        assert(sole_colon(s@, first as int));
        let k = choose|k: int| sole_colon(s@, k);
        assert(k == first);
    }
    let hs = s.substring_char(0, first);
    let ms = s.substring_char(first + 1, n);
    assert(hs@ =~= s@.take(first as int));
    assert(ms@ =~= s@.skip(first + 1));
    let ht = trim(hs);
    let mt = trim(ms);
    let h = parse_u32(ht.as_str());
    let m = parse_u32(mt.as_str());
    match (h, m) {
        (Some(h), Some(m)) => if h <= 23 && m <= 59 {
            Some((h, m))
        } else {
            None
        },
        _ => None,
    }
}

/// Whether minute-of-day `now` lies in a window from `start` to `end` (minutes
/// of day); a window whose start is after its end runs overnight.
pub open spec fn in_window(start: nat, end: nat, now: nat) -> bool {
    if start <= end {
        start <= now && now < end
    } else {
        now >= start || now < end
    }
}

/// A Do Not Disturb window runs from its start minute up to (not including) its
/// end minute, going past midnight when the end is earlier than the start: a
/// minute is silenced exactly when fewer minutes have passed since the start
/// (around the clock) than the window lasts. Equal ends silence nothing.
pub proof fn lemma_window_is_clock_interval(start: nat, end: nat, now: nat)
    requires
        start < 1440,
        end < 1440,
        now < 1440,
    ensures
        in_window(start, end, now) == ((now - start + 1440) % 1440 < (end - start + 1440) % 1440),
{
}

/// Notifications are silenced at minute `now` exactly when both ends are set
/// and read as "HH:MM", and `now` lies in the window from the start time up to
/// the end time (around midnight when the end is earlier).
pub proof fn lemma_dnd_silences_window(start: Option<Seq<char>>, end: Option<Seq<char>>, now: nat)
    requires
        now < 1440,
    ensures
        in_dnd_spec(start, end, now) == (match (start, end) {
            (Some(a), Some(b)) => match (parse_hhmm_spec(a), parse_hhmm_spec(b)) {
                (Some((sh, sm)), Some((eh, em))) => (now - (sh * 60 + sm) + 1440) % 1440 < ((eh * 60 + em) - (sh
                    * 60 + sm) + 1440) % 1440,
                _ => false,
            },
            _ => false,
        }),
{
    match (start, end) {
        (Some(a), Some(b)) => match (parse_hhmm_spec(a), parse_hhmm_spec(b)) {
            (Some((sh, sm)), Some((eh, em))) => {
                assert(sh <= 23 && sm <= 59 && eh <= 23 && em <= 59) by {
                    lemma_parse_hhmm_bounds(a);
                    lemma_parse_hhmm_bounds(b);
                }
                lemma_window_is_clock_interval((sh * 60 + sm) as nat, (eh * 60 + em) as nat, now);
            },
            _ => {},
        },
        _ => {},
    }
}

proof fn lemma_parse_hhmm_bounds(s: Seq<char>)
    ensures
        parse_hhmm_spec(s) matches Some((h, m)) ==> h <= 23 && m <= 59,
{
}

/// Whether notifications are silenced at minute-of-day `now_min`: both ends
/// must be set and valid "HH:MM" times.
pub open spec fn in_dnd_spec(start: Option<Seq<char>>, end: Option<Seq<char>>, now_min: nat) -> bool {
    match (start, end) {
        (Some(a), Some(b)) => match (parse_hhmm_spec(a), parse_hhmm_spec(b)) {
            (Some((sh, sm)), Some((eh, em))) => in_window(
                (sh * 60 + sm) as nat,
                (eh * 60 + em) as nat,
                now_min,
            ),
            _ => false,
        },
        _ => false,
    }
}

pub fn is_in_dnd_window(dnd_start: &Option<String>, dnd_end: &Option<String>, now_min: u32) -> (r: bool)
    ensures
        r == in_dnd_spec(crate::models::opt_str(*dnd_start), crate::models::opt_str(*dnd_end), now_min as nat),
{
    let (start, end) = match (dnd_start, dnd_end) {
        (Some(a), Some(b)) => (a, b),
        _ => {
            return false;
        },
    };
    let (sh, sm) = match parse_hhmm(start.as_str()) {
        Some(x) => x,
        None => {
            return false;
        },
    };
    let (eh, em) = match parse_hhmm(end.as_str()) {
        Some(x) => x,
        None => {
            return false;
        },
    };
    let start_min = sh * 60 + sm;
    let end_min = eh * 60 + em;
    if start_min <= end_min {
        now_min >= start_min && now_min < end_min
    } else {
        now_min >= start_min || now_min < end_min
    }
}

/// The minute of the day of an hour and a minute.
pub fn minute_of_day(hour: u32, minute: u32) -> (r: u32)
    requires
        hour < 24,
        minute < 60,
    ensures
        r == hour * 60 + minute,
        r < 1440,
{
    hour * 60 + minute
}

/// Whether notifications are silenced now, with the minute of the local day
/// that was read (the local clock is read once).
pub fn in_dnd_now(dnd_start: &Option<String>, dnd_end: &Option<String>) -> (r: (bool, u32))
    ensures
        r.1 < 1440,
        r.0 == in_dnd_spec(crate::models::opt_str(*dnd_start), crate::models::opt_str(*dnd_end), r.1 as nat),
{
    let (h, m) = crate::clock::local_hour_minute();
    let now_min = minute_of_day(h, m);
    (is_in_dnd_window(dnd_start, dnd_end, now_min), now_min)
}

} // verus!
