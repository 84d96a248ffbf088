//! Collecting the issue enumerations (statuses, priorities, trackers) by
//! paging through the issue list.
//!
//! The scan is a state machine: `next_action` says which page to fetch (or
//! that the scan is complete) and `record_page` takes the page that came
//! back. Each enumeration is kept as a table sorted by id with no id twice;
//! a later name for an id replaces the earlier one.

use vstd::prelude::*;
use crate::messages::reported_total;

verus! {

/// One value of an issue enumeration.
pub struct EnumerationValue {
    pub id: i32,
    pub name: String,
}

/// The (id, name) pairs of a list of enumeration values.
pub open spec fn value_pairs(v: Seq<EnumerationValue>) -> Seq<(i32, Seq<char>)> {
    v.map_values(|e: EnumerationValue| (e.id, e.name@))
}

/// Sorted by id, and no id occurs twice.
pub open spec fn ids_strictly_increasing(s: Seq<(i32, Seq<char>)>) -> bool {
    forall|i: int, j: int| 0 <= i < j < s.len() ==> s[i].0 < s[j].0
}

/// The map from id to name that a list of pairs shows.
pub open spec fn listed_map(s: Seq<(i32, Seq<char>)>) -> Map<i32, Seq<char>> {
    Map::new(
        |k: i32| exists|i: int| #![trigger s[i]] 0 <= i < s.len() && s[i].0 == k,
        |k: i32| s[choose|i: int| #![trigger s[i]] 0 <= i < s.len() && s[i].0 == k].1,
    )
}

/// Inserts the pairs into `m` in order; a later pair wins over an earlier
/// pair (or an entry of `m`) with the same id.
pub open spec fn absorb(m: Map<i32, Seq<char>>, pairs: Seq<(i32, Seq<char>)>) -> Map<i32, Seq<char>>
    decreases pairs.len(),
{
    if pairs.len() == 0 {
        m
    } else {
        absorb(m, pairs.drop_last()).insert(pairs.last().0, pairs.last().1)
    }
}

proof fn lemma_listed_lookup(s: Seq<(i32, Seq<char>)>, i: int)
    requires
        ids_strictly_increasing(s),
        0 <= i < s.len(),
    ensures
        listed_map(s).dom().contains(s[i].0),
        listed_map(s)[s[i].0] == s[i].1,
{
    let e = s[i];
    assert(0 <= i < s.len() && s[i].0 == e.0);
    assert(exists|j: int| #![trigger s[j]] 0 <= j < s.len() && s[j].0 == e.0);
    let c = choose|j: int| #![trigger s[j]] 0 <= j < s.len() && s[j].0 == e.0;
    if c < i {
        assert(s[c].0 < s[i].0);
    } else if c > i {
        assert(s[i].0 < s[c].0);
    }
}

/// Enumeration values sorted by id, no id twice.
pub struct EnumerationTable {
    entries: Vec<EnumerationValue>,
}

impl EnumerationTable {
    /// The (id, name) pairs in table order.
    pub closed spec fn pairs(&self) -> Seq<(i32, Seq<char>)> {
        value_pairs(self.entries@)
    }

    /// The map from id to name.
    pub open spec fn map(&self) -> Map<i32, Seq<char>> {
        listed_map(self.pairs())
    }

    pub open spec fn wf(&self) -> bool {
        ids_strictly_increasing(self.pairs())
    }

    pub fn new() -> (t: Self)
        ensures
            t.wf(),
            t.pairs() == Seq::<(i32, Seq<char>)>::empty(),
            t.map() == Map::<i32, Seq<char>>::empty(),
    {
        let t = EnumerationTable { entries: Vec::new() };
        assert(t.pairs() =~= Seq::<(i32, Seq<char>)>::empty());
        assert(t.map() =~= Map::<i32, Seq<char>>::empty());
        t
    }

    /// Sets the name of `id`, adding the id where it is missing.
    pub fn upsert(&mut self, id: i32, name: String)
        requires
            old(self).wf(),
        ensures
            final(self).wf(),
            final(self).map() == old(self).map().insert(id, name@),
    {
        let ghost op = self.pairs();
        let mut i: usize = 0;
        while i < self.entries.len() && self.entries[i].id < id
            invariant
                i <= self.entries.len(),
                op == self.pairs(),
                ids_strictly_increasing(op),
                forall|k: int| 0 <= k < i ==> op[k].0 < id,
            decreases self.entries.len() - i,
        {
            i = i + 1;
        }
        let ghost oldm = listed_map(op);
        let found = i < self.entries.len() && self.entries[i].id == id;
        if found {
            assert(op[i as int].0 == id);
            self.entries.set(i, EnumerationValue { id, name });
            let ghost np = self.pairs();
            assert(np =~= op.update(i as int, (id, name@)));
            assert(ids_strictly_increasing(np));
            proof {
                let newm = listed_map(np);
                let want = oldm.insert(id, name@);
                assert forall|k: i32| #[trigger] newm.dom().contains(k) <==> want.dom().contains(k) by {
                    if newm.dom().contains(k) {
                        let j = choose|j: int| #![trigger np[j]] 0 <= j < np.len() && np[j].0 == k;
                        if j != i {
                            assert(op[j].0 == k);
                        }
                    }
                    if want.dom().contains(k) && k != id {
                        let j = choose|j: int| #![trigger op[j]] 0 <= j < op.len() && op[j].0 == k;
                        assert(np[j].0 == k);
                    }
                    if k == id {
                        assert(np[i as int].0 == k);
                    }
                }
                assert forall|k: i32| newm.dom().contains(k) implies #[trigger] newm[k] == want[k] by {
                    let j = choose|j: int| #![trigger np[j]] 0 <= j < np.len() && np[j].0 == k;
                    lemma_listed_lookup(np, j);
                    if j != i {
                        lemma_listed_lookup(op, j);
                        if j < i {
                            assert(op[j].0 < op[i as int].0);
                        } else {
                            assert(op[i as int].0 < op[j].0);
                        }
                    }
                }
                assert(newm =~= want);
            }
        } else {
            self.entries.insert(i, EnumerationValue { id, name });
            let ghost np = self.pairs();
            assert(np =~= op.insert(i as int, (id, name@)));
            assert(ids_strictly_increasing(np)) by {
                assert forall|a: int, b: int| 0 <= a < b < np.len() implies np[a].0 < np[b].0 by {
                    if i < op.len() {
                        assert(id < op[i as int].0);
                    }
                    if a < i && b > i {
                        assert(op[a].0 < id);
                    }
                    if a == i && b > i + 1 {
                        assert(op[i as int].0 <= op[b - 1].0);
                    }
                }
            }
            proof {
                let newm = listed_map(np);
                let want = oldm.insert(id, name@);
                assert forall|k: i32| #[trigger] newm.dom().contains(k) <==> want.dom().contains(k) by {
                    if newm.dom().contains(k) {
                        let j = choose|j: int| #![trigger np[j]] 0 <= j < np.len() && np[j].0 == k;
                        if j < i {
                            assert(op[j].0 == k);
                        } else if j > i {
                            assert(op[j - 1].0 == k);
                        }
                    }
                    if want.dom().contains(k) && k != id {
                        let j = choose|j: int| #![trigger op[j]] 0 <= j < op.len() && op[j].0 == k;
                        if j < i {
                            assert(np[j].0 == k);
                        } else {
                            assert(np[j + 1].0 == k);
                        }
                    }
                    if k == id {
                        assert(np[i as int].0 == k);
                    }
                }
                assert forall|k: i32| newm.dom().contains(k) implies #[trigger] newm[k] == want[k] by {
                    let j = choose|j: int| #![trigger np[j]] 0 <= j < np.len() && np[j].0 == k;
                    lemma_listed_lookup(np, j);
                    if j < i {
                        lemma_listed_lookup(op, j);
                        assert(op[j].0 < id);
                    } else if j > i {
                        lemma_listed_lookup(op, j - 1);
                        assert(id < op[i as int].0);
                        assert(op[i as int].0 <= op[j - 1].0);
                    }
                }
                assert(newm =~= want);
            }
        }
    }

    /// The values, sorted by id.
    pub fn into_values(self) -> (v: Vec<EnumerationValue>)
        requires
            self.wf(),
        ensures
            ids_strictly_increasing(value_pairs(v@)),
            listed_map(value_pairs(v@)) == self.map(),
    {
        self.entries
    }
}


/// What the enumerations of one issue hold.
pub struct IssueEnumerationFacts {
    pub status: EnumerationValue,
    pub priority: EnumerationValue,
    pub tracker: EnumerationValue,
}

pub open spec fn status_pairs(page: Seq<IssueEnumerationFacts>) -> Seq<(i32, Seq<char>)> {
    page.map_values(|f: IssueEnumerationFacts| (f.status.id, f.status.name@))
}

pub open spec fn priority_pairs(page: Seq<IssueEnumerationFacts>) -> Seq<(i32, Seq<char>)> {
    page.map_values(|f: IssueEnumerationFacts| (f.priority.id, f.priority.name@))
}

pub open spec fn tracker_pairs(page: Seq<IssueEnumerationFacts>) -> Seq<(i32, Seq<char>)> {
    page.map_values(|f: IssueEnumerationFacts| (f.tracker.id, f.tracker.name@))
}

/// Issues requested per page.
pub const PAGE_LIMIT: u32 = 100;

/// The most pages that one scan requests.
pub const MAX_PAGES: u32 = 20;

/// What the scan asks for next.
pub enum ScanAction {
    /// Fetch the issues page with this limit and offset.
    FetchPage { limit: u32, offset: u32 },
    /// The scan is over; take the result.
    Complete,
}

/// The three enumerations, each sorted by id.
pub struct IssueEnumerationsResponse {
    pub statuses: Vec<EnumerationValue>,
    pub priorities: Vec<EnumerationValue>,
    pub trackers: Vec<EnumerationValue>,
}

/// A scan of the issue list that collects its enumerations.
pub struct EnumerationScan {
    statuses: EnumerationTable,
    priorities: EnumerationTable,
    trackers: EnumerationTable,
    offset: u32,
    iteration: u32,
    awaiting: bool,
    finished: bool,
}

impl EnumerationScan {
    pub closed spec fn statuses(&self) -> Map<i32, Seq<char>> {
        self.statuses.map()
    }

    pub closed spec fn priorities(&self) -> Map<i32, Seq<char>> {
        self.priorities.map()
    }

    pub closed spec fn trackers(&self) -> Map<i32, Seq<char>> {
        self.trackers.map()
    }

    /// Offset of the next page.
    pub closed spec fn offset(&self) -> u32 {
        self.offset
    }

    /// How often `next_action` has been taken while the scan ran.
    pub closed spec fn rounds(&self) -> u32 {
        self.iteration
    }

    /// A page was requested and has not been recorded yet.
    pub closed spec fn awaiting(&self) -> bool {
        self.awaiting
    }

    pub closed spec fn finished(&self) -> bool {
        self.finished
    }

    pub closed spec fn wf(&self) -> bool {
        &&& self.statuses.wf()
        &&& self.priorities.wf()
        &&& self.trackers.wf()
        &&& self.iteration <= MAX_PAGES + 1
        &&& self.iteration == MAX_PAGES + 1 ==> self.finished
        &&& self.awaiting ==> {
            &&& !self.finished
            &&& 1 <= self.iteration <= MAX_PAGES
            &&& self.offset + PAGE_LIMIT <= PAGE_LIMIT * self.iteration
        }
        &&& !self.awaiting ==> self.offset <= PAGE_LIMIT * self.iteration
    }

    /// A scan that has seen nothing yet.
    pub fn new() -> (s: Self)
        ensures
            s.wf(),
            s.statuses() == Map::<i32, Seq<char>>::empty(),
            s.priorities() == Map::<i32, Seq<char>>::empty(),
            s.trackers() == Map::<i32, Seq<char>>::empty(),
            s.offset() == 0,
            s.rounds() == 0,
            !s.awaiting(),
            !s.finished(),
    {
        EnumerationScan {
            statuses: EnumerationTable::new(),
            priorities: EnumerationTable::new(),
            trackers: EnumerationTable::new(),
            offset: 0,
            iteration: 0,
            awaiting: false,
            finished: false,
        }
    }

    /// Whether a requested page is still to be recorded.
    pub fn awaiting_page(&self) -> (r: bool)
        ensures
            r == self.awaiting(),
    {
        self.awaiting
    }

    /// The next step of the scan: another page, or the end. A scan asks
    /// for at most `MAX_PAGES` pages.
    pub fn next_action(&mut self) -> (r: ScanAction)
        requires
            old(self).wf(),
            !old(self).awaiting(),
        ensures
            final(self).wf(),
            final(self).statuses() == old(self).statuses(),
            final(self).priorities() == old(self).priorities(),
            final(self).trackers() == old(self).trackers(),
            final(self).offset() == old(self).offset(),
            old(self).finished() ==> r == ScanAction::Complete && final(self).rounds() == old(
                self,
            ).rounds() && final(self).finished() && !final(self).awaiting(),
            !old(self).finished() ==> final(self).rounds() == old(self).rounds() + 1,
            !old(self).finished() && old(self).rounds() + 1 > MAX_PAGES ==> r == ScanAction::Complete
                && final(self).finished() && !final(self).awaiting(),
            !old(self).finished() && old(self).rounds() + 1 <= MAX_PAGES ==> r == (
            ScanAction::FetchPage { limit: PAGE_LIMIT, offset: old(self).offset() })
                && final(self).awaiting() && !final(self).finished(),
            r is FetchPage ==> final(self).rounds() <= MAX_PAGES,
    {
        if self.finished {
            return ScanAction::Complete;
        }
        self.iteration = self.iteration + 1;
        if self.iteration > MAX_PAGES {
            self.finished = true;
            ScanAction::Complete
        } else {
            self.awaiting = true;
            ScanAction::FetchPage { limit: PAGE_LIMIT, offset: self.offset }
        }
    }

    /// Records the page that was requested. An empty page ends the scan;
    /// otherwise its enumerations are taken in, the offset moves on by one
    /// page, and the scan ends once the offset reaches the reported total.
    pub fn record_page(&mut self, issues: &Vec<IssueEnumerationFacts>, total_count: Option<i32>)
        requires
            old(self).wf(),
            old(self).awaiting(),
        ensures
            final(self).wf(),
            !final(self).awaiting(),
            final(self).rounds() == old(self).rounds(),
            issues.len() == 0 ==> {
                &&& final(self).finished()
                &&& final(self).statuses() == old(self).statuses()
                &&& final(self).priorities() == old(self).priorities()
                &&& final(self).trackers() == old(self).trackers()
                &&& final(self).offset() == old(self).offset()
            },
            issues.len() > 0 ==> {
                &&& final(self).statuses() == absorb(old(self).statuses(), status_pairs(issues@))
                &&& final(self).priorities() == absorb(old(self).priorities(), priority_pairs(issues@))
                &&& final(self).trackers() == absorb(old(self).trackers(), tracker_pairs(issues@))
                &&& final(self).offset() == old(self).offset() + PAGE_LIMIT
                &&& final(self).finished() == (final(self).offset() >= #[verifier::truncate] (
                reported_total(total_count, issues.len() as nat) as u32))
            },
    {
        let ghost was = *old(self);
        assert(was.offset + PAGE_LIMIT <= PAGE_LIMIT * was.iteration);
        self.awaiting = false;
        if issues.len() == 0 {
            self.finished = true;
            return;
        }
        let ghost s0 = self.statuses.map();
        let ghost p0 = self.priorities.map();
        let ghost t0 = self.trackers.map();
        let mut k: usize = 0;
        while k < issues.len()
            invariant
                k <= issues.len(),
                self.statuses.wf(),
                self.priorities.wf(),
                self.trackers.wf(),
                self.statuses.map() == absorb(s0, status_pairs(issues@).take(k as int)),
                self.priorities.map() == absorb(p0, priority_pairs(issues@).take(k as int)),
                self.trackers.map() == absorb(t0, tracker_pairs(issues@).take(k as int)),
                self.offset == was.offset,
                self.iteration == was.iteration,
                self.finished == was.finished,
                !self.awaiting,
                was.offset + PAGE_LIMIT <= PAGE_LIMIT * was.iteration,
                was.iteration <= MAX_PAGES,
                !was.finished,
            decreases issues.len() - k,
        {
            let issue = &issues[k];
            self.statuses.upsert(issue.status.id, issue.status.name.clone());
            self.priorities.upsert(issue.priority.id, issue.priority.name.clone());
            self.trackers.upsert(issue.tracker.id, issue.tracker.name.clone());
            proof {
                assert(status_pairs(issues@).take(k + 1).drop_last() =~= status_pairs(issues@).take(
                    k as int,
                ));
                assert(priority_pairs(issues@).take(k + 1).drop_last() =~= priority_pairs(
                    issues@,
                ).take(k as int));
                assert(tracker_pairs(issues@).take(k + 1).drop_last() =~= tracker_pairs(
                    issues@,
                ).take(k as int));
            }
            k = k + 1;
        }
        assert(status_pairs(issues@).take(issues.len() as int) =~= status_pairs(issues@));
        assert(priority_pairs(issues@).take(issues.len() as int) =~= priority_pairs(issues@));
        assert(tracker_pairs(issues@).take(issues.len() as int) =~= tracker_pairs(issues@));
        let total: i32 = match total_count {
            Some(t) => t,
            None => #[verifier::truncate] (issues.len() as i32),
        };
        self.offset = self.offset + PAGE_LIMIT;
        if self.offset >= #[verifier::truncate] (total as u32) {
            self.finished = true;
        }
    }

    /// The collected enumerations, each sorted by id.
    pub fn into_response(self) -> (r: IssueEnumerationsResponse)
        requires
            self.wf(),
        ensures
            ids_strictly_increasing(value_pairs(r.statuses@)),
            ids_strictly_increasing(value_pairs(r.priorities@)),
            ids_strictly_increasing(value_pairs(r.trackers@)),
            listed_map(value_pairs(r.statuses@)) == self.statuses(),
            listed_map(value_pairs(r.priorities@)) == self.priorities(),
            listed_map(value_pairs(r.trackers@)) == self.trackers(),
    {
        IssueEnumerationsResponse {
            statuses: self.statuses.into_values(),
            priorities: self.priorities.into_values(),
            trackers: self.trackers.into_values(),
        }
    }
}

/// Law: an id that a scanned page shows is in the result, with the name
/// of its last occurrence.
pub proof fn lemma_absorb_last_name_wins(m: Map<i32, Seq<char>>, pairs: Seq<(i32, Seq<char>)>, i: int)
    requires
        0 <= i < pairs.len(),
        forall|j: int| i < j < pairs.len() ==> #[trigger] pairs[j].0 != pairs[i].0,
    ensures
        absorb(m, pairs).dom().contains(pairs[i].0),
        absorb(m, pairs)[pairs[i].0] == pairs[i].1,
    decreases pairs.len(),
{
    if i < pairs.len() - 1 {
        let p = pairs.drop_last();
        assert forall|j: int| i < j < p.len() implies #[trigger] p[j].0 != p[i].0 by {
            assert(p[j] == pairs[j]);
        }
        lemma_absorb_last_name_wins(m, p, i);
        assert(pairs[pairs.len() - 1].0 != pairs[i].0);
    }
}

/// Law: the ids of the result are the ids known before and the ids that
/// the scanned pages show, and no others.
pub proof fn lemma_absorb_domain(m: Map<i32, Seq<char>>, pairs: Seq<(i32, Seq<char>)>, k: i32)
    ensures
        absorb(m, pairs).dom().contains(k) <==> (m.dom().contains(k) || exists|j: int|
            0 <= j < pairs.len() && #[trigger] pairs[j].0 == k),
    decreases pairs.len(),
{
    if pairs.len() > 0 {
        let p = pairs.drop_last();
        lemma_absorb_domain(m, p, k);
        if exists|j: int| 0 <= j < pairs.len() && #[trigger] pairs[j].0 == k {
            let j = choose|j: int| 0 <= j < pairs.len() && #[trigger] pairs[j].0 == k;
            if j < pairs.len() - 1 {
                assert(p[j].0 == k);
            }
        }
        if exists|j: int| 0 <= j < p.len() && #[trigger] p[j].0 == k {
            let j = choose|j: int| 0 <= j < p.len() && #[trigger] p[j].0 == k;
            assert(pairs[j].0 == k);
        }
    }
}

/// Law: a name that no scanned page mentions again stays as it was.
pub proof fn lemma_absorb_keeps_unseen(m: Map<i32, Seq<char>>, pairs: Seq<(i32, Seq<char>)>, k: i32)
    requires
        m.dom().contains(k),
        forall|j: int| 0 <= j < pairs.len() ==> #[trigger] pairs[j].0 != k,
    ensures
        absorb(m, pairs).dom().contains(k),
        absorb(m, pairs)[k] == m[k],
    decreases pairs.len(),
{
    if pairs.len() > 0 {
        let p = pairs.drop_last();
        assert forall|j: int| 0 <= j < p.len() implies #[trigger] p[j].0 != k by {
            assert(p[j] == pairs[j]);
        }
        lemma_absorb_keeps_unseen(m, p, k);
        assert(pairs[pairs.len() - 1].0 != k);
    }
}

} // verus!
