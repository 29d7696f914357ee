//! The deduplication store: one record per fingerprint, with the atomic
//! insert-or-increment that decides which reporter owns a failure.

use vstd::prelude::*;

verus! {

/// What the store keeps for one fingerprint: the notification reference, the
/// occurrence count and the full diagnostic text.
pub type StoredView = (u64, u64, Seq<char>);

/// The contents of a store, by fingerprint.
pub type StoreView = Map<Seq<u8>, StoredView>;

/// Every stored record counts at least one occurrence.
pub open spec fn counts_positive(m: StoreView) -> bool {
    forall|fp: Seq<u8>| #[trigger] m.contains_key(fp) ==> m[fp].1 >= 1
}

/// The occurrence count after one more occurrence; it stays at the largest
/// value once there.
pub open spec fn bump(count: u64) -> u64 {
    if count < u64::MAX {
        (count + 1) as u64
    } else {
        count
    }
}

/// The store after an update that only counts an occurrence of a known
/// fingerprint.
pub open spec fn increment_spec(m: StoreView, fp: Seq<u8>) -> StoreView {
    if m.contains_key(fp) {
        m.insert(fp, (m[fp].0, bump(m[fp].1), m[fp].2))
    } else {
        m
    }
}

/// The store after an upsert: a new record with one occurrence, or one more
/// occurrence of the existing record, whose reference and text stay.
pub open spec fn upsert_spec(m: StoreView, fp: Seq<u8>, text: Seq<char>, candidate: u64) -> StoreView {
    if m.contains_key(fp) {
        m.insert(fp, (m[fp].0, bump(m[fp].1), m[fp].2))
    } else {
        m.insert(fp, (candidate, 1, text))
    }
}

/// The reference that owns `fp` after an upsert offering `candidate`.
pub open spec fn upsert_owner(m: StoreView, fp: Seq<u8>, candidate: u64) -> u64 {
    if m.contains_key(fp) {
        m[fp].0
    } else {
        candidate
    }
}

/// No update loses or rewrites a record: every fingerprint stays stored,
/// keeps its notification reference and its text, and its count never goes
/// down; it goes up by one unless it is at the largest value. Only the
/// updated fingerprint can be added.
pub proof fn lemma_updates_keep_records(m: StoreView, fp: Seq<u8>, text: Seq<char>, candidate: u64, k: Seq<u8>)
    requires
        m.contains_key(k),
    ensures
        ({
            let u = upsert_spec(m, fp, text, candidate);
            let c = increment_spec(m, fp);
            &&& u.contains_key(k) && u[k].0 == m[k].0 && u[k].2 == m[k].2 && u[k].1 >= m[k].1
            &&& c.contains_key(k) && c[k].0 == m[k].0 && c[k].2 == m[k].2 && c[k].1 >= m[k].1
            &&& k == fp && m[k].1 < u64::MAX ==> u[k].1 == m[k].1 + 1 && c[k].1 == m[k].1 + 1
            &&& u.dom() == m.dom().insert(fp)
            &&& c.dom() == m.dom()
        }),
{
    assert(upsert_spec(m, fp, text, candidate).dom() =~= m.dom().insert(fp));
    assert(increment_spec(m, fp).dom() =~= m.dom());
}

/// The store after upserting `fp` once for each candidate reference, in order.
pub open spec fn upsert_repeated(m: StoreView, fp: Seq<u8>, text: Seq<char>, candidates: Seq<u64>) -> StoreView
    decreases candidates.len(),
{
    if candidates.len() == 0 {
        m
    } else {
        upsert_repeated(upsert_spec(m, fp, text, candidates[0]), fp, text, candidates.drop_first())
    }
}

proof fn lemma_repeated_upsert_existing(m: StoreView, fp: Seq<u8>, text: Seq<char>, candidates: Seq<u64>)
    requires
        m.contains_key(fp),
        m[fp].1 + candidates.len() <= u64::MAX,
    ensures
        upsert_repeated(m, fp, text, candidates).dom() == m.dom(),
        upsert_repeated(m, fp, text, candidates)[fp] == (m[fp].0, (m[fp].1 + candidates.len()) as u64, m[fp].2),
        forall|k: Seq<u8>| k != fp && #[trigger] m.contains_key(k) ==> upsert_repeated(m, fp, text, candidates)[k] == m[k],
    decreases candidates.len(),
{
    if candidates.len() > 0 {
        let m1 = upsert_spec(m, fp, text, candidates[0]);
        assert(m1.dom() =~= m.dom());
        lemma_repeated_upsert_existing(m1, fp, text, candidates.drop_first());
    }
}

/// Upserting one fingerprint N times, into a store that does not hold it,
/// leaves exactly one record for it: it counts N occurrences and keeps the
/// reference offered by the first upsert and the text it stored. Every other
/// record stays as it was.
pub proof fn lemma_repeated_upsert(m: StoreView, fp: Seq<u8>, text: Seq<char>, candidates: Seq<u64>)
    requires
        !m.contains_key(fp),
        1 <= candidates.len() <= u64::MAX,
    ensures
        upsert_repeated(m, fp, text, candidates).dom() == m.dom().insert(fp),
        upsert_repeated(m, fp, text, candidates)[fp] == (candidates[0], candidates.len() as u64, text),
        forall|k: Seq<u8>| k != fp && #[trigger] m.contains_key(k) ==> upsert_repeated(m, fp, text, candidates)[k] == m[k],
{
    let m1 = upsert_spec(m, fp, text, candidates[0]);
    assert(upsert_repeated(m, fp, text, candidates) == upsert_repeated(m1, fp, text, candidates.drop_first()));
    lemma_repeated_upsert_existing(m1, fp, text, candidates.drop_first());
    assert forall|k: Seq<u8>| k != fp && #[trigger] m.contains_key(k) implies upsert_repeated(
        m,
        fp,
        text,
        candidates,
    )[k] == m[k] by {
        assert(m1.contains_key(k) && m1[k] == m[k]);
    }
}

/// One stored failure.
#[derive(Debug)]
pub struct DedupRecord {
    pub fingerprint: Vec<u8>,
    pub notification_ref: u64,
    pub occurrence_count: u64,
    pub diagnostic: String,
}

impl DedupRecord {
    pub open spec fn stored(&self) -> StoredView {
        (self.notification_ref, self.occurrence_count, self.diagnostic@)
    }

    /// A copy of this record.
    pub fn copy(&self) -> (r: DedupRecord)
        ensures
            r.fingerprint@ == self.fingerprint@,
            r.stored() == self.stored(),
    {
        DedupRecord {
            fingerprint: self.fingerprint.clone(),
            notification_ref: self.notification_ref,
            occurrence_count: self.occurrence_count,
            diagnostic: self.diagnostic.clone(),
        }
    }
}

/// What an upsert returns: whether the caller created the record, and the
/// record as it stands after the call.
#[derive(Debug)]
pub struct UpsertOutcome {
    pub is_new: bool,
    pub record: DedupRecord,
}

/// An in-memory deduplication store.
pub struct DedupStore {
    records: Vec<DedupRecord>,
    contents: Ghost<StoreView>,
}

impl View for DedupStore {
    type V = StoreView;

    closed spec fn view(&self) -> StoreView {
        self.contents@
    }
}

fn same_bytes(a: &Vec<u8>, b: &Vec<u8>) -> (r: bool)
    ensures
        r == (a@ == b@),
{
    if a.len() != b.len() {
        return false;
    }
    let mut i: usize = 0;
    while i < a.len()
        invariant
            a@.len() == b@.len(),
            i <= a@.len(),
            forall|k: int| 0 <= k < i ==> a@[k] == b@[k],
        decreases a@.len() - i,
    {
        if a[i] != b[i] {
            return false;
        }
        i = i + 1;
    }
    assert(a@ =~= b@);
    true
}

impl DedupStore {
    /// Records and contents agree, and no fingerprint is stored twice.
    pub closed spec fn wf(&self) -> bool {
        &&& forall|i: int, j: int|
            0 <= i < j < self.records@.len() ==> self.records@[i].fingerprint@
                != self.records@[j].fingerprint@
        &&& forall|i: int|
            0 <= i < self.records@.len() ==> self.contents@.contains_key(
                #[trigger] self.records@[i].fingerprint@,
            ) && self.contents@[self.records@[i].fingerprint@] == self.records@[i].stored()
        &&& forall|fp: Seq<u8>|
            #[trigger] self.contents@.contains_key(fp) ==> exists|i: int|
                0 <= i < self.records@.len() && self.records@[i].fingerprint@ == fp
        &&& forall|fp: Seq<u8>| #[trigger] self.contents@.contains_key(fp) ==> self.contents@[fp].1 >= 1
    }

    /// An empty store.
    pub fn new() -> (r: DedupStore)
        ensures
            r.wf(),
            r@ == Map::<Seq<u8>, StoredView>::empty(),
            counts_positive(r@),
    {
        DedupStore { records: Vec::new(), contents: Ghost(Map::empty()) }
    }

    /// A well-formed store counts at least one occurrence per record.
    pub proof fn lemma_counts_positive(&self)
        requires
            self.wf(),
        ensures
            counts_positive(self@),
    {
    }

    /// The number of stored fingerprints.
    pub fn len(&self) -> (r: usize)
        requires
            self.wf(),
        ensures
            r == self@.dom().len(),
    {
        proof {
            self.lemma_dom_len();
        }
        self.records.len()
    }

    proof fn lemma_dom_len(&self)
        requires
            self.wf(),
        ensures
            self@.dom().len() == self.records@.len(),
            self@.dom().finite(),
    {
        let fps = self.records@.map_values(|r: DedupRecord| r.fingerprint@);
        assert(fps.no_duplicates()) by {
            assert forall|i: int, j: int| 0 <= i < fps.len() && 0 <= j < fps.len() && i != j implies fps[i]
                != fps[j] by {
                if i < j {
                } else {
                }
            }
        }
        assert(self@.dom() =~= fps.to_set()) by {
            assert forall|fp: Seq<u8>| self@.dom().contains(fp) implies fps.to_set().contains(fp) by {
                let i = choose|i: int| 0 <= i < self.records@.len() && self.records@[i].fingerprint@ == fp;
                assert(fps[i] == fp);
            }
            assert forall|fp: Seq<u8>| fps.to_set().contains(fp) implies self@.dom().contains(fp) by {
                let i = choose|i: int| 0 <= i < fps.len() && fps[i] == fp;
                assert(self.records@[i].fingerprint@ == fp);
            }
        }
        fps.unique_seq_to_set();
    }

    fn find(&self, fp: &Vec<u8>) -> (r: Option<usize>)
        requires
            self.wf(),
        ensures
            match r {
                Some(i) => i < self.records@.len() && self.records@[i as int].fingerprint@ == fp@,
                None => !self@.contains_key(fp@),
            },
    {
        let mut i: usize = 0;
        while i < self.records.len()
            invariant
                self.wf(),
                i <= self.records@.len(),
                forall|k: int| 0 <= k < i ==> self.records@[k].fingerprint@ != fp@,
            decreases self.records@.len() - i,
        {
            if same_bytes(&self.records[i].fingerprint, fp) {
                return Some(i);
            }
            i = i + 1;
        }
        None
    }

    /// The record stored for `fp`, if any.
    pub fn get(&self, fp: &Vec<u8>) -> (r: Option<DedupRecord>)
        requires
            self.wf(),
        ensures
            match r {
                Some(rec) => self@.contains_key(fp@) && rec.stored() == self@[fp@]
                    && rec.fingerprint@ == fp@,
                None => !self@.contains_key(fp@),
            },
    {
        match self.find(fp) {
            Some(i) => Some(self.records[i].copy()),
            None => None,
        }
    }

    fn bump_at(&mut self, i: usize)
        requires
            old(self).wf(),
            i < old(self).records@.len(),
        ensures
            final(self).wf(),
            final(self)@ == increment_spec(old(self)@, old(self).records@[i as int].fingerprint@),
            final(self).records@.len() == old(self).records@.len(),
            final(self).records@[i as int].fingerprint@ == old(self).records@[i as int].fingerprint@,
    {
        let next = self.records[i].occurrence_count.saturating_add(1);
        let ghost key = self.records@[i as int].fingerprint@;
        let ghost new_contents = self.contents@.insert(
            key,
            (self.records@[i as int].notification_ref, next, self.records@[i as int].diagnostic@),
        );
        self.records[i].occurrence_count = next;
        self.contents = Ghost(new_contents);
        proof {
            assert forall|fp2: Seq<u8>| #[trigger] self.contents@.contains_key(fp2) implies exists|k: int|
                0 <= k < self.records@.len() && self.records@[k].fingerprint@ == fp2 by {
                if fp2 != key {
                    assert(old(self).contents@.contains_key(fp2));
                    let k = choose|k: int|
                        0 <= k < old(self).records@.len() && old(self).records@[k].fingerprint@ == fp2;
                    assert(self.records@[k].fingerprint@ == fp2);
                } else {
                    assert(self.records@[i as int].fingerprint@ == fp2);
                }
            }
        }
    }

    /// Counts one more occurrence of `fp` if it is stored, and returns the
    /// record's notification reference and new count; a fingerprint that is
    /// not stored leaves the store unchanged.
    pub fn increment_existing(&mut self, fp: &Vec<u8>) -> (r: Option<(u64, u64)>)
        requires
            old(self).wf(),
        ensures
            final(self).wf(),
            final(self)@ == increment_spec(old(self)@, fp@),
            counts_positive(final(self)@),
            match r {
                Some((nref, count)) => old(self)@.contains_key(fp@) && nref == old(self)@[fp@].0
                    && count == bump(old(self)@[fp@].1),
                None => !old(self)@.contains_key(fp@),
            },
    {
        match self.find(fp) {
            Some(i) => {
                self.bump_at(i);
                Some((self.records[i].notification_ref, self.records[i].occurrence_count))
            },
            None => None,
        }
    }

    /// The atomic insert-or-increment: stores a new record owned by
    /// `candidate` with one occurrence if `fp` is unknown, and otherwise
    /// counts one more occurrence of the existing record, whose reference
    /// and text stay.
    pub fn upsert(&mut self, fp: &Vec<u8>, diagnostic: &str, candidate: u64) -> (r: UpsertOutcome)
        requires
            old(self).wf(),
        ensures
            final(self).wf(),
            final(self)@ == upsert_spec(old(self)@, fp@, diagnostic@, candidate),
            counts_positive(final(self)@),
            r.is_new == !old(self)@.contains_key(fp@),
            r.record.fingerprint@ == fp@,
            r.record.stored() == final(self)@[fp@],
            r.record.notification_ref == upsert_owner(old(self)@, fp@, candidate),
    {
        match self.find(fp) {
            Some(i) => {
                self.bump_at(i);
                UpsertOutcome { is_new: false, record: self.records[i].copy() }
            },
            None => {
                let rec = DedupRecord {
                    fingerprint: fp.clone(),
                    notification_ref: candidate,
                    occurrence_count: 1,
                    diagnostic: diagnostic.to_owned(),
                };
                let out = rec.copy();
                let ghost old_records = self.records@;
                let ghost new_contents = self.contents@.insert(fp@, (candidate, 1, diagnostic@));
                self.records.push(rec);
                self.contents = Ghost(new_contents);
                proof {
                    let n = old_records.len() as int;
                    assert(self.records@[n].fingerprint@ == fp@);
                    assert forall|fp2: Seq<u8>| #[trigger] self.contents@.contains_key(fp2) implies exists|k: int|
                        0 <= k < self.records@.len() && self.records@[k].fingerprint@ == fp2 by {
                        if fp2 != fp@ {
                            let k = choose|k: int|
                                0 <= k < old_records.len() && old_records[k].fingerprint@ == fp2;
                            assert(self.records@[k].fingerprint@ == fp2);
                        } else {
                            assert(self.records@[n].fingerprint@ == fp2);
                        }
                    }
                    assert forall|a: int, b: int|
                        0 <= a < b < self.records@.len() implies self.records@[a].fingerprint@
                        != self.records@[b].fingerprint@ by {
                        if b == n {
                            assert(old(self).contents@.contains_key(old_records[a].fingerprint@));
                        }
                    }
                }
                UpsertOutcome { is_new: true, record: out }
            },
        }
    }

    /// The diagnostic text stored under the notification reference `nref`.
    pub fn lookup_by_notification_ref(&self, nref: u64) -> (r: Option<String>)
        requires
            self.wf(),
        ensures
            match r {
                Some(text) => exists|fp: Seq<u8>|
                    #[trigger] self@.contains_key(fp) && self@[fp].0 == nref && self@[fp].2 == text@,
                None => forall|fp: Seq<u8>| #[trigger] self@.contains_key(fp) ==> self@[fp].0 != nref,
            },
    {
        let mut i: usize = 0;
        while i < self.records.len()
            invariant
                self.wf(),
                i <= self.records@.len(),
                forall|k: int| 0 <= k < i ==> self.records@[k].notification_ref != nref,
            decreases self.records@.len() - i,
        {
            if self.records[i].notification_ref == nref {
                let text = self.records[i].diagnostic.clone();
                assert(self@.contains_key(self.records@[i as int].fingerprint@));
                return Some(text);
            }
            i = i + 1;
        }
        proof {
            assert forall|fp: Seq<u8>| #[trigger] self@.contains_key(fp) implies self@[fp].0 != nref by {
                let k = choose|k: int| 0 <= k < self.records@.len() && self.records@[k].fingerprint@ == fp;
                assert(self.contents@[self.records@[k].fingerprint@] == self.records@[k].stored());
            }
        }
        None
    }
}

} // verus!
