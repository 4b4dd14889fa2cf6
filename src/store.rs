//! An in-memory record store: documents keyed by table and key, each created
//! document receiving a fresh key.

use vstd::prelude::*;
use crate::error::IdeaError;
use crate::idea::{IdeaRecord, IdeaRecordView, RecordId, RecordIdView};
use crate::ident::id_part_ok;
use crate::keys::{decimal, decimal_text, lemma_decimal_injective, lemma_decimal_is_id_part};

verus! {

/// Whether a document carries the given identifier.
pub open spec fn names(r: IdeaRecordView, id: RecordIdView) -> bool {
    r.id == Some(id)
}

/// Whether some document of `recs` carries the identifier.
pub open spec fn holds_id(recs: Seq<IdeaRecordView>, id: RecordIdView) -> bool {
    exists|i: int| 0 <= i < recs.len() && #[trigger] names(recs[i], id)
}

/// Every document has an identifier, and no two share one.
pub open spec fn ids_unique(recs: Seq<IdeaRecordView>) -> bool {
    &&& forall|i: int| 0 <= i < recs.len() ==> (#[trigger] recs[i]).id is Some
    &&& forall|i: int, j: int|
        0 <= i < recs.len() && 0 <= j < recs.len() && (#[trigger] recs[i]).id == (#[trigger] recs[j]).id
            ==> i == j
}

/// The documents of `recs`, keyed by their identifiers.
pub open spec fn record_map(recs: Seq<IdeaRecordView>) -> Map<RecordIdView, IdeaRecordView> {
    Map::new(
        |id: RecordIdView| holds_id(recs, id),
        |id: RecordIdView| recs[choose|i: int| 0 <= i < recs.len() && #[trigger] names(recs[i], id)],
    )
}

/// Whether a document belongs to the given table.
pub open spec fn in_table(r: IdeaRecordView, table: Seq<char>) -> bool {
    r.id matches Some(id) && id.table == table
}

/// The documents of one table, in storage order.
pub open spec fn table_records(recs: Seq<IdeaRecordView>, table: Seq<char>) -> Seq<IdeaRecordView> {
    recs.filter(|r: IdeaRecordView| in_table(r, table))
}

proof fn lemma_map_at(recs: Seq<IdeaRecordView>, i: int)
    requires
        ids_unique(recs),
        0 <= i < recs.len(),
    ensures
        record_map(recs).contains_key(recs[i].id->0),
        record_map(recs)[recs[i].id->0] == recs[i],
{
    let id = recs[i].id->0;
    assert(names(recs[i], id));
    let j = choose|j: int| 0 <= j < recs.len() && #[trigger] names(recs[j], id);
    assert(recs[j].id == recs[i].id);
}

proof fn lemma_map_push(recs: Seq<IdeaRecordView>, r: IdeaRecordView)
    requires
        ids_unique(recs),
        r.id is Some,
        !holds_id(recs, r.id->0),
    ensures
        ids_unique(recs.push(r)),
        record_map(recs.push(r)) == record_map(recs).insert(r.id->0, r),
{
    let s = recs.push(r);
    let n = recs.len() as int;
    assert forall|i: int, j: int|
        0 <= i < s.len() && 0 <= j < s.len() && (#[trigger] s[i]).id == (#[trigger] s[j]).id implies i == j by {
        if i < n && j == n {
            assert(names(recs[i], r.id->0));
        } else if j < n && i == n {
            assert(names(recs[j], r.id->0));
        } else if i < n && j < n {
            assert(recs[i] == s[i] && recs[j] == s[j]);
        }
    }
    assert(ids_unique(s));
    let m = record_map(s);
    let m2 = record_map(recs).insert(r.id->0, r);
    assert forall|x: RecordIdView| #[trigger] m.contains_key(x) <==> m2.contains_key(x) by {
        if holds_id(s, x) {
            let i = choose|i: int| 0 <= i < s.len() && #[trigger] names(s[i], x);
            if i < n {
                assert(names(recs[i], x));
            }
        }
        if holds_id(recs, x) {
            let i = choose|i: int| 0 <= i < recs.len() && #[trigger] names(recs[i], x);
            assert(names(s[i], x));
        }
        if x == r.id->0 {
            assert(names(s[n], x));
        }
    }
    assert forall|x: RecordIdView| #[trigger] m.contains_key(x) implies m[x] == m2[x] by {
        let i = choose|i: int| 0 <= i < s.len() && #[trigger] names(s[i], x);
        lemma_map_at(s, i);
        if i < n {
            lemma_map_at(recs, i);
        }
    }
    assert(m =~= m2);
}

proof fn lemma_map_update(recs: Seq<IdeaRecordView>, i: int, r: IdeaRecordView)
    requires
        ids_unique(recs),
        0 <= i < recs.len(),
        r.id == recs[i].id,
    ensures
        ids_unique(recs.update(i, r)),
        record_map(recs.update(i, r)) == record_map(recs).insert(r.id->0, r),
{
    let s = recs.update(i, r);
    assert forall|a: int, b: int|
        0 <= a < s.len() && 0 <= b < s.len() && (#[trigger] s[a]).id == (#[trigger] s[b]).id implies a == b by {
        assert(s[a].id == recs[a].id && s[b].id == recs[b].id);
    }
    let m = record_map(s);
    let m2 = record_map(recs).insert(r.id->0, r);
    lemma_map_at(recs, i);
    assert forall|x: RecordIdView| #[trigger] m.contains_key(x) <==> m2.contains_key(x) by {
        if holds_id(s, x) {
            let a = choose|a: int| 0 <= a < s.len() && #[trigger] names(s[a], x);
            assert(names(recs[a], x));
        }
        if holds_id(recs, x) {
            let a = choose|a: int| 0 <= a < recs.len() && #[trigger] names(recs[a], x);
            assert(names(s[a], x));
        }
    }
    assert forall|x: RecordIdView| #[trigger] m.contains_key(x) implies m[x] == m2[x] by {
        let a = choose|a: int| 0 <= a < s.len() && #[trigger] names(s[a], x);
        lemma_map_at(s, a);
        lemma_map_at(recs, a);
    }
    assert(m =~= m2);
}

proof fn lemma_map_remove(recs: Seq<IdeaRecordView>, i: int)
    requires
        ids_unique(recs),
        0 <= i < recs.len(),
    ensures
        ids_unique(recs.remove(i)),
        record_map(recs.remove(i)) == record_map(recs).remove(recs[i].id->0),
{
    let s = recs.remove(i);
    let id = recs[i].id->0;
    assert forall|a: int| 0 <= a < s.len() implies s[a] == recs[if a < i { a } else { a + 1 }] by {}
    assert forall|a: int, b: int|
        0 <= a < s.len() && 0 <= b < s.len() && (#[trigger] s[a]).id == (#[trigger] s[b]).id implies a == b by {
        let a1 = if a < i { a } else { a + 1 };
        let b1 = if b < i { b } else { b + 1 };
        assert(recs[a1].id == recs[b1].id);
    }
    let m = record_map(s);
    let m2 = record_map(recs).remove(id);
    assert forall|x: RecordIdView| #[trigger] m.contains_key(x) <==> m2.contains_key(x) by {
        if holds_id(s, x) {
            let a = choose|a: int| 0 <= a < s.len() && #[trigger] names(s[a], x);
            let a1 = if a < i { a } else { a + 1 };
            assert(names(recs[a1], x));
            assert(a1 != i);
        }
        if holds_id(recs, x) && x != id {
            let a = choose|a: int| 0 <= a < recs.len() && #[trigger] names(recs[a], x);
            assert(a != i);
            let a0 = if a < i { a } else { a - 1 };
            assert(names(s[a0], x));
        }
    }
    assert forall|x: RecordIdView| #[trigger] m.contains_key(x) implies m[x] == m2[x] by {
        let a = choose|a: int| 0 <= a < s.len() && #[trigger] names(s[a], x);
        let a1 = if a < i { a } else { a + 1 };
        lemma_map_at(s, a);
        lemma_map_at(recs, a1);
    }
    assert(m =~= m2);
}

/// A stored document beside the number its key was rendered from.
struct Entry {
    number: u64,
    record: IdeaRecord,
}

/// Documents kept in memory, in the order of their creation.
pub struct IdeaStore {
    entries: Vec<Entry>,
    next_number: u64,
}

impl View for IdeaStore {
    type V = Seq<IdeaRecordView>;

    /// The stored documents in storage order.
    closed spec fn view(&self) -> Seq<IdeaRecordView> {
        self.entries@.map_values(|e: Entry| e.record@)
    }
}

impl IdeaStore {
    /// Each key is the decimal text of a number below the counter, and the
    /// numbers grow along the storage order.
    pub closed spec fn wf(&self) -> bool {
        &&& forall|i: int|
            0 <= i < self.entries@.len() ==> {
                let e = #[trigger] self.entries@[i];
                &&& e.record.id matches Some(id) && id@.key == decimal_text(e.number as nat)
                &&& e.number < self.next_number
            }
        &&& forall|i: int, j: int|
            0 <= i < j < self.entries@.len() ==> (#[trigger] self.entries@[i]).number
                < (#[trigger] self.entries@[j]).number
        &&& ids_unique(self@)
    }

    /// How many keys have been handed out so far.
    pub closed spec fn keys_used(&self) -> nat {
        self.next_number as nat
    }

    /// Whether a further document can receive a key.
    pub open spec fn has_room(&self) -> bool {
        self.keys_used() < u64::MAX
    }

    /// The stored documents keyed by identifier.
    pub open spec fn documents(&self) -> Map<RecordIdView, IdeaRecordView> {
        record_map(self@)
    }

    /// An empty store.
    pub fn new() -> (r: IdeaStore)
        ensures
            r.wf(),
            r@ == Seq::<IdeaRecordView>::empty(),
            r.keys_used() == 0,
    {
        let r = IdeaStore { entries: Vec::new(), next_number: 0 };
        assert(r@ =~= Seq::<IdeaRecordView>::empty());
        r
    }

    /// The position of the document with the given identifier.
    fn find(&self, id: &RecordId) -> (r: Option<usize>)
        requires
            self.wf(),
        ensures
            r matches Some(i) ==> i < self@.len() && names(self@[i as int], id@),
            r is None ==> !holds_id(self@, id@),
    {
        let mut i: usize = 0;
        while i < self.entries.len()
            invariant
                i <= self.entries@.len(),
                self@.len() == self.entries@.len(),
                forall|j: int| 0 <= j < i ==> !(#[trigger] names(self@[j], id@)),
            decreases self.entries@.len() - i,
        {
            let hit = match &self.entries[i].record.id {
                Some(rid) => rid.same_as(id),
                None => false,
            };
            if hit {
                return Some(i);
            }
            i = i + 1;
        }
        None
    }

    /// Stores `content` under a fresh key of `table` and returns the stored
    /// document; fails only when no key is left.
    pub fn create(&mut self, table: &str, content: IdeaRecord) -> (r: Result<IdeaRecord, IdeaError>)
        requires
            old(self).wf(),
            id_part_ok(table@),
        ensures
            final(self).wf(),
            r is Ok <==> old(self).has_room(),
            final(self).keys_used() == old(self).keys_used() + if r is Ok {
                1nat
            } else {
                0nat
            },
            r matches Ok(rec) ==> {
                &&& rec.id matches Some(rid) && {
                    &&& rid@.table == table@
                    &&& id_part_ok(rid@.key)
                    &&& !old(self).documents().contains_key(rid@)
                    &&& rec@ == content.with_id(Some(rid@))
                    &&& final(self).documents() == old(self).documents().insert(rid@, rec@)
                }
                &&& final(self)@ == old(self)@.push(rec@)
            },
            r matches Err(e) ==> e.spec_kind() == crate::error::ErrorKind::Storage && final(self)@
                == old(self)@,
    {
        if self.next_number == u64::MAX {
            return Err(IdeaError::Storage { message: String::from_str("no key is left in the store") });
        }
        let number = self.next_number;
        let key = decimal(number);
        proof {
            lemma_decimal_is_id_part(number as nat);
        }
        let rid = RecordId::new(table, key.as_str());
        let record = IdeaRecord { id: Some(rid), ..content };
        let stored = record.duplicate();
        let ghost old_view = self@;
        let ghost rid_view = rid@;
        proof {
            assert forall|i: int| 0 <= i < old_view.len() implies !names(#[trigger] old_view[i], rid_view) by {
                let e = self.entries@[i];
                if names(old_view[i], rid_view) {
                    lemma_decimal_injective(e.number as nat, number as nat);
                }
            }
            lemma_map_push(old_view, record@);
        }
        self.entries.push(Entry { number, record: stored });
        self.next_number = number + 1;
        assert(self@ =~= old_view.push(record@));
        Ok(record)
    }

    /// The documents of `table`, in storage order.
    pub fn select_all(&self, table: &str) -> (r: Vec<IdeaRecord>)
        requires
            self.wf(),
        ensures
            r@.map_values(|x: IdeaRecord| x@) == table_records(self@, table@),
    {
        let mut out: Vec<IdeaRecord> = Vec::new();
        let mut i: usize = 0;
        let table_text = String::from_str(table);
        while i < self.entries.len()
            invariant
                i <= self.entries@.len(),
                self@.len() == self.entries@.len(),
                table_text@ == table@,
                out@.map_values(|x: IdeaRecord| x@) == table_records(self@.take(i as int), table@),
            decreases self.entries@.len() - i,
        {
            let rec = &self.entries[i].record;
            let keep = match &rec.id {
                Some(rid) => *rid.table() == table_text,
                None => false,
            };
            let ghost before = out@;
            if keep {
                out.push(rec.duplicate());
            }
            proof {
                let pred = |r: IdeaRecordView| in_table(r, table@);
                let t1 = self@.take(i + 1);
                assert(t1.drop_last() =~= self@.take(i as int));
                assert(t1.last() == self@[i as int]);
                reveal(Seq::filter);
                assert(t1.filter(pred) == if pred(t1.last()) {
                    self@.take(i as int).filter(pred).push(t1.last())
                } else {
                    self@.take(i as int).filter(pred)
                });
                assert(out@.map_values(|x: IdeaRecord| x@) =~= t1.filter(pred));
            }
            i = i + 1;
        }
        assert(self@.take(self@.len() as int) =~= self@);
        out
    }

    /// The document with the given identifier, if one is stored.
    pub fn select_one(&self, id: &RecordId) -> (r: Option<IdeaRecord>)
        requires
            self.wf(),
        ensures
            r is Some <==> self.documents().contains_key(id@),
            r matches Some(x) ==> x@ == self.documents()[id@],
    {
        match self.find(id) {
            Some(i) => {
                proof {
                    lemma_map_at(self@, i as int);
                }
                Some(self.entries[i].record.duplicate())
            },
            None => None,
        }
    }

    /// Replaces the content of the document with the given identifier and
    /// returns the new document; the identifier is kept.
    pub fn update(&mut self, id: &RecordId, content: IdeaRecord) -> (r: Option<IdeaRecord>)
        requires
            old(self).wf(),
        ensures
            final(self).wf(),
            final(self).keys_used() == old(self).keys_used(),
            r is Some <==> old(self).documents().contains_key(id@),
            r matches Some(x) ==> x@ == content.with_id(Some(id@)) && final(self).documents()
                == old(self).documents().insert(id@, x@),
            r is None ==> final(self)@ == old(self)@,
    {
        match self.find(id) {
            Some(i) => {
                let record = IdeaRecord { id: Some(id.duplicate()), ..content };
                let number = self.entries[i].number;
                let ghost old_view = self@;
                proof {
                    lemma_map_update(old_view, i as int, record@);
                }
                self.entries.set(i, Entry { number, record: record.duplicate() });
                assert(self@ =~= old_view.update(i as int, record@));
                Some(record)
            },
            None => {
                proof {
                    if record_map(self@).contains_key(id@) {
                        assert(holds_id(self@, id@));
                    }
                }
                None
            },
        }
    }

    /// Removes the document with the given identifier and returns it.
    pub fn delete(&mut self, id: &RecordId) -> (r: Option<IdeaRecord>)
        requires
            old(self).wf(),
        ensures
            final(self).wf(),
            final(self).keys_used() == old(self).keys_used(),
            r is Some <==> old(self).documents().contains_key(id@),
            r matches Some(x) ==> x@ == old(self).documents()[id@],
            final(self).documents() == old(self).documents().remove(id@),
    {
        match self.find(id) {
            Some(i) => {
                let ghost old_view = self@;
                proof {
                    lemma_map_at(old_view, i as int);
                    lemma_map_remove(old_view, i as int);
                }
                let e = self.entries.remove(i);
                assert(self@ =~= old_view.remove(i as int));
                Some(e.record)
            },
            None => {
                assert(self.documents() =~= self.documents().remove(id@));
                None
            },
        }
    }
}

} // verus!
