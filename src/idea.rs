//! The idea entity, its store-side record and the conversion between them.

use vstd::prelude::*;
use crate::ident::{id_part_ok, lemma_join_injective};

verus! {

/// The text `table:key` that names one stored record.
pub open spec fn join_id(table: Seq<char>, key: Seq<char>) -> Seq<char> {
    table + seq![':'] + key
}

/// A record identifier held as its two parts, each non-empty and free of
/// `:`, so that its text `table:key` names it alone.
#[derive(Debug)]
pub struct RecordId {
    table: String,
    key: String,
}

pub struct RecordIdView {
    pub table: Seq<char>,
    pub key: Seq<char>,
}

/// Whether both parts of an identifier are well formed.
pub open spec fn parts_ok(id: RecordIdView) -> bool {
    id_part_ok(id.table) && id_part_ok(id.key)
}

impl View for RecordId {
    type V = RecordIdView;

    closed spec fn view(&self) -> RecordIdView {
        RecordIdView { table: self.table@, key: self.key@ }
    }
}

impl RecordId {
    #[verifier::type_invariant]
    spec fn well_formed(self) -> bool {
        id_part_ok(self.table@) && id_part_ok(self.key@)
    }

    /// Builds an identifier from two well-formed parts.
    pub fn new(table: &str, key: &str) -> (r: RecordId)
        requires
            id_part_ok(table@),
            id_part_ok(key@),
        ensures
            r@ == (RecordIdView { table: table@, key: key@ }),
    {
        RecordId { table: String::from_str(table), key: String::from_str(key) }
    }

    /// The table part.
    pub fn table(&self) -> (r: &String)
        ensures
            r@ == self@.table,
            parts_ok(self@),
    {
        proof {
            use_type_invariant(self);
        }
        &self.table
    }

    /// The key part.
    pub fn key(&self) -> (r: &String)
        ensures
            r@ == self@.key,
            parts_ok(self@),
    {
        proof {
            use_type_invariant(self);
        }
        &self.key
    }

    /// Whether two identifiers have the same parts.
    pub fn same_as(&self, other: &RecordId) -> (r: bool)
        ensures
            r == (self@ == other@),
    {
        self.table == other.table && self.key == other.key
    }

    /// The textual form `table:key`.
    pub fn render(&self) -> (r: String)
        ensures
            r@ == join_id(self@.table, self@.key),
            parts_ok(self@),
    {
        proof {
            use_type_invariant(self);
        }
        let mut r = self.table.clone();
        r.append(":");
        r.append(self.key.as_str());
        proof {
            reveal_strlit(":");
        }
        r
    }

    /// A copy of this identifier.
    pub fn duplicate(&self) -> (r: RecordId)
        ensures
            r@ == self@,
    {
        proof {
            use_type_invariant(self);
        }
        RecordId { table: self.table.clone(), key: self.key.clone() }
    }
}

impl Clone for RecordId {
    fn clone(&self) -> (r: RecordId)
        ensures
            r@ == self@,
    {
        self.duplicate()
    }
}

/// The texts of a list of strings.
pub open spec fn texts(v: Seq<String>) -> Seq<Seq<char>> {
    v.map_values(|s: String| s@)
}

/// A copy of a list of strings.
pub fn copy_strings(v: &Vec<String>) -> (r: Vec<String>)
    ensures
        texts(r@) == texts(v@),
{
    let mut r: Vec<String> = Vec::new();
    let mut i: usize = 0;
    while i < v.len()
        invariant
            i <= v.len(),
            r@.len() == i,
            forall|j: int| 0 <= j < i ==> r@[j]@ == v@[j]@,
        decreases v.len() - i,
    {
        r.push(v[i].clone());
        i = i + 1;
    }
    assert(texts(r@) =~= texts(v@));
    r
}

/// Whether two lists of strings hold the same texts in the same order.
pub fn strings_equal(a: &Vec<String>, b: &Vec<String>) -> (r: bool)
    ensures
        r == (texts(a@) == texts(b@)),
{
    if a.len() != b.len() {
        assert(texts(a@).len() != texts(b@).len());
        return false;
    }
    let mut i: usize = 0;
    while i < a.len()
        invariant
            i <= a.len(),
            a.len() == b.len(),
            forall|j: int| 0 <= j < i ==> a@[j]@ == b@[j]@,
        decreases a.len() - i,
    {
        if a[i] != b[i] {
            assert(texts(a@)[i as int] != texts(b@)[i as int]);
            return false;
        }
        i = i + 1;
    }
    assert(texts(a@) =~= texts(b@));
    true
}

/// Whether two optional strings are both absent or both present with the same text.
pub fn optional_strings_equal(a: &Option<String>, b: &Option<String>) -> (r: bool)
    ensures
        r == (optional_text(*a) == optional_text(*b)),
{
    match a {
        Some(x) => match b {
            Some(y) => {
                let same: bool = *x == *y;
                same
            },
            None => false,
        },
        None => b.is_none(),
    }
}

/// The text of an optional string.
pub open spec fn optional_text(s: Option<String>) -> Option<Seq<char>> {
    match s {
        Some(t) => Some(t@),
        None => None,
    }
}

/// An idea as callers see it; `id` is absent until the idea has been stored.
#[derive(Debug, Clone)]
pub struct Idea {
    pub id: Option<String>,
    pub title: String,
    pub description: String,
    pub tags: Vec<String>,
    pub what_must_be_true: Vec<String>,
    pub development_notes: String,
}

pub struct IdeaView {
    pub id: Option<Seq<char>>,
    pub title: Seq<char>,
    pub description: Seq<char>,
    pub tags: Seq<Seq<char>>,
    pub what_must_be_true: Seq<Seq<char>>,
    pub development_notes: Seq<char>,
}

impl View for Idea {
    type V = IdeaView;

    open spec fn view(&self) -> IdeaView {
        IdeaView {
            id: optional_text(self.id),
            title: self.title@,
            description: self.description@,
            tags: texts(self.tags@),
            what_must_be_true: texts(self.what_must_be_true@),
            development_notes: self.development_notes@,
        }
    }
}

impl PartialEq for Idea {
    fn eq(&self, other: &Idea) -> (r: bool) {
        optional_strings_equal(&self.id, &other.id) && self.title == other.title
            && self.description == other.description && strings_equal(&self.tags, &other.tags)
            && strings_equal(&self.what_must_be_true, &other.what_must_be_true)
            && self.development_notes == other.development_notes
    }
}

impl vstd::std_specs::cmp::PartialEqSpecImpl for Idea {
    open spec fn obeys_eq_spec() -> bool {
        true
    }

    open spec fn eq_spec(&self, other: &Idea) -> bool {
        self@ == other@
    }
}

/// A stored document: the idea's fields, with its identifier held as parts.
#[derive(Debug, Clone)]
pub struct IdeaRecord {
    pub id: Option<RecordId>,
    pub title: String,
    pub description: String,
    pub tags: Vec<String>,
    pub what_must_be_true: Vec<String>,
    pub development_notes: String,
}

pub struct IdeaRecordView {
    pub id: Option<RecordIdView>,
    pub title: Seq<char>,
    pub description: Seq<char>,
    pub tags: Seq<Seq<char>>,
    pub what_must_be_true: Seq<Seq<char>>,
    pub development_notes: Seq<char>,
}

impl View for IdeaRecord {
    type V = IdeaRecordView;

    open spec fn view(&self) -> IdeaRecordView {
        IdeaRecordView {
            id: match self.id {
                Some(i) => Some(i@),
                None => None,
            },
            title: self.title@,
            description: self.description@,
            tags: texts(self.tags@),
            what_must_be_true: texts(self.what_must_be_true@),
            development_notes: self.development_notes@,
        }
    }
}

/// Whether a record's identifier, if it has one, has well-formed parts.
pub open spec fn ids_ok(r: IdeaRecordView) -> bool {
    r.id matches Some(i) ==> parts_ok(i)
}

/// The public idea that a stored record stands for: the identifier is
/// rendered as `table:key`, every other field is carried over unchanged.
pub open spec fn idea_of_record(r: IdeaRecordView) -> IdeaView {
    IdeaView {
        id: match r.id {
            Some(i) => Some(join_id(i.table, i.key)),
            None => None,
        },
        title: r.title,
        description: r.description,
        tags: r.tags,
        what_must_be_true: r.what_must_be_true,
        development_notes: r.development_notes,
    }
}

impl IdeaRecord {
    /// The record with the same content and the given identifier.
    pub open spec fn with_id(self, id: Option<RecordIdView>) -> IdeaRecordView {
        IdeaRecordView { id, ..self@ }
    }

    /// A record without an identifier, as handed to the store for creation or
    /// replacement.
    pub fn unidentified(
        title: String,
        description: String,
        tags: Vec<String>,
        what_must_be_true: Vec<String>,
        development_notes: String,
    ) -> (r: IdeaRecord)
        ensures
            r.id is None,
            r.title == title,
            r.description == description,
            r.tags == tags,
            r.what_must_be_true == what_must_be_true,
            r.development_notes == development_notes,
    {
        IdeaRecord { id: None, title, description, tags, what_must_be_true, development_notes }
    }

    /// A copy of this record.
    pub fn duplicate(&self) -> (r: IdeaRecord)
        ensures
            r@ == self@,
    {
        IdeaRecord {
            id: match &self.id {
                Some(i) => Some(i.duplicate()),
                None => None,
            },
            title: self.title.clone(),
            description: self.description.clone(),
            tags: copy_strings(&self.tags),
            what_must_be_true: copy_strings(&self.what_must_be_true),
            development_notes: self.development_notes.clone(),
        }
    }
}

impl Idea {
    /// The public idea for a stored record.
    pub fn from_record(record: IdeaRecord) -> (r: Idea)
        ensures
            r@ == idea_of_record(record@),
            ids_ok(record@),
    {
        let id = match &record.id {
            Some(i) => Some(i.render()),
            None => None,
        };
        Idea {
            id,
            title: record.title,
            description: record.description,
            tags: record.tags,
            what_must_be_true: record.what_must_be_true,
            development_notes: record.development_notes,
        }
    }
}

/// The conversion of records to ideas loses nothing: two records whose
/// identifiers are well formed give the same idea only when they are the same.
pub proof fn law_conversion_lossless(r1: IdeaRecordView, r2: IdeaRecordView)
    requires
        ids_ok(r1),
        ids_ok(r2),
    ensures
        idea_of_record(r1) == idea_of_record(r2) <==> r1 == r2,
{
    if idea_of_record(r1) == idea_of_record(r2) {
        if r1.id is Some {
            let (i1, i2) = (r1.id->0, r2.id->0);
            lemma_join_injective(i1.table, i1.key, i2.table, i2.key);
        }
    }
}

/// The public idea for a stored record, as `Idea::from_record` gives it.
impl From<IdeaRecord> for Idea {
    fn from(record: IdeaRecord) -> (r: Idea)
        ensures
            r@ == idea_of_record(record@),
            ids_ok(record@),
    {
        Idea::from_record(record)
    }
}

impl vstd::std_specs::convert::FromSpecImpl<IdeaRecord> for Idea {
    open spec fn obeys_from_spec() -> bool {
        false
    }

    open spec fn from_spec(v: IdeaRecord) -> Idea {
        arbitrary()
    }
}

} // verus!
