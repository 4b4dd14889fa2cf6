//! The five requests on ideas: submit, list all, get one, update and delete,
//! each answered from an explicitly passed store.

use vstd::prelude::*;
use crate::error::{ErrorKind, IdeaError};
use crate::idea::{idea_of_record, texts, Idea, IdeaRecord, IdeaRecordView, IdeaView, RecordIdView};
use crate::ident::{id_of_text, id_part_ok, is_valid_id, parse_id};
use crate::store::{table_records, IdeaStore};

verus! {

/// The table that holds the ideas.
pub const IDEAS_TABLE: &'static str = "ideas";

/// The document stored for an idea with the given fields.
pub open spec fn idea_document(
    id: RecordIdView,
    title: Seq<char>,
    description: Seq<char>,
    tags: Seq<Seq<char>>,
    what_must_be_true: Seq<Seq<char>>,
    development_notes: Seq<char>,
) -> IdeaRecordView {
    IdeaRecordView { id: Some(id), title, description, tags, what_must_be_true, development_notes }
}

/// Whether an error about an identifier carries the identifier text `id`.
pub open spec fn mentions(e: IdeaError, id: Seq<char>) -> bool {
    match e {
        IdeaError::InvalidId { id: text } => text@ == id,
        IdeaError::NotFound { id: text } => text@ == id,
        IdeaError::Storage { .. } => true,
    }
}

/// An answer with the idea as a view and the error as its kind.
pub open spec fn result_view(r: Result<Idea, IdeaError>) -> Result<IdeaView, ErrorKind> {
    match r {
        Ok(idea) => Ok(idea@),
        Err(e) => Err(e.spec_kind()),
    }
}

/// What fetching the identifier text `id` answers, given the stored documents.
pub open spec fn get_outcome(docs: Map<RecordIdView, IdeaRecordView>, id: Seq<char>) -> Result<
    IdeaView,
    ErrorKind,
> {
    if !is_valid_id(id) {
        Err(ErrorKind::InvalidId)
    } else if !docs.contains_key(id_of_text(id)) {
        Err(ErrorKind::NotFound)
    } else {
        Ok(idea_of_record(docs[id_of_text(id)]))
    }
}

/// What updating the identifier text `id` answers, given the stored documents.
pub open spec fn update_outcome(
    docs: Map<RecordIdView, IdeaRecordView>,
    id: Seq<char>,
    title: Seq<char>,
    description: Seq<char>,
    tags: Seq<Seq<char>>,
    what_must_be_true: Seq<Seq<char>>,
    development_notes: Seq<char>,
) -> Result<IdeaView, ErrorKind> {
    if !is_valid_id(id) {
        Err(ErrorKind::InvalidId)
    } else if !docs.contains_key(id_of_text(id)) {
        Err(ErrorKind::NotFound)
    } else {
        Ok(
            idea_of_record(
                idea_document(
                    id_of_text(id),
                    title,
                    description,
                    tags,
                    what_must_be_true,
                    development_notes,
                ),
            ),
        )
    }
}

/// The stored documents after updating the identifier text `id`.
pub open spec fn documents_after_update(
    docs: Map<RecordIdView, IdeaRecordView>,
    id: Seq<char>,
    title: Seq<char>,
    description: Seq<char>,
    tags: Seq<Seq<char>>,
    what_must_be_true: Seq<Seq<char>>,
    development_notes: Seq<char>,
) -> Map<RecordIdView, IdeaRecordView> {
    if is_valid_id(id) && docs.contains_key(id_of_text(id)) {
        docs.insert(
            id_of_text(id),
            idea_document(
                id_of_text(id),
                title,
                description,
                tags,
                what_must_be_true,
                development_notes,
            ),
        )
    } else {
        docs
    }
}

/// What deleting the identifier text `id` answers.
pub open spec fn delete_outcome(id: Seq<char>) -> Result<(), ErrorKind> {
    if is_valid_id(id) {
        Ok(())
    } else {
        Err(ErrorKind::InvalidId)
    }
}

/// The stored documents after deleting the identifier text `id`.
pub open spec fn documents_after_delete(
    docs: Map<RecordIdView, IdeaRecordView>,
    id: Seq<char>,
) -> Map<RecordIdView, IdeaRecordView> {
    if is_valid_id(id) {
        docs.remove(id_of_text(id))
    } else {
        docs
    }
}

/// Whether submitting the given fields turned the documents `before` into
/// `after` and answered `idea`: a fresh identifier of the ideas table now
/// holds the fields, with an empty checklist and empty notes.
pub open spec fn submitted(
    before: Map<RecordIdView, IdeaRecordView>,
    after: Map<RecordIdView, IdeaRecordView>,
    title: Seq<char>,
    description: Seq<char>,
    tags: Seq<Seq<char>>,
    idea: IdeaView,
) -> bool {
    exists|rid: RecordIdView|
        {
            &&& rid.table == IDEAS_TABLE@
            &&& id_part_ok(rid.key)
            &&& !before.contains_key(rid)
            &&& after == before.insert(
                rid,
                #[trigger] idea_document(rid, title, description, tags, seq![], seq![]),
            )
            &&& idea == idea_of_record(idea_document(rid, title, description, tags, seq![], seq![]))
        }
}

/// The ideas that a sequence of stored documents stands for.
pub open spec fn ideas_of(recs: Seq<IdeaRecordView>) -> Seq<IdeaView> {
    recs.map_values(|r: IdeaRecordView| idea_of_record(r))
}

/// Stores a new idea with an empty checklist and empty notes, and returns it
/// with its fresh identifier.
pub fn submit_idea_server(
    store: &mut IdeaStore,
    title: String,
    description: String,
    tags: Vec<String>,
) -> (r: Result<Idea, IdeaError>)
    requires
        old(store).wf(),
    ensures
        final(store).wf(),
        r is Ok <==> old(store).has_room(),
        final(store).keys_used() == old(store).keys_used() + if r is Ok {
            1nat
        } else {
            0nat
        },
        r matches Ok(idea) ==> submitted(
            old(store).documents(),
            final(store).documents(),
            title@,
            description@,
            texts(tags@),
            idea@,
        ),
        r matches Err(e) ==> e.spec_kind() == ErrorKind::Storage && final(store)@ == old(store)@,
{
    let ghost tags_text = texts(tags@);
    proof {
        reveal_strlit("ideas");
    }
    let content = IdeaRecord::unidentified(title, description, tags, Vec::new(), String::new());
    assert(content@.what_must_be_true =~= Seq::<Seq<char>>::empty());
    assert(content@.development_notes =~= Seq::<char>::empty());
    match store.create(IDEAS_TABLE, content) {
        Ok(record) => {
            proof {
                let rid = record.id->0@;
                assert(record@ =~= idea_document(rid, title@, description@, tags_text, seq![], seq![]));
            }
            Ok(Idea::from_record(record))
        },
        Err(e) => Err(e),
    }
}

/// Every stored idea, in storage order; an empty store gives an empty list.
pub fn get_all_ideas_server(store: &IdeaStore) -> (r: Result<Vec<Idea>, IdeaError>)
    requires
        store.wf(),
    ensures
        r matches Ok(v) && v@.map_values(|i: Idea| i@) == ideas_of(table_records(store@, IDEAS_TABLE@)),
{
    let records = store.select_all(IDEAS_TABLE);
    let ghost recs = records@.map_values(|x: IdeaRecord| x@);
    let mut out: Vec<Idea> = Vec::new();
    let mut i: usize = 0;
    while i < records.len()
        invariant
            i <= records@.len(),
            recs == records@.map_values(|x: IdeaRecord| x@),
            out@.len() == i,
            forall|j: int| 0 <= j < i ==> (#[trigger] out@[j])@ == idea_of_record(recs[j]),
        decreases records@.len() - i,
    {
        out.push(Idea::from_record(records[i].duplicate()));
        i = i + 1;
    }
    assert(out@.map_values(|i: Idea| i@) =~= ideas_of(recs));
    Ok(out)
}

/// The answer to a request on the identifier text `id`, given the record that
/// the store found under it, if any.
pub fn idea_from_lookup(id: String, found: Option<IdeaRecord>) -> (r: Result<Idea, IdeaError>)
    ensures
        found matches Some(rec) ==> (r matches Ok(idea) && idea@ == idea_of_record(rec@)),
        found is None ==> (r matches Err(e) && e.spec_kind() == ErrorKind::NotFound && mentions(
            e,
            id@,
        )),
{
    match found {
        Some(record) => Ok(Idea::from_record(record)),
        None => Err(IdeaError::NotFound { id }),
    }
}

/// The idea with the given identifier text.
pub fn get_idea_by_id_server(store: &IdeaStore, id: String) -> (r: Result<Idea, IdeaError>)
    requires
        store.wf(),
    ensures
        result_view(r) == get_outcome(store.documents(), id@),
        r matches Err(e) ==> mentions(e, id@),
{
    let rid = match parse_id(id.as_str()) {
        Ok(rid) => rid,
        Err(e) => return Err(e),
    };
    idea_from_lookup(id, store.select_one(&rid))
}

/// Replaces every field of the idea with the given identifier text; the
/// identifier itself is kept.
pub fn update_idea_server(
    store: &mut IdeaStore,
    id: String,
    title: String,
    description: String,
    tags: Vec<String>,
    what_must_be_true: Vec<String>,
    development_notes: String,
) -> (r: Result<Idea, IdeaError>)
    requires
        old(store).wf(),
    ensures
        final(store).wf(),
        final(store).keys_used() == old(store).keys_used(),
        r is Err ==> final(store)@ == old(store)@,
        r matches Err(e) ==> mentions(e, id@),
        result_view(r) == update_outcome(
            old(store).documents(),
            id@,
            title@,
            description@,
            texts(tags@),
            texts(what_must_be_true@),
            development_notes@,
        ),
        final(store).documents() == documents_after_update(
            old(store).documents(),
            id@,
            title@,
            description@,
            texts(tags@),
            texts(what_must_be_true@),
            development_notes@,
        ),
{
    let rid = match parse_id(id.as_str()) {
        Ok(rid) => rid,
        Err(e) => return Err(e),
    };
    let ghost doc = idea_document(
        rid@,
        title@,
        description@,
        texts(tags@),
        texts(what_must_be_true@),
        development_notes@,
    );
    let content = IdeaRecord::unidentified(
        title,
        description,
        tags,
        what_must_be_true,
        development_notes,
    );
    let found = store.update(&rid, content);
    proof {
        if found is Some {
            assert(found->0@ =~= doc);
        }
    }
    idea_from_lookup(id, found)
}

/// Removes the idea with the given identifier text; removing an identifier
/// that names nothing succeeds and changes nothing.
pub fn delete_idea_server(store: &mut IdeaStore, id: String) -> (r: Result<(), IdeaError>)
    requires
        old(store).wf(),
    ensures
        final(store).wf(),
        final(store).keys_used() == old(store).keys_used(),
        r matches Ok(_) ==> delete_outcome(id@) == Ok::<(), ErrorKind>(()),
        r matches Err(e) ==> delete_outcome(id@) == Err::<(), ErrorKind>(e.spec_kind()) && mentions(e, id@)
            && final(store)@ == old(store)@,
        final(store).documents() == documents_after_delete(old(store).documents(), id@),
{
    let rid = match parse_id(id.as_str()) {
        Ok(rid) => rid,
        Err(e) => return Err(e),
    };
    let _removed = store.delete(&rid);
    Ok(())
}

} // verus!
