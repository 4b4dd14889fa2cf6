//! Properties that relate the requests to one another, proved over the
//! outcomes that the requests are shown to have.

use vstd::prelude::*;
use crate::endpoints::{
    delete_outcome,
    documents_after_delete,
    documents_after_update,
    get_outcome,
    ideas_of,
    idea_document,
    submitted,
    update_outcome,
    IDEAS_TABLE,
};
use crate::error::ErrorKind;
use crate::idea::{idea_of_record, join_id, IdeaRecordView, IdeaView, RecordIdView};
use crate::ident::{id_of_text, id_part_ok, is_valid_id, lemma_join_injective};
use crate::store::table_records;

verus! {

/// The identifier text of a record identifier with well-formed parts is
/// itself well formed and parses back to those parts.
pub proof fn lemma_join_parses_back(rid: RecordIdView)
    requires
        id_part_ok(rid.table),
        id_part_ok(rid.key),
    ensures
        is_valid_id(join_id(rid.table, rid.key)),
        id_of_text(join_id(rid.table, rid.key)) == rid,
{
    let s = join_id(rid.table, rid.key);
    assert(id_part_ok(rid.table) && id_part_ok(rid.key) && s == join_id(rid.table, rid.key));
    let (t, k) = choose|t: Seq<char>, k: Seq<char>|
        id_part_ok(t) && id_part_ok(k) && s == #[trigger] join_id(t, k);
    lemma_join_injective(t, k, rid.table, rid.key);
}

/// After a successful submission, fetching the identifier of the answered
/// idea gives back the submitted fields with an empty checklist and empty
/// notes.
pub proof fn law_submit_then_get(
    before: Map<RecordIdView, IdeaRecordView>,
    after: Map<RecordIdView, IdeaRecordView>,
    title: Seq<char>,
    description: Seq<char>,
    tags: Seq<Seq<char>>,
    idea: IdeaView,
)
    requires
        submitted(before, after, title, description, tags, idea),
    ensures
        idea.id is Some,
        get_outcome(after, idea.id->0) == Ok::<IdeaView, ErrorKind>(idea),
        idea == (IdeaView {
            id: idea.id,
            title,
            description,
            tags,
            what_must_be_true: seq![],
            development_notes: seq![],
        }),
        get_outcome(after, idea.id->0) == Ok::<IdeaView, ErrorKind>(
            IdeaView {
                id: idea.id,
                title,
                description,
                tags,
                what_must_be_true: seq![],
                development_notes: seq![],
            },
        ),
{
    let rid = choose|rid: RecordIdView|
        {
            &&& rid.table == IDEAS_TABLE@
            &&& id_part_ok(rid.key)
            &&& !before.contains_key(rid)
            &&& after == before.insert(
                rid,
                #[trigger] idea_document(rid, title, description, tags, seq![], seq![]),
            )
            &&& idea == idea_of_record(idea_document(rid, title, description, tags, seq![], seq![]))
        };
    reveal_strlit("ideas");
    assert(id_part_ok(rid.table));
    lemma_join_parses_back(rid);
}

/// Listing a store that holds no document gives an empty list.
pub proof fn law_list_of_empty_store(docs: Seq<IdeaRecordView>)
    requires
        docs.len() == 0,
    ensures
        ideas_of(table_records(docs, IDEAS_TABLE@)) == Seq::<IdeaView>::empty(),
{
    reveal(Seq::filter);
    assert(ideas_of(table_records(docs, IDEAS_TABLE@)) =~= Seq::<IdeaView>::empty());
}

/// Fetching, updating and deleting all refuse a malformed identifier text,
/// and leave the documents as they were.
pub proof fn law_malformed_id_refused(
    docs: Map<RecordIdView, IdeaRecordView>,
    id: Seq<char>,
    title: Seq<char>,
    description: Seq<char>,
    tags: Seq<Seq<char>>,
    what_must_be_true: Seq<Seq<char>>,
    development_notes: Seq<char>,
)
    requires
        !is_valid_id(id),
    ensures
        get_outcome(docs, id) == Err::<IdeaView, ErrorKind>(ErrorKind::InvalidId),
        update_outcome(docs, id, title, description, tags, what_must_be_true, development_notes)
            == Err::<IdeaView, ErrorKind>(ErrorKind::InvalidId),
        documents_after_update(docs, id, title, description, tags, what_must_be_true, development_notes)
            == docs,
        delete_outcome(id) == Err::<(), ErrorKind>(ErrorKind::InvalidId),
        documents_after_delete(docs, id) == docs,
{
}

/// A text with no colon, or with more than one, or with an empty part on
/// either side of its colon, is a malformed identifier.
pub proof fn law_malformed_shapes(s: Seq<char>)
    requires
        (forall|i: int| 0 <= i < s.len() ==> s[i] != ':') || (exists|i: int, j: int|
            0 <= i < j < s.len() && s[i] == ':' && s[j] == ':') || (s.len() > 0 && (s[0] == ':'
            || s[s.len() - 1] == ':')),
    ensures
        !is_valid_id(s),
{
    if is_valid_id(s) {
        let (t, k) = choose|t: Seq<char>, k: Seq<char>|
            id_part_ok(t) && id_part_ok(k) && s == #[trigger] join_id(t, k);
        crate::ident::lemma_colon_position(s, t, k);
        assert(s[t.len() as int] == ':');
        if exists|i: int, j: int| 0 <= i < j < s.len() && s[i] == ':' && s[j] == ':' {
            let (i, j) = choose|i: int, j: int| 0 <= i < j < s.len() && s[i] == ':' && s[j] == ':';
            assert(i == t.len() && j == t.len());
        }
        if s.len() > 0 && s[s.len() - 1] == ':' {
            assert(s[s.len() - 1] == k[k.len() - 1]);
        }
    }
}

/// Fetching a well-formed identifier that names no document fails with
/// not-found.
pub proof fn law_get_missing(docs: Map<RecordIdView, IdeaRecordView>, id: Seq<char>)
    requires
        is_valid_id(id),
        !docs.contains_key(id_of_text(id)),
    ensures
        get_outcome(docs, id) == Err::<IdeaView, ErrorKind>(ErrorKind::NotFound),
{
}

/// After a successful update, fetching the same identifier gives exactly the
/// new field values, whatever they are (an empty checklist and empty notes
/// included).
pub proof fn law_update_then_get(
    docs: Map<RecordIdView, IdeaRecordView>,
    id: Seq<char>,
    title: Seq<char>,
    description: Seq<char>,
    tags: Seq<Seq<char>>,
    what_must_be_true: Seq<Seq<char>>,
    development_notes: Seq<char>,
)
    requires
        is_valid_id(id),
        docs.contains_key(id_of_text(id)),
    ensures
        update_outcome(docs, id, title, description, tags, what_must_be_true, development_notes) is Ok,
        get_outcome(
            documents_after_update(
                docs,
                id,
                title,
                description,
                tags,
                what_must_be_true,
                development_notes,
            ),
            id,
        ) == Ok::<IdeaView, ErrorKind>(
            IdeaView { id: Some(id), title, description, tags, what_must_be_true, development_notes },
        ),
{
    let rid = id_of_text(id);
    let (t, k) = choose|t: Seq<char>, k: Seq<char>|
        id_part_ok(t) && id_part_ok(k) && id == #[trigger] join_id(t, k);
    assert(join_id(rid.table, rid.key) == id);
}

/// After deleting a well-formed identifier, fetching it fails with not-found.
pub proof fn law_delete_then_get(docs: Map<RecordIdView, IdeaRecordView>, id: Seq<char>)
    requires
        is_valid_id(id),
    ensures
        delete_outcome(id) is Ok,
        get_outcome(documents_after_delete(docs, id), id) == Err::<IdeaView, ErrorKind>(
            ErrorKind::NotFound,
        ),
{
}

} // verus!
