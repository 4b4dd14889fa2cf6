//! Parsing of the composite identifier `table:key`.

use vstd::prelude::*;
use crate::error::IdeaError;
use crate::idea::{join_id, parts_ok, RecordId, RecordIdView};

verus! {

/// One part of an identifier: non-empty and free of `:`.
pub open spec fn id_part_ok(p: Seq<char>) -> bool {
    &&& p.len() > 0
    &&& forall|i: int| 0 <= i < p.len() ==> p[i] != ':'
}

/// A text of the form `table:key`: exactly one colon, with a non-empty part on
/// each side of it.
pub open spec fn is_valid_id(s: Seq<char>) -> bool {
    exists|t: Seq<char>, k: Seq<char>| id_part_ok(t) && id_part_ok(k) && s == #[trigger] join_id(t, k)
}

/// The parts of a well-formed identifier text.
pub open spec fn id_of_text(s: Seq<char>) -> RecordIdView {
    let (t, k) = choose|t: Seq<char>, k: Seq<char>|
        id_part_ok(t) && id_part_ok(k) && s == #[trigger] join_id(t, k);
    RecordIdView { table: t, key: k }
}

/// In a well-formed identifier the only colon stands right after the table.
pub proof fn lemma_colon_position(s: Seq<char>, t: Seq<char>, k: Seq<char>)
    requires
        id_part_ok(t),
        id_part_ok(k),
        s == join_id(t, k),
    ensures
        s.len() == t.len() + 1 + k.len(),
        forall|j: int| 0 <= j < s.len() ==> (s[j] == ':' <==> j == t.len()),
        forall|j: int| 0 <= j < t.len() ==> s[j] == t[j],
        forall|j: int| 0 <= j < k.len() ==> s[t.len() + 1 + j] == k[j],
{
    assert forall|j: int| 0 <= j < s.len() implies (s[j] == ':' <==> j == t.len()) by {
        if j > t.len() {
            assert(s[j] == k[j - t.len() - 1]);
        }
    }
}

/// Two identifiers with the same text have the same parts.
pub proof fn lemma_join_injective(t1: Seq<char>, k1: Seq<char>, t2: Seq<char>, k2: Seq<char>)
    requires
        id_part_ok(t1),
        id_part_ok(k1),
        id_part_ok(t2),
        id_part_ok(k2),
        join_id(t1, k1) == join_id(t2, k2),
    ensures
        t1 == t2,
        k1 == k2,
{
    let s = join_id(t1, k1);
    lemma_colon_position(s, t1, k1);
    lemma_colon_position(s, t2, k2);
    assert(s[t1.len() as int] == ':');
    assert(t1.len() == t2.len());
    assert(t1 =~= t2);
    assert(k1 =~= k2);
}

/// The error for a malformed identifier.
pub fn invalid_id(id: &str) -> (e: IdeaError)
    ensures
        e matches IdeaError::InvalidId { id: text } && text@ == id@,
{
    IdeaError::InvalidId { id: String::from_str(id) }
}

/// Splits `table:key` into its two parts; any other text is refused.
pub fn parse_id(id: &str) -> (r: Result<RecordId, IdeaError>)
    ensures
        r is Ok <==> is_valid_id(id@),
        r matches Ok(rid) ==> parts_ok(rid@) && join_id(rid@.table, rid@.key) == id@ && rid@
            == id_of_text(id@),
        r matches Err(e) ==> e matches IdeaError::InvalidId { id: text } && text@ == id@,
{
    let n = id.unicode_len();
    let mut i: usize = 0;
    while i < n && id.get_char(i) != ':'
        invariant
            i <= n,
            n == id@.len(),
            forall|j: int| 0 <= j < i ==> id@[j] != ':',
        decreases n - i,
    {
        i = i + 1;
    }
    if i == n || i == 0 || i + 1 == n {
        assert forall|t: Seq<char>, k: Seq<char>|
            !(id_part_ok(t) && id_part_ok(k) && id@ == #[trigger] join_id(t, k)) by {
            if id_part_ok(t) && id_part_ok(k) && id@ == join_id(t, k) {
                lemma_colon_position(id@, t, k);
                assert(id@[t.len() as int] == ':');
                assert(id@[n - 1] == k[k.len() - 1]);
            }
        }
        return Err(invalid_id(id));
    }
    let p = i;
    let mut j: usize = p + 1;
    while j < n
        invariant
            p < j <= n,
            n == id@.len(),
            id@[p as int] == ':',
            forall|q: int| 0 <= q < p ==> id@[q] != ':',
            forall|q: int| p < q < j ==> id@[q] != ':',
        decreases n - j,
    {
        if id.get_char(j) == ':' {
            assert forall|t: Seq<char>, k: Seq<char>|
                !(id_part_ok(t) && id_part_ok(k) && id@ == #[trigger] join_id(t, k)) by {
                if id_part_ok(t) && id_part_ok(k) && id@ == join_id(t, k) {
                    lemma_colon_position(id@, t, k);
                }
            }
            return Err(invalid_id(id));
        }
        j = j + 1;
    }
    let table = id.substring_char(0, p);
    let key = id.substring_char(p + 1, n);
    assert(join_id(table@, key@) =~= id@);
    assert(id_part_ok(table@) && id_part_ok(key@)) by {
        assert forall|q: int| 0 <= q < key@.len() implies key@[q] != ':' by {
            assert(key@[q] == id@[p + 1 + q]);
        }
    }
    let rid = RecordId::new(table, key);
    proof {
        let (t, k) = choose|t: Seq<char>, k: Seq<char>|
            id_part_ok(t) && id_part_ok(k) && id@ == #[trigger] join_id(t, k);
        lemma_join_injective(t, k, table@, key@);
        assert(rid@ == id_of_text(id@));
    }
    Ok(rid)
}

} // verus!
