//! Laws relating the persistence operations: what a listing shows after an
//! add, an update or a remove, and what it shows of a fresh store.
//!
//! The operations' own contracts state how each rewrites the table model;
//! these proofs connect those rewrites to the listing that `get_all_todos`
//! returns, as [`crate::db::lists_table`] describes it.

use vstd::prelude::*;
use crate::db::{empty_table, lists_table};
use crate::models::{Todo, desc_view};

verus! {

/// After an add has inserted the given title and description under a fresh
/// id, a listing of the store contains a record with that id, at exactly
/// one position, carrying exactly those values; every other listed record
/// is a row the store already held, unchanged; and the listing has grown
/// by one.
pub proof fn lemma_add_then_list(
    m: Map<int, (Seq<char>, Option<Seq<char>>)>,
    id: int,
    title: Seq<char>,
    description: Seq<char>,
    v: Seq<Todo>,
)
    requires
        !m.contains_key(id),
        lists_table(v, m.insert(id, (title, Some(description)))),
    ensures
        exists|i: int| 0 <= i < v.len() && (#[trigger] v[i]).id as int == id,
        forall|i: int|
            0 <= i < v.len() && (#[trigger] v[i]).id as int == id ==> v[i].title@ == title
                && desc_view(v[i].description) == Some(description),
        forall|i: int, j: int|
            0 <= i < v.len() && 0 <= j < v.len() && i != j && (#[trigger] v[i]).id as int == id
                ==> (#[trigger] v[j]).id as int != id,
        forall|i: int|
            0 <= i < v.len() && (#[trigger] v[i]).id as int != id ==> m.contains_key(
                v[i].id as int,
            ) && m[v[i].id as int] == (v[i].title@, desc_view(v[i].description)),
        v.len() == m.dom().len() + 1,
        m.dom().finite(),
{
    let m2 = m.insert(id, (title, Some(description)));
    assert(m2.contains_key(id));
    assert(m.dom() =~= m2.dom().remove(id));
    assert(m2.dom() =~= m.dom().insert(id));
    vstd::set::axiom_set_insert_len(m.dom(), id);
}

/// After an update of an id the store held, a listing contains a record
/// with that id, at exactly one position, carrying the new title and
/// description; every other listed record is unchanged; and the listing
/// has kept its length.
pub proof fn lemma_update_then_list(
    m: Map<int, (Seq<char>, Option<Seq<char>>)>,
    id: int,
    title: Seq<char>,
    description: Seq<char>,
    v: Seq<Todo>,
)
    requires
        m.contains_key(id),
        lists_table(v, m.insert(id, (title, Some(description)))),
    ensures
        exists|i: int| 0 <= i < v.len() && (#[trigger] v[i]).id as int == id,
        forall|i: int|
            0 <= i < v.len() && (#[trigger] v[i]).id as int == id ==> v[i].title@ == title
                && desc_view(v[i].description) == Some(description),
        forall|i: int, j: int|
            0 <= i < v.len() && 0 <= j < v.len() && i != j && (#[trigger] v[i]).id as int == id
                ==> (#[trigger] v[j]).id as int != id,
        forall|i: int|
            0 <= i < v.len() && (#[trigger] v[i]).id as int != id ==> m.contains_key(
                v[i].id as int,
            ) && m[v[i].id as int] == (v[i].title@, desc_view(v[i].description)),
        v.len() == m.dom().len(),
{
    let m2 = m.insert(id, (title, Some(description)));
    assert(m2.contains_key(id));
    assert(m2.dom() =~= m.dom());
}

/// After a remove of an id, a listing of the store no longer contains
/// that id, while every other row the store held is still listed,
/// unchanged. Removing an id the store did not hold leaves the store as
/// it was.
pub proof fn lemma_remove_then_list(
    m: Map<int, (Seq<char>, Option<Seq<char>>)>,
    id: int,
    v: Seq<Todo>,
)
    requires
        lists_table(v, m.remove(id)),
    ensures
        forall|i: int| 0 <= i < v.len() ==> (#[trigger] v[i]).id as int != id,
        forall|k: int|
            #[trigger] m.contains_key(k) && k != id ==> exists|i: int|
                0 <= i < v.len() && (#[trigger] v[i]).id as int == k,
        forall|i: int|
            0 <= i < v.len() ==> m.contains_key((#[trigger] v[i]).id as int) && m[v[i].id as int]
                == (v[i].title@, desc_view(v[i].description)),
        !m.contains_key(id) ==> m.remove(id) == m,
{
    let m2 = m.remove(id);
    assert forall|i: int| 0 <= i < v.len() implies (#[trigger] v[i]).id as int != id by {
        assert(m2.contains_key(v[i].id as int));
    }
    assert forall|k: int| #[trigger] m.contains_key(k) && k != id implies exists|i: int|
        0 <= i < v.len() && (#[trigger] v[i]).id as int == k by {
        assert(m2.contains_key(k));
    }
    if !m.contains_key(id) {
        assert(m.remove(id) =~= m);
    }
}

/// A listing of a store that holds no records is the empty sequence.
pub proof fn lemma_list_of_empty_store(m: Map<int, (Seq<char>, Option<Seq<char>>)>, v: Seq<Todo>)
    requires
        empty_table(m),
        lists_table(v, m),
    ensures
        v =~= Seq::<Todo>::empty(),
{
    assert(m.dom() =~= Set::<int>::empty());
}

} // verus!
