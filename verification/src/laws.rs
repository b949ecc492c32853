//! What follows from the store's operations taken together.
//!
//! Identifiers are handed out by counting the records held, so an identifier
//! comes back into use once a record has been deleted, and with it a newly
//! inserted record can share its identifier with an older one. The laws below
//! say what holds of every catalog and what holds only as long as that has not
//! happened.

use vstd::prelude::*;
use crate::body::{admitted, received, MAX_SIZE};
use crate::catalog::{
    at_most_one, deleted, has_id, inserted, lemma_first_is_position, lemma_position, lookup,
    next_id, position, replaced, unique_ids, Catalog,
};
use crate::product::{Product, ProductView};
use crate::store::views;

verus! {

/// The identifiers held are 1, 2, 3, ... in insertion order, as in a store
/// that started empty and never deleted any record but its newest.
pub open spec fn sequential_ids(c: Catalog) -> bool {
    forall|i: int| 0 <= i < c.len() ==> (#[trigger] c[i]).id == i + 1
}

/// One mutation of a catalog.
pub enum Operation {
    Insert(ProductView),
    Replace(ProductView),
    Delete(int),
}

/// The catalog after one mutation. A replace or delete of an identifier that
/// is not held fails and changes nothing.
pub open spec fn apply(c: Catalog, op: Operation) -> Catalog {
    match op {
        Operation::Insert(candidate) => inserted(c, candidate),
        Operation::Replace(candidate) => replaced(c, candidate),
        Operation::Delete(id) => deleted(c, id),
    }
}

/// The catalog after a run of mutations, applied first to last.
pub open spec fn run(c: Catalog, ops: Seq<Operation>) -> Catalog
    decreases ops.len(),
{
    if ops.len() == 0 {
        c
    } else {
        run(apply(c, ops[0]), ops.drop_first())
    }
}

/// No insert of the run meets a catalog that already holds the identifier the
/// new record is about to receive.
pub open spec fn collision_free(c: Catalog, ops: Seq<Operation>) -> bool
    decreases ops.len(),
{
    if ops.len() == 0 {
        true
    } else {
        &&& ops[0] is Insert ==> !has_id(c, next_id(c))
        &&& collision_free(apply(c, ops[0]), ops.drop_first())
    }
}

/// A record that was inserted is found again under the identifier it was
/// given, equal to what was handed in but for that identifier, provided no
/// older record already carries it.
pub proof fn law_insert_then_get(c: Catalog, candidate: ProductView)
    requires
        !has_id(c, next_id(c)),
    ensures
        lookup(inserted(c, candidate), next_id(c)) == Some(candidate.with_id(next_id(c))),
        candidate.with_id(next_id(c)).same_content(candidate),
{
    lemma_first_is_position(inserted(c, candidate), next_id(c), c.len() as int);
}

/// Where an older record already carries the identifier a new record is
/// given, a lookup of that identifier still yields the older one.
pub proof fn law_insert_is_shadowed(c: Catalog, candidate: ProductView)
    requires
        has_id(c, next_id(c)),
    ensures
        lookup(inserted(c, candidate), next_id(c)) == lookup(c, next_id(c)),
{
    lemma_position(c, next_id(c));
    lemma_first_is_position(inserted(c, candidate), next_id(c), position(c, next_id(c)));
}

/// An insert keeps identifiers unique, provided the identifier it hands out
/// is not already held.
pub proof fn law_insert_keeps_ids_unique(c: Catalog, candidate: ProductView)
    requires
        unique_ids(c),
        !has_id(c, next_id(c)),
    ensures
        unique_ids(inserted(c, candidate)),
{
}

/// An insert that hands out an identifier already held leaves two records
/// with that identifier.
pub proof fn law_insert_collides(c: Catalog, candidate: ProductView)
    requires
        has_id(c, next_id(c)),
    ensures
        !unique_ids(inserted(c, candidate)),
{
    let after = inserted(c, candidate);
    let i = choose|i: int| 0 <= i < c.len() && (#[trigger] c[i]).id == next_id(c);
    assert(after[i] == c[i]);
    assert(after[c.len() as int].id == next_id(c));
}

/// A replace keeps identifiers unique.
pub proof fn law_replace_keeps_ids_unique(c: Catalog, candidate: ProductView)
    requires
        unique_ids(c),
    ensures
        unique_ids(replaced(c, candidate)),
{
    lemma_position(c, candidate.id);
}

/// A delete keeps identifiers unique.
pub proof fn law_delete_keeps_ids_unique(c: Catalog, id: int)
    requires
        unique_ids(c),
    ensures
        unique_ids(deleted(c, id)),
{
    lemma_position(c, id);
}

/// After any run of mutations in which no insert hands out an identifier that
/// is already held, no two records share an identifier.
pub proof fn law_ids_stay_unique(c: Catalog, ops: Seq<Operation>)
    requires
        unique_ids(c),
        collision_free(c, ops),
    ensures
        unique_ids(run(c, ops)),
    decreases ops.len(),
{
    if ops.len() > 0 {
        match ops[0] {
            Operation::Insert(candidate) => law_insert_keeps_ids_unique(c, candidate),
            Operation::Replace(candidate) => law_replace_keeps_ids_unique(c, candidate),
            Operation::Delete(id) => law_delete_keeps_ids_unique(c, id),
        }
        law_ids_stay_unique(apply(c, ops[0]), ops.drop_first());
    }
}

/// While the identifiers held are 1, 2, 3, ... they are unique and the next
/// one is free; an insert and a replace keep them so.
pub proof fn law_sequential_ids(c: Catalog, candidate: ProductView)
    requires
        sequential_ids(c),
    ensures
        unique_ids(c),
        !has_id(c, next_id(c)),
        sequential_ids(inserted(c, candidate)),
        sequential_ids(replaced(c, candidate)),
{
    lemma_position(c, candidate.id);
}

/// A store whose identifiers are 1, 2, 3, ..., an empty one among them,
/// holds no identifier twice for as long as it does not delete, whatever it
/// inserts and replaces.
pub proof fn law_without_deletion_ids_are_unique(c: Catalog, ops: Seq<Operation>)
    requires
        sequential_ids(c),
        forall|k: int| 0 <= k < ops.len() ==> !(#[trigger] ops[k] is Delete),
    ensures
        collision_free(c, ops),
        sequential_ids(run(c, ops)),
        unique_ids(run(c, ops)),
    decreases ops.len(),
{
    if ops.len() == 0 {
        law_sequential_ids(c, arbitrary());
    } else {
        match ops[0] {
            Operation::Insert(candidate) => law_sequential_ids(c, candidate),
            Operation::Replace(candidate) => law_sequential_ids(c, candidate),
            Operation::Delete(id) => {},
        }
        law_without_deletion_ids_are_unique(apply(c, ops[0]), ops.drop_first());
    }
}

/// A delete that succeeds takes exactly one record away.
pub proof fn law_delete_removes_one(c: Catalog, id: int)
    requires
        has_id(c, id),
    ensures
        deleted(c, id).len() == c.len() - 1,
{
    lemma_position(c, id);
}

/// After a record is deleted its identifier is no longer found, provided no
/// second record carried the same identifier.
pub proof fn law_delete_then_get(c: Catalog, id: int)
    requires
        has_id(c, id),
        at_most_one(c, id),
    ensures
        lookup(deleted(c, id), id).is_none(),
{
    lemma_position(c, id);
}

/// Where two records carry the identifier, a delete takes the older one away
/// and a lookup then yields another record with that identifier.
pub proof fn law_delete_uncovers_duplicate(c: Catalog, id: int)
    requires
        !at_most_one(c, id),
    ensures
        has_id(c, id),
        has_id(deleted(c, id), id),
{
    let (i, j) = choose|i: int, j: int|
        0 <= i < j < c.len() && (#[trigger] c[i]).id == id && (#[trigger] c[j]).id == id;
    lemma_position(c, id);
    assert(deleted(c, id)[j - 1] == c[j]);
}

/// A replace that succeeds changes one record and nothing else: the number
/// of records, their order and every identifier stay as they were, the
/// record in question takes the candidate's other fields, and a lookup of the
/// identifier yields the candidate.
pub proof fn law_replace_keeps_identity(c: Catalog, candidate: ProductView)
    requires
        has_id(c, candidate.id),
    ensures
        replaced(c, candidate).len() == c.len(),
        forall|i: int| 0 <= i < c.len() ==> (#[trigger] replaced(c, candidate)[i]).id == c[i].id,
        forall|i: int|
            0 <= i < c.len() && i != position(c, candidate.id)
                ==> #[trigger] replaced(c, candidate)[i] == c[i],
        replaced(c, candidate)[position(c, candidate.id)] == candidate,
        lookup(replaced(c, candidate), candidate.id) == Some(candidate),
{
    lemma_position(c, candidate.id);
    lemma_first_is_position(replaced(c, candidate), candidate.id, position(c, candidate.id));
}

/// Listing is repeatable: two listings of a catalog that was not changed in
/// between hold the same records in the same order.
pub proof fn law_list_repeats(c: Catalog, first: Seq<Product>, second: Seq<Product>)
    requires
        views(first) == c,
        views(second) == c,
    ensures
        views(first) == views(second),
        first.len() == second.len(),
        forall|i: int| 0 <= i < first.len() ==> (#[trigger] first[i])@ == second[i]@,
{
    assert(views(second).len() == second.len());
    assert forall|i: int| 0 <= i < first.len() implies (#[trigger] first[i])@ == second[i]@ by {
        assert(views(second)[i] == second[i]@);
    }
}

/// A lookup succeeds exactly for the identifiers that are held, and what it
/// yields carries the identifier asked for.
pub proof fn law_lookup_finds_held_ids(c: Catalog, id: int)
    ensures
        lookup(c, id) is Some <==> has_id(c, id),
        lookup(c, id) matches Some(record) ==> record.id == id,
{
    lemma_position(c, id);
}

/// Whether a body is accepted depends on its size alone, not on how it is cut
/// into chunks: offered to a buffer that is within the ceiling, the chunks are
/// received whole when what was held and they together are no longer than the
/// ceiling, and refused when they are longer by as little as one byte.
pub proof fn law_ceiling_ignores_chunking(body: Seq<u8>, chunks: Seq<Seq<u8>>)
    requires
        body.len() <= MAX_SIZE,
    ensures
        received(body, chunks) == if body.len() + chunks.flatten().len() <= MAX_SIZE {
            Some(body + chunks.flatten())
        } else {
            None
        },
    decreases chunks.len(),
{
    if chunks.len() > 0 {
        match admitted(body, chunks[0]) {
            Some(longer) => law_ceiling_ignores_chunking(longer, chunks.drop_first()),
            None => {},
        }
    }
}

} // verus!
