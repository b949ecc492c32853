//! The catalog as a mathematical object: a sequence of records in insertion
//! order, and what each store operation makes of it.

use vstd::prelude::*;
use crate::product::ProductView;

verus! {

/// The records of a store, oldest first.
pub type Catalog = Seq<ProductView>;

/// Some record carries `id`.
pub open spec fn has_id(c: Catalog, id: int) -> bool {
    exists|i: int| 0 <= i < c.len() && (#[trigger] c[i]).id == id
}

/// `i` is the position of the oldest record that carries `id`.
pub open spec fn is_first_with_id(c: Catalog, id: int, i: int) -> bool {
    &&& 0 <= i < c.len()
    &&& c[i].id == id
    &&& forall|j: int| 0 <= j < i ==> (#[trigger] c[j]).id != id
}

/// The position of the oldest record that carries `id`; the length of the
/// catalog when no record does.
pub open spec fn position(c: Catalog, id: int) -> int
    decreases c.len(),
{
    if c.len() == 0 {
        0
    } else if c[0].id == id {
        0
    } else {
        1 + position(c.drop_first(), id)
    }
}

/// No identifier is carried by two records.
pub open spec fn unique_ids(c: Catalog) -> bool {
    forall|i: int, j: int|
        0 <= i < j < c.len() ==> (#[trigger] c[i]).id != (#[trigger] c[j]).id
}

/// At most one record carries `id`.
pub open spec fn at_most_one(c: Catalog, id: int) -> bool {
    forall|i: int, j: int|
        0 <= i < j < c.len() && (#[trigger] c[i]).id == id ==> (#[trigger] c[j]).id != id
}

/// The identifier the next inserted record receives: one more than the number
/// of records held.
pub open spec fn next_id(c: Catalog) -> int {
    c.len() as int + 1
}

/// The record that a lookup of `id` yields, if any: the oldest one with that
/// identifier.
pub open spec fn lookup(c: Catalog, id: int) -> Option<ProductView> {
    if has_id(c, id) {
        Some(c[position(c, id)])
    } else {
        None
    }
}

/// The catalog after `candidate` is inserted: it is appended under the next
/// identifier, whatever identifier it came with.
pub open spec fn inserted(c: Catalog, candidate: ProductView) -> Catalog {
    c.push(candidate.with_id(next_id(c)))
}

/// The catalog after `candidate` replaces the oldest record with its
/// identifier; unchanged when there is none.
pub open spec fn replaced(c: Catalog, candidate: ProductView) -> Catalog {
    if has_id(c, candidate.id) {
        c.update(position(c, candidate.id), candidate)
    } else {
        c
    }
}

/// The catalog after the oldest record with `id` is removed; unchanged when
/// there is none.
pub open spec fn deleted(c: Catalog, id: int) -> Catalog {
    if has_id(c, id) {
        c.remove(position(c, id))
    } else {
        c
    }
}

/// `position` finds the oldest record with the identifier, and returns the
/// length exactly when there is none.
pub proof fn lemma_position(c: Catalog, id: int)
    ensures
        0 <= position(c, id) <= c.len(),
        has_id(c, id) <==> position(c, id) < c.len(),
        has_id(c, id) ==> is_first_with_id(c, id, position(c, id)),
        forall|j: int| 0 <= j < position(c, id) ==> (#[trigger] c[j]).id != id,
    decreases c.len(),
{
    if c.len() > 0 && c[0].id != id {
        let rest = c.drop_first();
        lemma_position(rest, id);
        assert forall|j: int| 0 <= j < 1 + position(rest, id) implies (#[trigger] c[j]).id
            != id by {
            if j > 0 {
                assert(rest[j - 1] == c[j]);
            }
        }
    }
}

/// Only one position is that of the oldest record with a given identifier.
pub proof fn lemma_first_is_position(c: Catalog, id: int, i: int)
    requires
        is_first_with_id(c, id, i),
    ensures
        has_id(c, id),
        position(c, id) == i,
{
    lemma_position(c, id);
}

} // verus!
