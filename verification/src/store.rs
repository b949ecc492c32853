//! The store: the records in insertion order and the five operations on them.
//!
//! Every mutating operation takes the store by exclusive reference, so no two
//! operations ever see the collection at the same time; whoever shares a store
//! between tasks wraps it in one lock and holds it for one operation.

use vstd::prelude::*;
use crate::catalog::{
    deleted, has_id, inserted, is_first_with_id, lemma_first_is_position, lookup, next_id,
    replaced, Catalog,
};
use crate::error::ServiceError;
use crate::product::Product;

verus! {

/// The most records a store holds. Identifiers are `i32`, and the newest
/// record's identifier is the number of records held once it is in.
pub const MAX_RECORDS: usize = 2_147_483_647;

/// The authoritative collection of records.
pub struct Store {
    products: Vec<Product>,
}

impl View for Store {
    type V = Catalog;

    closed spec fn view(&self) -> Catalog {
        self.products@.map_values(|p: Product| p@)
    }
}

/// The views of a sequence of records, in order.
pub open spec fn views(records: Seq<Product>) -> Catalog {
    records.map_values(|p: Product| p@)
}

impl Store {
    /// A store without records.
    pub fn new() -> (store: Store)
        ensures
            store@ == Catalog::empty(),
    {
        Store { products: Vec::new() }
    }

    /// A store that starts out with `records`, kept as they are and in order.
    pub fn with_products(records: Vec<Product>) -> (store: Store)
        ensures
            store@ == views(records@),
    {
        Store { products: records }
    }

    /// The number of records held.
    pub fn len(&self) -> (n: usize)
        ensures
            n == self@.len(),
    {
        self.products.len()
    }

    /// The position of the oldest record that carries `id`.
    fn find(&self, id: i32) -> (found: Option<usize>)
        ensures
            match found {
                Some(i) => is_first_with_id(self@, id as int, i as int),
                None => !has_id(self@, id as int),
            },
    {
        let mut i: usize = 0;
        while i < self.products.len()
            invariant
                i <= self.products.len(),
                forall|j: int| 0 <= j < i ==> (#[trigger] self@[j]).id != id,
            decreases self.products.len() - i,
        {
            if self.products[i].id == id {
                return Some(i);
            }
            i += 1;
        }
        None
    }

    /// A copy of every record, in insertion order. The store is not changed.
    pub fn list(&self) -> (snapshot: Vec<Product>)
        ensures
            views(snapshot@) == self@,
    {
        let mut snapshot: Vec<Product> = Vec::new();
        let mut i: usize = 0;
        while i < self.products.len()
            invariant
                i <= self.products.len(),
                snapshot@ == self.products@.take(i as int),
            decreases self.products.len() - i,
        {
            snapshot.push(self.products[i].clone());
            i += 1;
        }
        snapshot
    }

    /// The oldest record that carries `id`, or `NotFound` when none does.
    pub fn get(&self, id: i32) -> (found: Result<Product, ServiceError>)
        ensures
            match found {
                Ok(product) => lookup(self@, id as int) == Some(product@),
                Err(e) => e == ServiceError::NotFound && lookup(self@, id as int).is_none(),
            },
    {
        match self.find(id) {
            Some(i) => {
                proof {
                    lemma_first_is_position(self@, id as int, i as int);
                }
                Ok(self.products[i].clone())
            },
            None => Err(ServiceError::NotFound),
        }
    }

    /// Appends `candidate` under the next identifier, in place of whatever
    /// identifier it came with, and returns the record as stored.
    pub fn insert(&mut self, candidate: Product) -> (stored: Product)
        requires
            old(self)@.len() < MAX_RECORDS,
        ensures
            final(self)@ == inserted(old(self)@, candidate@),
            stored@ == candidate@.with_id(next_id(old(self)@)),
    {
        let new_id: i32 = (self.products.len() + 1) as i32;
        let mut product = candidate;
        product.id = new_id;
        self.products.push(product.clone());
        product
    }

    /// Puts `candidate` in the place of the oldest record that carries its
    /// identifier and returns the new value; `NotFound`, and no change, when
    /// no record carries it.
    pub fn replace(&mut self, candidate: Product) -> (outcome: Result<Product, ServiceError>)
        ensures
            final(self)@ == replaced(old(self)@, candidate@),
            match outcome {
                Ok(stored) => has_id(old(self)@, candidate@.id) && stored@ == candidate@,
                Err(e) => e == ServiceError::NotFound && !has_id(old(self)@, candidate@.id),
            },
    {
        match self.find(candidate.id) {
            Some(i) => {
                proof {
                    lemma_first_is_position(self@, candidate@.id, i as int);
                }
                self.products.set(i, candidate.clone());
                Ok(candidate)
            },
            None => Err(ServiceError::NotFound),
        }
    }

    /// Removes the oldest record that carries `id`; the records after it move
    /// up by one place. `NotFound`, and no change, when no record carries it.
    pub fn delete(&mut self, id: i32) -> (outcome: Result<(), ServiceError>)
        ensures
            final(self)@ == deleted(old(self)@, id as int),
            match outcome {
                Ok(_) => has_id(old(self)@, id as int),
                Err(e) => e == ServiceError::NotFound && !has_id(old(self)@, id as int),
            },
    {
        match self.find(id) {
            Some(i) => {
                proof {
                    lemma_first_is_position(self@, id as int, i as int);
                }
                self.products.remove(i);
                Ok(())
            },
            None => Err(ServiceError::NotFound),
        }
    }
}

} // verus!
