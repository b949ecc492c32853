//! The catalog's single entity and its mathematical view.

use vstd::prelude::*;

verus! {

/// What a [`Product`] is in specifications: its fields as plain values.
pub struct ProductView {
    pub id: int,
    pub name: Seq<char>,
    pub price_bits: u32,
    pub description: Seq<char>,
    pub image: Seq<char>,
}

impl ProductView {
    /// The same record under another identifier.
    pub open spec fn with_id(self, id: int) -> ProductView {
        ProductView { id, ..self }
    }

    /// Two records agree on every field but, possibly, the identifier.
    pub open spec fn same_content(self, other: ProductView) -> bool {
        self.with_id(other.id) == other
    }
}

/// A catalog record.
///
/// The store never computes with a price, so the price is carried as the bit
/// pattern of a single-precision IEEE 754 number (`f32::to_bits`), which keeps
/// equality of records exact.
#[derive(Debug, PartialEq, Eq)]
pub struct Product {
    pub id: i32,
    pub name: String,
    pub price_bits: u32,
    pub description: String,
    pub image: String,
}

impl View for Product {
    type V = ProductView;

    open spec fn view(&self) -> ProductView {
        ProductView {
            id: self.id as int,
            name: self.name@,
            price_bits: self.price_bits,
            description: self.description@,
            image: self.image@,
        }
    }
}

impl Clone for Product {
    fn clone(&self) -> (copy: Self)
        ensures
            copy == *self,
    {
        Product {
            id: self.id,
            name: self.name.clone(),
            price_bits: self.price_bits,
            description: self.description.clone(),
            image: self.image.clone(),
        }
    }
}

} // verus!
