//! Output of the find-product-by-identity operation.

use vstd::prelude::*;

use crate::product::{Product, ProductData};

verus! {

/// What the find-by-identity operation hands back: the product, or nothing
/// when the identity matches no live row.  Not finding a row is a success
/// value, never an error.
#[derive(Debug)]
pub struct FindByIDProductOutput {
    pub product: Option<Product>,
}

impl View for FindByIDProductOutput {
    type V = Option<ProductData>;

    closed spec fn view(&self) -> Option<ProductData> {
        match self.product {
            Some(ref p) => Some(p@),
            None => None,
        }
    }
}

impl FindByIDProductOutput {
    pub fn new(product: Option<Product>) -> (r: Self)
        ensures
            r@ == (match product {
                Some(p) => Some(p@),
                None => None::<ProductData>,
            }),
    {
        Self { product }
    }
}

} // verus!
