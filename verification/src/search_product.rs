//! Input and output of the product search.
//!
//! Every filter is optional: an absent filter matches every row, a present
//! one matches by exact value.  Absent pagination values fall back to a limit
//! of 100 and an offset of 0.

use vstd::prelude::*;

use crate::product::{Product, ProductData};

verus! {

/// The limit applied when the caller supplies none.
pub const DEFAULT_SEARCH_LIMIT: i64 = 100;

/// The mathematical value of a search request after defaults are applied.
pub ghost struct SearchProductData {
    pub offset: int,
    pub limit: int,
    pub name: Option<Seq<char>>,
    pub code: Option<Seq<char>>,
}

/// A product search request: optional exact-match filters plus pagination.
#[derive(Debug)]
pub struct SearchProductInput {
    offset: i64,
    limit: i64,
    name: Option<String>,
    code: Option<String>,
}

impl View for SearchProductInput {
    type V = SearchProductData;

    closed spec fn view(&self) -> SearchProductData {
        SearchProductData {
            offset: self.offset as int,
            limit: self.limit as int,
            name: match self.name {
                Some(ref v) => Some(v@),
                None => None,
            },
            code: match self.code {
                Some(ref v) => Some(v@),
                None => None,
            },
        }
    }
}

impl SearchProductInput {
    /// An absent offset defaults to 0, an absent limit to
    /// [`DEFAULT_SEARCH_LIMIT`]; absent filters stay absent and match all
    /// rows.
    pub fn new(
        offset: Option<i64>,
        limit: Option<i64>,
        name: Option<String>,
        code: Option<String>,
    ) -> (r: Self)
        ensures
            r@ == (SearchProductData {
                offset: match offset {
                    Some(v) => v as int,
                    None => 0,
                },
                limit: match limit {
                    Some(v) => v as int,
                    None => DEFAULT_SEARCH_LIMIT as int,
                },
                name: match name {
                    Some(v) => Some(v@),
                    None => None,
                },
                code: match code {
                    Some(v) => Some(v@),
                    None => None,
                },
            }),
    {
        Self {
            offset: match offset {
                None => 0,
                Some(offset) => offset,
            },
            limit: match limit {
                None => DEFAULT_SEARCH_LIMIT,
                Some(limit) => limit,
            },
            name,
            code,
        }
    }

    pub fn offset(&self) -> (r: &i64)
        ensures
            *r as int == self@.offset,
    {
        &self.offset
    }

    pub fn limit(&self) -> (r: &i64)
        ensures
            *r as int == self@.limit,
    {
        &self.limit
    }

    pub fn name(&self) -> (r: &Option<String>)
        ensures
            (*r) is Some <==> self@.name is Some,
            (*r) matches Some(v) ==> self@.name == Some(v@),
    {
        &self.name
    }

    pub fn code(&self) -> (r: &Option<String>)
        ensures
            (*r) is Some <==> self@.code is Some,
            (*r) matches Some(v) ==> self@.code == Some(v@),
    {
        &self.code
    }
}

/// The mathematical values of a list of products, in order.
pub open spec fn products_data(products: Seq<Product>) -> Seq<ProductData> {
    Seq::new(products.len(), |i: int| products[i]@)
}

/// What the search operation hands back: the matching products, in store
/// order.
#[derive(Debug)]
pub struct SearchProductOutput {
    pub products: Vec<Product>,
}

impl View for SearchProductOutput {
    type V = Seq<ProductData>;

    closed spec fn view(&self) -> Seq<ProductData> {
        products_data(self.products@)
    }
}

impl SearchProductOutput {
    pub fn new(products: Vec<Product>) -> (r: Self)
        ensures
            r@ == products_data(products@),
    {
        Self { products }
    }
}

} // verus!
