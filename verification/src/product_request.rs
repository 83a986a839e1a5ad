//! Requests of the command layer for the product entity, as plain values.

use vstd::prelude::*;

use crate::create_product::CreateProductData;
use crate::product::ProductId;
use crate::update_product::UpdateProductData;

verus! {

/// A request to read one product by its identity.
pub struct FindByIDProductRequest {
    product_id: i64,
}

impl View for FindByIDProductRequest {
    type V = int;

    closed spec fn view(&self) -> int {
        self.product_id as int
    }
}

impl FindByIDProductRequest {
    pub fn new(product_id: i64) -> (r: Self)
        ensures
            r@ == product_id as int,
    {
        Self { product_id }
    }

    pub fn product_id(&self) -> (r: &i64)
        ensures
            *r as int == self@,
    {
        &self.product_id
    }
}

/// The mathematical value of a search request before defaults are applied.
pub ghost struct SearchProductRequestData {
    pub name: Option<Seq<char>>,
    pub code: Option<Seq<char>>,
    pub limit: Option<int>,
    pub offset: Option<int>,
}

/// A request to search products: optional exact-match filters plus optional
/// pagination values.
pub struct SearchProductRequest {
    name: Option<String>,
    code: Option<String>,
    limit: Option<i64>,
    offset: Option<i64>,
}

impl View for SearchProductRequest {
    type V = SearchProductRequestData;

    closed spec fn view(&self) -> SearchProductRequestData {
        SearchProductRequestData {
            name: match self.name {
                Some(ref v) => Some(v@),
                None => None,
            },
            code: match self.code {
                Some(ref v) => Some(v@),
                None => None,
            },
            limit: match self.limit {
                Some(v) => Some(v as int),
                None => None,
            },
            offset: match self.offset {
                Some(v) => Some(v as int),
                None => None,
            },
        }
    }
}

impl SearchProductRequest {
    pub fn new(
        name: Option<String>,
        code: Option<String>,
        limit: Option<i64>,
        offset: Option<i64>,
    ) -> (r: Self)
        ensures
            r@ == (SearchProductRequestData {
                name: match name {
                    Some(v) => Some(v@),
                    None => None,
                },
                code: match code {
                    Some(v) => Some(v@),
                    None => None,
                },
                limit: match limit {
                    Some(v) => Some(v as int),
                    None => None,
                },
                offset: match offset {
                    Some(v) => Some(v as int),
                    None => None,
                },
            }),
    {
        Self { name, code, limit, offset }
    }

    pub fn name(&self) -> (r: &Option<String>)
        ensures
            (*r) is Some <==> self@.name is Some,
            (*r) matches Some(v) ==> self@.name == Some(v@),
    {
        &self.name
    }

    pub fn code(&self) -> (r: &Option<String>)
        ensures
            (*r) is Some <==> self@.code is Some,
            (*r) matches Some(v) ==> self@.code == Some(v@),
    {
        &self.code
    }

    pub fn limit(&self) -> (r: &Option<i64>)
        ensures
            (*r) is Some <==> self@.limit is Some,
            (*r) matches Some(v) ==> self@.limit == Some(v as int),
    {
        &self.limit
    }

    pub fn offset(&self) -> (r: &Option<i64>)
        ensures
            (*r) is Some <==> self@.offset is Some,
            (*r) matches Some(v) ==> self@.offset == Some(v as int),
    {
        &self.offset
    }
}

/// A request to create a product: every scalar field, no identity.
pub struct CreateProductRequest {
    pub name: String,
    pub code: String,
    pub unit: String,
    pub default_price: i64,
    pub standard_stock_quantity: i64,
}

impl View for CreateProductRequest {
    type V = CreateProductData;

    open spec fn view(&self) -> CreateProductData {
        CreateProductData {
            name: self.name@,
            code: self.code@,
            unit: self.unit@,
            default_price: self.default_price as int,
            standard_stock_quantity: self.standard_stock_quantity as int,
        }
    }
}

/// A request to update a product: the identity plus an optional new value
/// for every mutable field.
pub struct UpdateProductRequest {
    pub id: i64,
    pub name: Option<String>,
    pub code: Option<String>,
    pub unit: Option<String>,
    pub default_price: Option<i64>,
    pub standard_stock_quantity: Option<i64>,
}

impl View for UpdateProductRequest {
    type V = UpdateProductData;

    open spec fn view(&self) -> UpdateProductData {
        UpdateProductData {
            id: self.id as int,
            name: match self.name {
                Some(ref v) => Some(v@),
                None => None,
            },
            code: match self.code {
                Some(ref v) => Some(v@),
                None => None,
            },
            unit: match self.unit {
                Some(ref v) => Some(v@),
                None => None,
            },
            default_price: match self.default_price {
                Some(v) => Some(v as int),
                None => None,
            },
            standard_stock_quantity: match self.standard_stock_quantity {
                Some(v) => Some(v as int),
                None => None,
            },
        }
    }
}

/// A request to delete one product by its identity.
pub struct DeleteProductRequest {
    product_id: ProductId,
}

impl View for DeleteProductRequest {
    type V = int;

    closed spec fn view(&self) -> int {
        self.product_id@
    }
}

impl DeleteProductRequest {
    pub fn new(product_id: ProductId) -> (r: Self)
        ensures
            r@ == product_id@,
    {
        Self { product_id }
    }

    pub fn product_id(&self) -> (r: &ProductId)
        ensures
            r@ == self@,
    {
        &self.product_id
    }
}

} // verus!
