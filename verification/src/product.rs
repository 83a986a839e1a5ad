//! The product entity and its field value types.
//!
//! A product is an immutable snapshot: a store-assigned identity, five scalar
//! fields, the created and last-updated timestamps, and an optional
//! soft-delete marker.  Timestamps are carried as Unix seconds so that the
//! entity is a plain value.

use vstd::prelude::*;

verus! {

/// The store-assigned identity of a product.
#[derive(Clone, Copy, Debug)]
pub struct ProductId {
    value: i64,
}

impl ProductId {
    pub fn new(value: &i64) -> (r: Self)
        ensures
            r@ == *value as int,
    {
        Self { value: *value }
    }

    pub fn value(&self) -> (r: i64)
        ensures
            r as int == self@,
    {
        self.value
    }
}

impl View for ProductId {
    type V = int;

    closed spec fn view(&self) -> int {
        self.value as int
    }
}

/// The display name of a product.
#[derive(Debug)]
pub struct ProductName {
    value: String,
}

impl ProductName {
    pub fn new(value: &str) -> (r: Self)
        ensures
            r@ == value@,
    {
        Self { value: value.to_owned() }
    }

    pub fn value(&self) -> (r: &str)
        ensures
            r@ == self@,
    {
        self.value.as_str()
    }
}

impl View for ProductName {
    type V = Seq<char>;

    closed spec fn view(&self) -> Seq<char> {
        self.value@
    }
}

/// The article code of a product.
#[derive(Debug)]
pub struct ProductCode {
    value: String,
}

impl ProductCode {
    pub fn new(value: &str) -> (r: Self)
        ensures
            r@ == value@,
    {
        Self { value: value.to_owned() }
    }

    pub fn value(&self) -> (r: &str)
        ensures
            r@ == self@,
    {
        self.value.as_str()
    }
}

impl View for ProductCode {
    type V = Seq<char>;

    closed spec fn view(&self) -> Seq<char> {
        self.value@
    }
}

/// The unit a product is counted in.
#[derive(Debug)]
pub struct ProductUnit {
    value: String,
}

impl ProductUnit {
    pub fn new(value: &str) -> (r: Self)
        ensures
            r@ == value@,
    {
        Self { value: value.to_owned() }
    }

    pub fn value(&self) -> (r: &str)
        ensures
            r@ == self@,
    {
        self.value.as_str()
    }
}

impl View for ProductUnit {
    type V = Seq<char>;

    closed spec fn view(&self) -> Seq<char> {
        self.value@
    }
}

/// The default sales price of a product.
#[derive(Clone, Copy, Debug)]
pub struct ProductDefaultPrice {
    value: i64,
}

impl ProductDefaultPrice {
    pub fn new(value: &i64) -> (r: Self)
        ensures
            r@ == *value as int,
    {
        Self { value: *value }
    }

    pub fn value(&self) -> (r: i64)
        ensures
            r as int == self@,
    {
        self.value
    }
}

impl View for ProductDefaultPrice {
    type V = int;

    closed spec fn view(&self) -> int {
        self.value as int
    }
}

/// The stock quantity a product is normally kept at.
#[derive(Clone, Copy, Debug)]
pub struct ProductStandardStockQuantity {
    value: i64,
}

impl ProductStandardStockQuantity {
    pub fn new(value: &i64) -> (r: Self)
        ensures
            r@ == *value as int,
    {
        Self { value: *value }
    }

    pub fn value(&self) -> (r: i64)
        ensures
            r as int == self@,
    {
        self.value
    }
}

impl View for ProductStandardStockQuantity {
    type V = int;

    closed spec fn view(&self) -> int {
        self.value as int
    }
}

/// The mathematical value of a product snapshot.
pub ghost struct ProductData {
    pub id: int,
    pub name: Seq<char>,
    pub code: Seq<char>,
    pub unit: Seq<char>,
    pub default_price: int,
    pub standard_stock_quantity: int,
    pub created_at: int,
    pub updated_at: int,
    pub deleted_at: Option<int>,
}

/// An immutable snapshot of one product row.
#[derive(Debug)]
pub struct Product {
    id: ProductId,
    name: ProductName,
    code: ProductCode,
    unit: ProductUnit,
    default_price: ProductDefaultPrice,
    standard_stock_quantity: ProductStandardStockQuantity,
    created_at: i64,
    updated_at: i64,
    deleted_at: Option<i64>,
}

impl View for Product {
    type V = ProductData;

    closed spec fn view(&self) -> ProductData {
        ProductData {
            id: self.id@,
            name: self.name@,
            code: self.code@,
            unit: self.unit@,
            default_price: self.default_price@,
            standard_stock_quantity: self.standard_stock_quantity@,
            created_at: self.created_at as int,
            updated_at: self.updated_at as int,
            deleted_at: match self.deleted_at {
                Some(t) => Some(t as int),
                None => None,
            },
        }
    }
}

impl Product {
    pub fn new(
        id: ProductId,
        name: ProductName,
        code: ProductCode,
        unit: ProductUnit,
        default_price: ProductDefaultPrice,
        standard_stock_quantity: ProductStandardStockQuantity,
        created_at: i64,
        updated_at: i64,
        deleted_at: Option<i64>,
    ) -> (r: Self)
        ensures
            r@ == (ProductData {
                id: id@,
                name: name@,
                code: code@,
                unit: unit@,
                default_price: default_price@,
                standard_stock_quantity: standard_stock_quantity@,
                created_at: created_at as int,
                updated_at: updated_at as int,
                deleted_at: match deleted_at {
                    Some(t) => Some(t as int),
                    None => None,
                },
            }),
    {
        Self {
            id,
            name,
            code,
            unit,
            default_price,
            standard_stock_quantity,
            created_at,
            updated_at,
            deleted_at,
        }
    }

    /// An exact copy of the snapshot.
    pub fn duplicate(&self) -> (r: Self)
        ensures
            r@ == self@,
    {
        Product {
            id: ProductId { value: self.id.value },
            name: ProductName { value: self.name.value.clone() },
            code: ProductCode { value: self.code.value.clone() },
            unit: ProductUnit { value: self.unit.value.clone() },
            default_price: ProductDefaultPrice { value: self.default_price.value },
            standard_stock_quantity: ProductStandardStockQuantity {
                value: self.standard_stock_quantity.value,
            },
            created_at: self.created_at,
            updated_at: self.updated_at,
            deleted_at: self.deleted_at,
        }
    }

    pub fn id(&self) -> (r: i64)
        ensures
            r as int == self@.id,
    {
        self.id.value()
    }

    pub fn name(&self) -> (r: &str)
        ensures
            r@ == self@.name,
    {
        self.name.value()
    }

    pub fn code(&self) -> (r: &str)
        ensures
            r@ == self@.code,
    {
        self.code.value()
    }

    pub fn unit(&self) -> (r: &str)
        ensures
            r@ == self@.unit,
    {
        self.unit.value()
    }

    pub fn default_price(&self) -> (r: i64)
        ensures
            r as int == self@.default_price,
    {
        self.default_price.value()
    }

    pub fn standard_stock_quantity(&self) -> (r: i64)
        ensures
            r as int == self@.standard_stock_quantity,
    {
        self.standard_stock_quantity.value()
    }

    pub fn created_at(&self) -> (r: i64)
        ensures
            r as int == self@.created_at,
    {
        self.created_at
    }

    pub fn updated_at(&self) -> (r: i64)
        ensures
            r as int == self@.updated_at,
    {
        self.updated_at
    }

    pub fn deleted_at(&self) -> (r: &Option<i64>)
        ensures
            self@.deleted_at == (match *r {
                Some(t) => Some(t as int),
                None => None::<int>,
            }),
    {
        &self.deleted_at
    }
}

} // verus!
