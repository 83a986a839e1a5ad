//! Input and output of the create-product operation.

use vstd::prelude::*;

use crate::product::{
    ProductCode, ProductDefaultPrice, ProductName, ProductStandardStockQuantity, ProductUnit,
};
use crate::product_repository::CreateProductResult;

verus! {

/// The mathematical value of a create-product request: one value for every
/// scalar field of the entity.
pub ghost struct CreateProductData {
    pub name: Seq<char>,
    pub code: Seq<char>,
    pub unit: Seq<char>,
    pub default_price: int,
    pub standard_stock_quantity: int,
}

/// The fields of a product to be created; the identity is assigned by the
/// store.
pub struct CreateProductInput {
    name: ProductName,
    code: ProductCode,
    unit: ProductUnit,
    default_price: ProductDefaultPrice,
    standard_stock_quantity: ProductStandardStockQuantity,
}

impl View for CreateProductInput {
    type V = CreateProductData;

    closed spec fn view(&self) -> CreateProductData {
        CreateProductData {
            name: self.name@,
            code: self.code@,
            unit: self.unit@,
            default_price: self.default_price@,
            standard_stock_quantity: self.standard_stock_quantity@,
        }
    }
}

impl CreateProductInput {
    pub fn new(
        name: String,
        code: String,
        unit: String,
        default_price: i64,
        standard_stock_quantity: i64,
    ) -> (r: Self)
        ensures
            r@ == (CreateProductData {
                name: name@,
                code: code@,
                unit: unit@,
                default_price: default_price as int,
                standard_stock_quantity: standard_stock_quantity as int,
            }),
    {
        Self {
            name: ProductName::new(name.as_str()),
            code: ProductCode::new(code.as_str()),
            unit: ProductUnit::new(unit.as_str()),
            default_price: ProductDefaultPrice::new(&default_price),
            standard_stock_quantity: ProductStandardStockQuantity::new(&standard_stock_quantity),
        }
    }

    pub fn name(&self) -> (r: &str)
        ensures
            r@ == self@.name,
    {
        self.name.value()
    }

    pub fn code(&self) -> (r: &str)
        ensures
            r@ == self@.code,
    {
        self.code.value()
    }

    pub fn unit(&self) -> (r: &str)
        ensures
            r@ == self@.unit,
    {
        self.unit.value()
    }

    pub fn default_price(&self) -> (r: i64)
        ensures
            r as int == self@.default_price,
    {
        self.default_price.value()
    }

    pub fn standard_stock_quantity(&self) -> (r: i64)
        ensures
            r as int == self@.standard_stock_quantity,
    {
        self.standard_stock_quantity.value()
    }
}

/// What the create-product operation hands back to the caller.
#[derive(Debug)]
pub struct CreateProductOutput {
    result: CreateProductResult,
}

impl CreateProductOutput {
    pub fn new(result: CreateProductResult) -> (r: Self)
        ensures
            r@ == result@,
    {
        Self { result }
    }

    pub fn result(&self) -> (r: &CreateProductResult)
        ensures
            r@ == self@,
    {
        &self.result
    }
}

impl View for CreateProductOutput {
    type V = int;

    closed spec fn view(&self) -> int {
        self.result@
    }
}

} // verus!
