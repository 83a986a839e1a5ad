//! Input and output of the create-customer operation.

use vstd::prelude::*;

use crate::customer::{Address, Id, Name, Postal};
use crate::customer_repository::CreateCustomerResult;

verus! {

/// The mathematical value of a create-customer request: one value for every
/// scalar field of the entity.
pub ghost struct CreateCustomerData {
    pub name: Seq<char>,
    pub postal: int,
    pub address: Seq<char>,
}

/// The fields of a customer to be created; the identity is assigned by the
/// store.
pub struct CreateCustomerInput {
    name: Name,
    postal: Postal,
    address: Address,
}

impl View for CreateCustomerInput {
    type V = CreateCustomerData;

    closed spec fn view(&self) -> CreateCustomerData {
        CreateCustomerData { name: self.name@, postal: self.postal as int, address: self.address@ }
    }
}

impl CreateCustomerInput {
    pub fn new(name: Name, postal: Postal, address: Address) -> (r: Self)
        ensures
            r@ == (CreateCustomerData {
                name: name@,
                postal: postal as int,
                address: address@,
            }),
    {
        Self { name, postal, address }
    }

    pub fn name(&self) -> (r: &Name)
        ensures
            r@ == self@.name,
    {
        &self.name
    }

    pub fn postal(&self) -> (r: &Postal)
        ensures
            *r as int == self@.postal,
    {
        &self.postal
    }

    pub fn address(&self) -> (r: &Address)
        ensures
            r@ == self@.address,
    {
        &self.address
    }
}

/// What the create-customer operation hands back to the caller.
pub struct CreateCustomerOutput {
    customer_id: Id,
}

impl CreateCustomerOutput {
    pub fn new(result: &CreateCustomerResult) -> (r: Self)
        ensures
            r@ == result@,
    {
        Self { customer_id: result.customer_id() }
    }

    pub fn customer_id(&self) -> (r: i64)
        ensures
            r as int == self@,
    {
        self.customer_id
    }
}

impl View for CreateCustomerOutput {
    type V = int;

    closed spec fn view(&self) -> int {
        self.customer_id as int
    }
}

} // verus!
