//! Requests of the command layer for the customer entity, as plain values.

use vstd::prelude::*;

use crate::create_customer::CreateCustomerData;
use crate::customer::{Address, Id, Name, Postal};
use crate::update_customer::UpdateCustomerData;

verus! {

/// A request to create a customer: every scalar field, no identity.
pub struct CreateCustomerRequest {
    name: Name,
    postal: Postal,
    address: Address,
}

impl View for CreateCustomerRequest {
    type V = CreateCustomerData;

    closed spec fn view(&self) -> CreateCustomerData {
        CreateCustomerData { name: self.name@, postal: self.postal as int, address: self.address@ }
    }
}

impl CreateCustomerRequest {
    pub fn new(name: Name, postal: Postal, address: Address) -> (r: Self)
        ensures
            r@ == (CreateCustomerData {
                name: name@,
                postal: postal as int,
                address: address@,
            }),
    {
        Self { name, postal, address }
    }

    pub fn name(&self) -> (r: &Name)
        ensures
            r@ == self@.name,
    {
        &self.name
    }

    pub fn postal(&self) -> (r: Postal)
        ensures
            r as int == self@.postal,
    {
        self.postal
    }

    pub fn address(&self) -> (r: &Address)
        ensures
            r@ == self@.address,
    {
        &self.address
    }
}

/// A request to update a customer: the identity plus an optional new value
/// for every mutable field.
pub struct UpdateCustomerRequest {
    id: Id,
    name: Option<Name>,
    postal: Option<Postal>,
    address: Option<Address>,
}

impl View for UpdateCustomerRequest {
    type V = UpdateCustomerData;

    closed spec fn view(&self) -> UpdateCustomerData {
        UpdateCustomerData {
            id: self.id as int,
            name: match self.name {
                Some(ref v) => Some(v@),
                None => None,
            },
            postal: match self.postal {
                Some(v) => Some(v as int),
                None => None,
            },
            address: match self.address {
                Some(ref v) => Some(v@),
                None => None,
            },
        }
    }
}

impl UpdateCustomerRequest {
    pub fn new(id: Id, name: Option<Name>, postal: Option<Postal>, address: Option<Address>) -> (r:
        Self)
        ensures
            r@ == (UpdateCustomerData {
                id: id as int,
                name: match name {
                    Some(v) => Some(v@),
                    None => None,
                },
                postal: match postal {
                    Some(v) => Some(v as int),
                    None => None,
                },
                address: match address {
                    Some(v) => Some(v@),
                    None => None,
                },
            }),
    {
        Self { id, name, postal, address }
    }

    pub fn id(&self) -> (r: Id)
        ensures
            r as int == self@.id,
    {
        self.id
    }

    pub fn name(&self) -> (r: &Option<Name>)
        ensures
            (*r) is Some <==> self@.name is Some,
            (*r) matches Some(v) ==> self@.name == Some(v@),
    {
        &self.name
    }

    pub fn postal(&self) -> (r: Option<Postal>)
        ensures
            r is Some <==> self@.postal is Some,
            r matches Some(v) ==> self@.postal == Some(v as int),
    {
        self.postal
    }

    pub fn address(&self) -> (r: &Option<Address>)
        ensures
            (*r) is Some <==> self@.address is Some,
            (*r) matches Some(v) ==> self@.address == Some(v@),
    {
        &self.address
    }
}

} // verus!
