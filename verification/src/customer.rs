//! The customer entity.
//!
//! A customer is an immutable snapshot: a store-assigned identity, three
//! scalar fields, the created and last-updated timestamps, and an optional
//! soft-delete marker, all carried as plain values.

use vstd::prelude::*;

verus! {

pub type Id = i64;

pub type Name = String;

pub type Postal = i64;

pub type Address = String;

/// The mathematical value of a customer snapshot.
pub ghost struct CustomerData {
    pub id: int,
    pub name: Seq<char>,
    pub postal: int,
    pub address: Seq<char>,
    pub created_at: int,
    pub updated_at: int,
    pub deleted_at: Option<int>,
}

/// An immutable snapshot of one customer row.
#[derive(Debug)]
pub struct Customer {
    id: Id,
    name: Name,
    postal: Postal,
    address: Address,
    created_at: i64,
    updated_at: i64,
    deleted_at: Option<i64>,
}

impl View for Customer {
    type V = CustomerData;

    closed spec fn view(&self) -> CustomerData {
        CustomerData {
            id: self.id as int,
            name: self.name@,
            postal: self.postal as int,
            address: self.address@,
            created_at: self.created_at as int,
            updated_at: self.updated_at as int,
            deleted_at: match self.deleted_at {
                Some(t) => Some(t as int),
                None => None,
            },
        }
    }
}

impl Customer {
    pub fn new(
        id: Id,
        name: Name,
        postal: Postal,
        address: Address,
        created_at: i64,
        updated_at: i64,
        deleted_at: Option<i64>,
    ) -> (r: Self)
        ensures
            r@ == (CustomerData {
                id: id as int,
                name: name@,
                postal: postal as int,
                address: address@,
                created_at: created_at as int,
                updated_at: updated_at as int,
                deleted_at: match deleted_at {
                    Some(t) => Some(t as int),
                    None => None,
                },
            }),
    {
        Self { id, name, postal, address, created_at, updated_at, deleted_at }
    }

    pub fn id(&self) -> (r: &Id)
        ensures
            *r as int == self@.id,
    {
        &self.id
    }

    pub fn name(&self) -> (r: &Name)
        ensures
            r@ == self@.name,
    {
        &self.name
    }

    pub fn postal(&self) -> (r: &Postal)
        ensures
            *r as int == self@.postal,
    {
        &self.postal
    }

    pub fn address(&self) -> (r: &Address)
        ensures
            r@ == self@.address,
    {
        &self.address
    }

    pub fn created_at(&self) -> (r: i64)
        ensures
            r as int == self@.created_at,
    {
        self.created_at
    }

    pub fn updated_at(&self) -> (r: i64)
        ensures
            r as int == self@.updated_at,
    {
        self.updated_at
    }

    pub fn deleted_at(&self) -> (r: &Option<i64>)
        ensures
            self@.deleted_at == (match *r {
                Some(t) => Some(t as int),
                None => None::<int>,
            }),
    {
        &self.deleted_at
    }
}

} // verus!
