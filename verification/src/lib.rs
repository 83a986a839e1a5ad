//! Repository mediation layer for a master-data manager.
//!
//! The heart of the crate is the partial-update statement builder: it turns an
//! entity identity plus a set of optional field values into a parameterized
//! `UPDATE` statement whose text never contains a bound value, or into a
//! distinguished "no fields supplied" outcome.  Around it stand the domain
//! types for the two managed entities and in-memory repositories that give the
//! store operations (`find_by_id`, `create`, `update`, `delete`, `search`)
//! exact, machine-checked semantics.

use vstd::prelude::*;

pub mod create_customer;
pub mod create_product;
pub mod customer;
pub mod customer_repository;
pub mod customer_request;
pub mod find_by_id_product;
pub mod product;
pub mod product_repository;
pub mod product_request;
pub mod search_product;
pub mod sql;
pub mod update_customer;
pub mod update_product;

verus! {

/// The outcome of a partial update at the store: either the request supplied
/// no fields and no statement was built or executed, or a statement ran and
/// affected the given number of rows.  Zero affected rows after an executed
/// statement means the identity matched no row; it is distinct from the
/// no-fields case.
#[derive(Debug, PartialEq, Eq, Structural)]
pub enum UpdateOutcome {
    NoFieldsSupplied,
    Executed { rows_affected: u64 },
}

} // verus!
