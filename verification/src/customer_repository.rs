//! The customer repository: typed results and an in-memory store with exact,
//! machine-checked semantics.
//!
//! The store keeps the rows of the customer table and the next identity to
//! assign.  Its operations are the repository contract: `find_by_id`,
//! `create` and `update`, each specified against the mathematical table
//! [`CustomerTableData`].  A row is read back only while its soft-delete
//! marker is unset.  Concurrent updates of one identity are not coordinated
//! here: the store applies each update as it arrives, so the last write wins.

use vstd::prelude::*;
use vstd::string::StringExecFns;

use crate::create_customer::{CreateCustomerData, CreateCustomerInput};
use crate::customer::{Customer, CustomerData, Id};
use crate::update_customer::{customer_assignments, UpdateCustomerData, UpdateCustomerInput};
use crate::UpdateOutcome;

verus! {

/// The identity the store assigned to a created customer.
pub struct CreateCustomerResult {
    customer_id: Id,
}

impl CreateCustomerResult {
    pub fn new(customer_id: Id) -> (r: Self)
        ensures
            r@ == customer_id as int,
    {
        Self { customer_id }
    }

    pub fn customer_id(&self) -> (r: Id)
        ensures
            r as int == self@,
    {
        self.customer_id
    }
}

impl View for CreateCustomerResult {
    type V = int;

    closed spec fn view(&self) -> int {
        self.customer_id as int
    }
}

/// The identity an executed update selected; handed back so that the caller
/// knows which entity to re-read.
pub struct UpdateCustomerResult {
    customer_id: Id,
}

impl UpdateCustomerResult {
    pub fn new(customer_id: Id) -> (r: Self)
        ensures
            r@ == customer_id as int,
    {
        Self { customer_id }
    }

    pub fn customer_id(&self) -> (r: Id)
        ensures
            r as int == self@,
    {
        self.customer_id
    }
}

impl View for UpdateCustomerResult {
    type V = int;

    closed spec fn view(&self) -> int {
        self.customer_id as int
    }
}

/// One stored row of the customer table.
pub struct CustomerRow {
    id: i64,
    name: String,
    postal: i64,
    address: String,
    created_at: i64,
    updated_at: i64,
    deleted_at: Option<i64>,
}

impl View for CustomerRow {
    type V = CustomerData;

    closed spec fn view(&self) -> CustomerData {
        CustomerData {
            id: self.id as int,
            name: self.name@,
            postal: self.postal as int,
            address: self.address@,
            created_at: self.created_at as int,
            updated_at: self.updated_at as int,
            deleted_at: match self.deleted_at {
                Some(t) => Some(t as int),
                None => None,
            },
        }
    }
}

/// The mathematical values of a sequence of stored rows, in order.
pub open spec fn customer_rows_data(rows: Seq<CustomerRow>) -> Seq<CustomerData> {
    Seq::new(rows.len(), |i: int| rows[i]@)
}

/// The mathematical value of the customer table: its rows in store order and
/// the identity the next insert will be assigned.
pub ghost struct CustomerTableData {
    pub next_id: int,
    pub rows: Seq<CustomerData>,
}

/// Well-formedness of the table: identities are at least 1, below the next
/// one to assign, and pairwise distinct.
pub open spec fn customer_wf(t: CustomerTableData) -> bool {
    &&& 1 <= t.next_id
    &&& forall|i: int| 0 <= i < t.rows.len() ==> 1 <= (#[trigger] t.rows[i]).id < t.next_id
    &&& forall|i: int, j: int|
        0 <= i < j < t.rows.len() ==> (#[trigger] t.rows[i]).id != (#[trigger] t.rows[j]).id
}

/// The first row carrying `id` decides: the row itself while its soft-delete
/// marker is unset, not-found otherwise.
pub open spec fn customer_find(rows: Seq<CustomerData>, id: int) -> Option<CustomerData>
    decreases rows.len(),
{
    if rows.len() == 0 {
        None
    } else if rows[0].id == id {
        if rows[0].deleted_at is None {
            Some(rows[0])
        } else {
            None
        }
    } else {
        customer_find(rows.drop_first(), id)
    }
}

/// True when some row carries `id`, soft-deleted or not.
pub open spec fn customer_has_row(rows: Seq<CustomerData>, id: int) -> bool {
    exists|i: int| 0 <= i < rows.len() && (#[trigger] rows[i]).id == id
}

/// The row a create inserts: the assigned identity, the input fields, both
/// timestamps at `now`, and no soft-delete marker.
pub open spec fn customer_created_row(id: int, c: CreateCustomerData, now: int) -> CustomerData {
    CustomerData {
        id: id,
        name: c.name,
        postal: c.postal,
        address: c.address,
        created_at: now,
        updated_at: now,
        deleted_at: None,
    }
}

/// What a create does to the table: the new row is appended and the next
/// identity advances.
pub open spec fn customer_create(
    t: CustomerTableData,
    c: CreateCustomerData,
    now: int,
) -> CustomerTableData {
    CustomerTableData {
        next_id: t.next_id + 1,
        rows: t.rows.push(customer_created_row(t.next_id, c, now)),
    }
}

/// One row after a partial update: every present field is overwritten, every
/// absent field — the identity, the timestamps and the soft-delete marker
/// included — keeps its value.
pub open spec fn customer_apply_update(r: CustomerData, d: UpdateCustomerData) -> CustomerData {
    CustomerData {
        id: r.id,
        name: match d.name {
            Some(v) => v,
            None => r.name,
        },
        postal: match d.postal {
            Some(v) => v,
            None => r.postal,
        },
        address: match d.address {
            Some(v) => v,
            None => r.address,
        },
        created_at: r.created_at,
        updated_at: r.updated_at,
        deleted_at: r.deleted_at,
    }
}

/// What an executed update does to the rows: exactly the rows carrying the
/// requested identity change, by [`customer_apply_update`]; every other row
/// is kept as it is, in place.
pub open spec fn customer_update_rows(rows: Seq<CustomerData>, d: UpdateCustomerData) -> Seq<
    CustomerData,
> {
    Seq::new(
        rows.len(),
        |i: int|
            if rows[i].id == d.id {
                customer_apply_update(rows[i], d)
            } else {
                rows[i]
            },
    )
}

/// Maps one stored row to the customer entity it represents.
fn to_customer(row: &CustomerRow) -> (c: Customer)
    ensures
        c@ == row@,
{
    Customer::new(
        row.id,
        row.name.clone(),
        row.postal,
        row.address.clone(),
        row.created_at,
        row.updated_at,
        row.deleted_at,
    )
}

/// One stored row after a partial update, built field by field.
fn customer_updated_row(row: &CustomerRow, input: &UpdateCustomerInput) -> (r: CustomerRow)
    ensures
        r@ == customer_apply_update(row@, input@),
{
    CustomerRow {
        id: row.id,
        name: match input.name() {
            Some(v) => v.clone(),
            None => row.name.clone(),
        },
        postal: match input.postal() {
            Some(v) => *v,
            None => row.postal,
        },
        address: match input.address() {
            Some(v) => v.clone(),
            None => row.address.clone(),
        },
        created_at: row.created_at,
        updated_at: row.updated_at,
        deleted_at: row.deleted_at,
    }
}

proof fn lemma_customer_rows_data_push(s: Seq<CustomerRow>, r: CustomerRow)
    ensures
        customer_rows_data(s.push(r)) =~= customer_rows_data(s).push(r@),
{
    assert forall|j: int|
        0 <= j < s.len() + 1 implies #[trigger] customer_rows_data(s.push(r))[j]
        == customer_rows_data(s).push(r@)[j] by {
        assert(customer_rows_data(s.push(r))[j] == s.push(r)[j]@);
        if j < s.len() {
            assert(s.push(r)[j] == s[j]);
            assert(customer_rows_data(s)[j] == s[j]@);
        } else {
            assert(s.push(r)[j] == r);
        }
    }
}

/// The in-memory customer repository: the customer table held as a plain
/// value.
pub struct CustomerRepository {
    rows: Vec<CustomerRow>,
    next_id: i64,
}

impl View for CustomerRepository {
    type V = CustomerTableData;

    closed spec fn view(&self) -> CustomerTableData {
        CustomerTableData { next_id: self.next_id as int, rows: customer_rows_data(self.rows@) }
    }
}

impl CustomerRepository {
    /// An empty table; the first created customer gets identity 1.
    pub fn new() -> (r: Self)
        ensures
            r@.next_id == 1,
            r@.rows.len() == 0,
            customer_wf(r@),
    {
        Self { rows: Vec::new(), next_id: 1 }
    }

    /// Returns the customer carrying the identity, or `None` when no row
    /// carries it or the row carrying it is soft-deleted.
    pub fn find_by_id(&self, id: &Id) -> (r: Option<Customer>)
        ensures
            r is Some <==> customer_find(self@.rows, *id as int) is Some,
            r matches Some(c) ==> customer_find(self@.rows, *id as int) == Some(c@),
    {
        let key = *id;
        let ghost all = customer_rows_data(self.rows@);
        proof {
            assert(all.skip(0) =~= all);
        }
        let n = self.rows.len();
        let mut i: usize = 0;
        while i < n
            invariant
                n == self.rows@.len(),
                all == customer_rows_data(self.rows@),
                i <= n,
                key as int == *id as int,
                customer_find(all, key as int) == customer_find(all.skip(i as int), key as int),
            decreases n - i,
        {
            proof {
                assert(all.skip(i as int)[0] == all[i as int]);
                assert(all[i as int] == self.rows@[i as int]@);
            }
            if self.rows[i].id == key {
                if self.rows[i].deleted_at.is_none() {
                    return Some(to_customer(&self.rows[i]));
                } else {
                    return None;
                }
            }
            proof {
                assert(all.skip(i as int).drop_first() =~= all.skip(i as int + 1));
            }
            i = i + 1;
        }
        proof {
            assert(all.skip(n as int).len() == 0);
        }
        None
    }

    /// Inserts the new row with the next identity and hands that identity
    /// back.
    pub fn create(&mut self, input: CreateCustomerInput, now: i64) -> (r: CreateCustomerResult)
        requires
            customer_wf(old(self)@),
            old(self)@.next_id < i64::MAX,
        ensures
            customer_wf(final(self)@),
            final(self)@ == customer_create(old(self)@, input@, now as int),
            r@ == old(self)@.next_id,
    {
        let id = self.next_id;
        self.next_id = self.next_id + 1;
        let ghost prev = self.rows@;
        let row = CustomerRow {
            id,
            name: input.name().clone(),
            postal: *input.postal(),
            address: input.address().clone(),
            created_at: now,
            updated_at: now,
            deleted_at: None,
        };
        proof {
            assert(row@ == customer_created_row(id as int, input@, now as int));
        }
        self.rows.push(row);
        proof {
            lemma_customer_rows_data_push(prev, row);
            assert(self@.rows == customer_rows_data(prev).push(
                customer_created_row(id as int, input@, now as int),
            ));
            assert forall|a: int, b: int|
                0 <= a < b < self@.rows.len() implies (#[trigger] self@.rows[a]).id
                != (#[trigger] self@.rows[b]).id by {
                assert(self@.rows[a] == customer_rows_data(prev).push(row@)[a]);
            }
        }
        CreateCustomerResult::new(id)
    }

    /// Applies a partial update.  With no field present nothing is built or
    /// executed and the table is untouched; otherwise exactly the row
    /// carrying the identity is overwritten in its present fields, and the
    /// affected-row count distinguishes a matched row from a missed identity.
    pub fn update(&mut self, input: &UpdateCustomerInput) -> (r: UpdateOutcome)
        requires
            customer_wf(old(self)@),
        ensures
            customer_wf(final(self)@),
            final(self)@.next_id == old(self)@.next_id,
            customer_assignments(input@).len() == 0 ==> final(self)@ == old(self)@ && r
                == UpdateOutcome::NoFieldsSupplied,
            customer_assignments(input@).len() > 0 ==> final(self)@.rows == customer_update_rows(
                old(self)@.rows,
                input@,
            ) && r == (UpdateOutcome::Executed {
                rows_affected: (if customer_has_row(old(self)@.rows, input@.id) {
                    1u64
                } else {
                    0u64
                }),
            }),
    {
        let no_fields = input.name().is_none() && input.postal().is_none()
            && input.address().is_none();
        if no_fields {
            proof {
                assert(customer_assignments(input@).len() == 0);
            }
            return UpdateOutcome::NoFieldsSupplied;
        }
        proof {
            assert(customer_assignments(input@).len() > 0);
        }
        let id = input.id();
        let ghost all = customer_rows_data(self.rows@);
        let n = self.rows.len();
        let mut i: usize = 0;
        while i < n
            invariant
                customer_wf(self@),
                n == self.rows@.len(),
                all == customer_rows_data(self.rows@),
                all == old(self)@.rows,
                self@.next_id == old(self)@.next_id,
                i <= n,
                id as int == input@.id,
                customer_assignments(input@).len() > 0,
                forall|j: int| 0 <= j < i ==> (#[trigger] all[j]).id != id as int,
            decreases n - i,
        {
            proof {
                assert(all[i as int] == self.rows@[i as int]@);
            }
            if self.rows[i].id == id {
                let row = customer_updated_row(&self.rows[i], input);
                let ghost prev = self.rows@;
                self.rows.remove(i);
                self.rows.insert(i, row);
                proof {
                    assert(self.rows@ =~= prev.update(i as int, row));
                    assert forall|j: int|
                        0 <= j < all.len() implies #[trigger] customer_rows_data(self.rows@)[j]
                        == customer_update_rows(all, input@)[j] by {
                        assert(customer_rows_data(self.rows@)[j] == self.rows@[j]@);
                        if j == i as int {
                            assert(self.rows@[j] == row);
                        } else {
                            assert(self.rows@[j] == prev[j]);
                            assert(all[j] == prev[j]@);
                            if j > i as int {
                                assert((#[trigger] all[i as int]).id != all[j].id);
                            }
                        }
                    }
                    assert(customer_rows_data(self.rows@) =~= customer_update_rows(all, input@));
                    assert(customer_has_row(all, id as int));
                    assert forall|j: int|
                        0 <= j < self@.rows.len() implies (#[trigger] self@.rows[j]).id
                        == all[j].id by {
                        assert(self@.rows[j] == customer_update_rows(all, input@)[j]);
                    }
                    assert(customer_wf(self@));
                }
                return UpdateOutcome::Executed { rows_affected: 1 };
            }
            i = i + 1;
        }
        proof {
            assert(!customer_has_row(all, id as int));
            assert(customer_rows_data(self.rows@) =~= customer_update_rows(all, input@));
        }
        UpdateOutcome::Executed { rows_affected: 0 }
    }
}

proof fn lemma_customer_find_in_push(rows: Seq<CustomerData>, r: CustomerData)
    requires
        forall|j: int| 0 <= j < rows.len() ==> (#[trigger] rows[j]).id != r.id,
    ensures
        customer_find(rows.push(r), r.id) == (if r.deleted_at is None {
            Some(r)
        } else {
            None::<CustomerData>
        }),
    decreases rows.len(),
{
    if rows.len() == 0 {
        assert(rows.push(r)[0] == r);
    } else {
        assert(rows.push(r)[0] == rows[0]);
        assert(rows.push(r).drop_first() =~= rows.drop_first().push(r));
        lemma_customer_find_in_push(rows.drop_first(), r);
    }
}

/// Round-trip law: creating a customer and at once finding it by the
/// assigned identity yields exactly the created row — the input fields
/// unchanged, both timestamps at the creation instant, no soft-delete
/// marker.
pub proof fn lemma_customer_create_then_find(t: CustomerTableData, c: CreateCustomerData, now: int)
    requires
        customer_wf(t),
    ensures
        customer_find(customer_create(t, c, now).rows, t.next_id) == Some(
            customer_created_row(t.next_id, c, now),
        ),
{
    lemma_customer_find_in_push(t.rows, customer_created_row(t.next_id, c, now));
}

proof fn lemma_customer_update_find(rows: Seq<CustomerData>, d: UpdateCustomerData, id: int)
    ensures
        customer_find(customer_update_rows(rows, d), id) == (if id == d.id {
            match customer_find(rows, d.id) {
                Some(r) => Some(customer_apply_update(r, d)),
                None => None::<CustomerData>,
            }
        } else {
            customer_find(rows, id)
        }),
    decreases rows.len(),
{
    let u = customer_update_rows(rows, d);
    if rows.len() > 0 {
        assert(u[0] == if rows[0].id == d.id {
            customer_apply_update(rows[0], d)
        } else {
            rows[0]
        });
        assert forall|j: int|
            0 <= j < rows.len() - 1 implies #[trigger] u.drop_first()[j] == customer_update_rows(
            rows.drop_first(),
            d,
        )[j] by {
            assert(u.drop_first()[j] == u[j + 1]);
            assert(rows.drop_first()[j] == rows[j + 1]);
        }
        assert(u.drop_first() =~= customer_update_rows(rows.drop_first(), d));
        lemma_customer_update_find(rows.drop_first(), d, id);
    }
}

/// Update-then-read law: after an executed update, reading the requested
/// identity yields its row with every present field overwritten and every
/// absent field — timestamps and the soft-delete marker included — unchanged
/// (see [`customer_apply_update`]); reading any other identity yields
/// exactly what it yielded before.
pub proof fn lemma_customer_update_then_find(rows: Seq<CustomerData>, d: UpdateCustomerData)
    ensures
        customer_find(customer_update_rows(rows, d), d.id) == (match customer_find(rows, d.id) {
            Some(r) => Some(customer_apply_update(r, d)),
            None => None::<CustomerData>,
        }),
        forall|id: int|
            id != d.id ==> customer_find(customer_update_rows(rows, d), id) == customer_find(
                rows,
                id,
            ),
{
    lemma_customer_update_find(rows, d, d.id);
    assert forall|id: int|
        id != d.id implies customer_find(customer_update_rows(rows, d), id) == customer_find(
        rows,
        id,
    ) by {
        lemma_customer_update_find(rows, d, id);
    }
}

} // verus!
