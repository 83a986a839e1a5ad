//! The product repository: typed results and an in-memory store with exact,
//! machine-checked semantics.
//!
//! The store keeps the rows of the product table and the next identity to
//! assign.  Its operations are the repository contract: `find_by_id`,
//! `search`, `create`, `update` and `delete`, each specified against the
//! mathematical table [`ProductTableData`].  A row is read back only while its
//! soft-delete marker is unset; `delete` removes the row physically.
//! Concurrent updates of one identity are not coordinated here: the store
//! applies each update as it arrives, so the last write wins.

use vstd::prelude::*;
use vstd::string::StringExecFns;

use crate::create_product::{CreateProductData, CreateProductInput};
use crate::product::{
    Product, ProductCode, ProductData, ProductDefaultPrice, ProductId, ProductName,
    ProductStandardStockQuantity, ProductUnit,
};
use crate::search_product::{products_data, SearchProductData, SearchProductInput};
use crate::update_product::{product_assignments, UpdateProductData, UpdateProductInput};
use crate::UpdateOutcome;

verus! {

/// The identity the store assigned to a created product.
#[derive(Debug)]
pub struct CreateProductResult {
    product_id: ProductId,
}

impl CreateProductResult {
    pub fn new(product_id: ProductId) -> (r: Self)
        ensures
            r@ == product_id@,
    {
        Self { product_id }
    }

    pub fn product_id(&self) -> (r: &ProductId)
        ensures
            r@ == self@,
    {
        &self.product_id
    }
}

impl View for CreateProductResult {
    type V = int;

    closed spec fn view(&self) -> int {
        self.product_id@
    }
}

/// The identity an executed update selected; handed back so that the caller
/// knows which entity to re-read.
#[derive(Debug)]
pub struct UpdateProductResult {
    product_id: ProductId,
}

impl UpdateProductResult {
    pub fn new(product_id: ProductId) -> (r: Self)
        ensures
            r@ == product_id@,
    {
        Self { product_id }
    }

    pub fn product_id(&self) -> (r: &ProductId)
        ensures
            r@ == self@,
    {
        &self.product_id
    }
}

impl View for UpdateProductResult {
    type V = int;

    closed spec fn view(&self) -> int {
        self.product_id@
    }
}

/// Whether a delete removed a row: `false` means the identity matched
/// nothing, which is not an error.
#[derive(Debug)]
pub struct DeleteProductResult {
    result: bool,
}

impl DeleteProductResult {
    pub fn new(result: bool) -> (r: Self)
        ensures
            r@ == result,
    {
        Self { result }
    }

    pub fn result(&self) -> (r: &bool)
        ensures
            *r == self@,
    {
        &self.result
    }
}

impl View for DeleteProductResult {
    type V = bool;

    closed spec fn view(&self) -> bool {
        self.result
    }
}

/// One stored row of the product table.
#[derive(Debug)]
pub struct ProductRow {
    id: i64,
    name: String,
    code: String,
    unit: String,
    default_price: i64,
    standard_stock_quantity: i64,
    created_at: i64,
    updated_at: i64,
    deleted_at: Option<i64>,
}

impl View for ProductRow {
    type V = ProductData;

    closed spec fn view(&self) -> ProductData {
        ProductData {
            id: self.id as int,
            name: self.name@,
            code: self.code@,
            unit: self.unit@,
            default_price: self.default_price as int,
            standard_stock_quantity: self.standard_stock_quantity as int,
            created_at: self.created_at as int,
            updated_at: self.updated_at as int,
            deleted_at: match self.deleted_at {
                Some(t) => Some(t as int),
                None => None,
            },
        }
    }
}

/// The mathematical values of a sequence of stored rows, in order.
pub open spec fn rows_data(rows: Seq<ProductRow>) -> Seq<ProductData> {
    Seq::new(rows.len(), |i: int| rows[i]@)
}

/// The mathematical value of the product table: its rows in store order and
/// the identity the next insert will be assigned.
pub ghost struct ProductTableData {
    pub next_id: int,
    pub rows: Seq<ProductData>,
}

/// Well-formedness of the table: identities are at least 1, below the next
/// one to assign, and pairwise distinct.
pub open spec fn wf(t: ProductTableData) -> bool {
    &&& 1 <= t.next_id
    &&& forall|i: int| 0 <= i < t.rows.len() ==> 1 <= (#[trigger] t.rows[i]).id < t.next_id
    &&& forall|i: int, j: int|
        0 <= i < j < t.rows.len() ==> (#[trigger] t.rows[i]).id != (#[trigger] t.rows[j]).id
}

/// The first row carrying `id` decides: the row itself while its soft-delete
/// marker is unset, not-found otherwise.
pub open spec fn spec_find(rows: Seq<ProductData>, id: int) -> Option<ProductData>
    decreases rows.len(),
{
    if rows.len() == 0 {
        None
    } else if rows[0].id == id {
        if rows[0].deleted_at is None {
            Some(rows[0])
        } else {
            None
        }
    } else {
        spec_find(rows.drop_first(), id)
    }
}

/// True when some row carries `id`, soft-deleted or not.
pub open spec fn has_row(rows: Seq<ProductData>, id: int) -> bool {
    exists|i: int| 0 <= i < rows.len() && (#[trigger] rows[i]).id == id
}

/// The row a create inserts: the assigned identity, the input fields, both
/// timestamps at `now`, and no soft-delete marker.
pub open spec fn created_row(id: int, c: CreateProductData, now: int) -> ProductData {
    ProductData {
        id: id,
        name: c.name,
        code: c.code,
        unit: c.unit,
        default_price: c.default_price,
        standard_stock_quantity: c.standard_stock_quantity,
        created_at: now,
        updated_at: now,
        deleted_at: None,
    }
}

/// What a create does to the table: the new row is appended and the next
/// identity advances.
pub open spec fn spec_create(t: ProductTableData, c: CreateProductData, now: int) -> ProductTableData {
    ProductTableData { next_id: t.next_id + 1, rows: t.rows.push(created_row(t.next_id, c, now)) }
}

/// One row after a partial update: every present field is overwritten, every
/// absent field — the identity, the timestamps and the soft-delete marker
/// included — keeps its value.
pub open spec fn apply_update(r: ProductData, d: UpdateProductData) -> ProductData {
    ProductData {
        id: r.id,
        name: match d.name {
            Some(v) => v,
            None => r.name,
        },
        code: match d.code {
            Some(v) => v,
            None => r.code,
        },
        unit: match d.unit {
            Some(v) => v,
            None => r.unit,
        },
        default_price: match d.default_price {
            Some(v) => v,
            None => r.default_price,
        },
        standard_stock_quantity: match d.standard_stock_quantity {
            Some(v) => v,
            None => r.standard_stock_quantity,
        },
        created_at: r.created_at,
        updated_at: r.updated_at,
        deleted_at: r.deleted_at,
    }
}

/// What an executed update does to the rows: exactly the rows carrying the
/// requested identity change, by [`apply_update`]; every other row is kept as
/// it is, in place.
pub open spec fn spec_update_rows(rows: Seq<ProductData>, d: UpdateProductData) -> Seq<
    ProductData,
> {
    Seq::new(
        rows.len(),
        |i: int|
            if rows[i].id == d.id {
                apply_update(rows[i], d)
            } else {
                rows[i]
            },
    )
}

/// What a delete does to the rows: the first row carrying `id` is removed
/// physically; without such a row the rows are unchanged.
pub open spec fn spec_delete_rows(rows: Seq<ProductData>, id: int) -> Seq<ProductData>
    decreases rows.len(),
{
    if rows.len() == 0 {
        Seq::empty()
    } else if rows[0].id == id {
        rows.drop_first()
    } else {
        seq![rows[0]] + spec_delete_rows(rows.drop_first(), id)
    }
}

/// True when the row passes the filters: it is not soft-deleted and matches
/// every present filter exactly; an absent filter constrains nothing.
pub open spec fn row_matches(r: ProductData, f: SearchProductData) -> bool {
    &&& r.deleted_at is None
    &&& (f.name matches Some(n) ==> r.name == n)
    &&& (f.code matches Some(c) ==> r.code == c)
}

/// The rows passing the filters, in store order.
pub open spec fn matching_rows(rows: Seq<ProductData>, f: SearchProductData) -> Seq<ProductData>
    decreases rows.len(),
{
    if rows.len() == 0 {
        Seq::empty()
    } else {
        matching_rows(rows.drop_last(), f) + (if row_matches(rows.last(), f) {
            seq![rows.last()]
        } else {
            Seq::empty()
        })
    }
}

/// Pagination in the store's manner: a negative offset counts as zero, an
/// offset beyond the end yields nothing, and a negative limit means no upper
/// bound.
pub open spec fn paginate(s: Seq<ProductData>, offset: int, limit: int) -> Seq<ProductData> {
    let off = if offset < 0 {
        0
    } else if offset > s.len() {
        s.len() as int
    } else {
        offset
    };
    let rest = s.skip(off);
    if limit < 0 {
        rest
    } else if limit > rest.len() {
        rest
    } else {
        rest.take(limit)
    }
}

/// What a search returns: the filtered rows in store order, paginated.
pub open spec fn spec_search(rows: Seq<ProductData>, f: SearchProductData) -> Seq<ProductData> {
    paginate(matching_rows(rows, f), f.offset, f.limit)
}

proof fn lemma_products_data_push(s: Seq<Product>, p: Product)
    ensures
        products_data(s.push(p)) =~= products_data(s).push(p@),
{
    assert forall|j: int|
        0 <= j < s.len() + 1 implies #[trigger] products_data(s.push(p))[j] == products_data(
        s,
    ).push(p@)[j] by {
        assert(products_data(s.push(p))[j] == s.push(p)[j]@);
        if j < s.len() {
            assert(s.push(p)[j] == s[j]);
            assert(products_data(s)[j] == s[j]@);
        } else {
            assert(s.push(p)[j] == p);
        }
    }
}

/// Maps one stored row to the product entity it represents.
fn to_product(row: &ProductRow) -> (p: Product)
    ensures
        p@ == row@,
{
    Product::new(
        ProductId::new(&row.id),
        ProductName::new(row.name.as_str()),
        ProductCode::new(row.code.as_str()),
        ProductUnit::new(row.unit.as_str()),
        ProductDefaultPrice::new(&row.default_price),
        ProductStandardStockQuantity::new(&row.standard_stock_quantity),
        row.created_at,
        row.updated_at,
        row.deleted_at,
    )
}

/// One stored row after a partial update, built field by field.
fn updated_row(row: &ProductRow, input: &UpdateProductInput) -> (r: ProductRow)
    ensures
        r@ == apply_update(row@, input@),
{
    ProductRow {
        id: row.id,
        name: match input.name() {
            Some(v) => String::from_str(v.value()),
            None => row.name.clone(),
        },
        code: match input.code() {
            Some(v) => String::from_str(v.value()),
            None => row.code.clone(),
        },
        unit: match input.unit() {
            Some(v) => String::from_str(v.value()),
            None => row.unit.clone(),
        },
        default_price: match input.default_price() {
            Some(v) => v.value(),
            None => row.default_price,
        },
        standard_stock_quantity: match input.standard_stock_quantity() {
            Some(v) => v.value(),
            None => row.standard_stock_quantity,
        },
        created_at: row.created_at,
        updated_at: row.updated_at,
        deleted_at: row.deleted_at,
    }
}

proof fn lemma_rows_data_push(s: Seq<ProductRow>, r: ProductRow)
    ensures
        rows_data(s.push(r)) =~= rows_data(s).push(r@),
{
    assert forall|j: int|
        0 <= j < s.len() + 1 implies #[trigger] rows_data(s.push(r))[j] == rows_data(s).push(
        r@,
    )[j] by {
        assert(rows_data(s.push(r))[j] == s.push(r)[j]@);
        if j < s.len() {
            assert(s.push(r)[j] == s[j]);
            assert(rows_data(s)[j] == s[j]@);
        } else {
            assert(s.push(r)[j] == r);
        }
    }
}

/// The in-memory product repository: the product table held as a plain
/// value.
#[derive(Debug)]
pub struct ProductRepository {
    rows: Vec<ProductRow>,
    next_id: i64,
}

impl View for ProductRepository {
    type V = ProductTableData;

    closed spec fn view(&self) -> ProductTableData {
        ProductTableData { next_id: self.next_id as int, rows: rows_data(self.rows@) }
    }
}

impl ProductRepository {
    /// An empty table; the first created product gets identity 1.
    pub fn new() -> (r: Self)
        ensures
            r@.next_id == 1,
            r@.rows.len() == 0,
            wf(r@),
    {
        Self { rows: Vec::new(), next_id: 1 }
    }

    /// Returns the product carrying the identity, or `None` when no row
    /// carries it or the row carrying it is soft-deleted.
    pub fn find_by_id(&self, product_id: &ProductId) -> (r: Option<Product>)
        ensures
            r is Some <==> spec_find(self@.rows, product_id@) is Some,
            r matches Some(p) ==> spec_find(self@.rows, product_id@) == Some(p@),
    {
        let id = product_id.value();
        let ghost all = rows_data(self.rows@);
        proof {
            assert(all.skip(0) =~= all);
        }
        let n = self.rows.len();
        let mut i: usize = 0;
        while i < n
            invariant
                n == self.rows@.len(),
                all == rows_data(self.rows@),
                i <= n,
                id as int == product_id@,
                spec_find(all, id as int) == spec_find(all.skip(i as int), id as int),
            decreases n - i,
        {
            proof {
                assert(all.skip(i as int)[0] == all[i as int]);
                assert(all[i as int] == self.rows@[i as int]@);
            }
            if self.rows[i].id == id {
                if self.rows[i].deleted_at.is_none() {
                    return Some(to_product(&self.rows[i]));
                } else {
                    return None;
                }
            }
            proof {
                assert(all.skip(i as int).drop_first() =~= all.skip(i as int + 1));
            }
            i = i + 1;
        }
        proof {
            assert(all.skip(n as int).len() == 0);
        }
        None
    }

    /// Returns the products passing the filters, in store order, after
    /// pagination.  The result order is the store's own: the order the rows
    /// were inserted in.
    #[verifier::loop_isolation(false)]
    pub fn search(&self, input: &SearchProductInput) -> (r: Vec<Product>)
        ensures
            products_data(r@) == spec_search(self@.rows, input@),
    {
        let ghost all = rows_data(self.rows@);
        let ghost f = input@;
        let n = self.rows.len();
        let mut matched: Vec<Product> = Vec::new();
        let mut i: usize = 0;
        while i < n
            invariant
                i <= n,
                products_data(matched@) =~= matching_rows(all.take(i as int), f),
            decreases n - i,
        {
            proof {
                assert(all.take(i as int + 1).drop_last() =~= all.take(i as int));
                assert(all.take(i as int + 1).last() == all[i as int]);
                assert(all[i as int] == self.rows@[i as int]@);
            }
            let row = &self.rows[i];
            let name_ok = match input.name() {
                Some(v) => *v == row.name,
                None => true,
            };
            let code_ok = match input.code() {
                Some(v) => *v == row.code,
                None => true,
            };
            if row.deleted_at.is_none() && name_ok && code_ok {
                let ghost pm = matched@;
                let p = to_product(row);
                matched.push(p);
                proof {
                    lemma_products_data_push(pm, p);
                    assert(products_data(matched@) =~= matching_rows(all.take(i as int + 1), f));
                }
            } else {
                proof {
                    assert(!row_matches(all[i as int], f));
                    assert(matching_rows(all.take(i as int + 1), f) =~= matching_rows(
                        all.take(i as int),
                        f,
                    ));
                }
            }
            i = i + 1;
        }
        proof {
            assert(all.take(n as int) =~= all);
        }
        let ghost m = matching_rows(all, f);
        let total = matched.len();
        let offset_raw = *input.offset();
        let limit_raw = *input.limit();
        let off: usize = if offset_raw < 0 {
            0
        } else if offset_raw as u64 >= total as u64 {
            total
        } else {
            offset_raw as usize
        };
        let lim: usize = if limit_raw < 0 {
            total - off
        } else if limit_raw as u64 >= (total - off) as u64 {
            total - off
        } else {
            limit_raw as usize
        };
        proof {
            assert(m.len() == total as int);
            assert(spec_search(all, f) =~= m.skip(off as int).take(lim as int));
        }
        let mut out: Vec<Product> = Vec::new();
        let mut k: usize = 0;
        while k < lim
            invariant
                k <= lim,
                products_data(out@) =~= m.skip(off as int).take(k as int),
            decreases lim - k,
        {
            let ghost po = out@;
            let p = matched[off + k].duplicate();
            proof {
                assert(p@ == products_data(matched@)[off as int + k as int]);
                assert(m.skip(off as int)[k as int] == m[off as int + k as int]);
            }
            out.push(p);
            proof {
                lemma_products_data_push(po, p);
                assert(m.skip(off as int).take(k as int + 1) =~= m.skip(off as int).take(
                    k as int,
                ).push(m[off as int + k as int]));
            }
            k = k + 1;
        }
        proof {
            assert(products_data(out@) =~= spec_search(all, f));
        }
        out
    }

    /// Inserts the new row with the next identity and hands that identity
    /// back.
    pub fn create(&mut self, input: &CreateProductInput, now: i64) -> (r: CreateProductResult)
        requires
            wf(old(self)@),
            old(self)@.next_id < i64::MAX,
        ensures
            wf(final(self)@),
            final(self)@ == spec_create(old(self)@, input@, now as int),
            r@ == old(self)@.next_id,
    {
        let id = self.next_id;
        self.next_id = self.next_id + 1;
        let ghost prev = self.rows@;
        let row = ProductRow {
            id,
            name: String::from_str(input.name()),
            code: String::from_str(input.code()),
            unit: String::from_str(input.unit()),
            default_price: input.default_price(),
            standard_stock_quantity: input.standard_stock_quantity(),
            created_at: now,
            updated_at: now,
            deleted_at: None,
        };
        proof {
            assert(row@ == created_row(id as int, input@, now as int));
        }
        self.rows.push(row);
        proof {
            lemma_rows_data_push(prev, row);
            assert(self@.rows == rows_data(prev).push(created_row(id as int, input@, now as int)));
            assert forall|a: int, b: int|
                0 <= a < b < self@.rows.len() implies (#[trigger] self@.rows[a]).id
                != (#[trigger] self@.rows[b]).id by {
                assert(self@.rows[a] == rows_data(prev).push(row@)[a]);
            }
        }
        CreateProductResult::new(ProductId::new(&id))
    }

    /// Applies a partial update.  With no field present nothing is built or
    /// executed and the table is untouched; otherwise exactly the row
    /// carrying the identity is overwritten in its present fields, and the
    /// affected-row count distinguishes a matched row from a missed identity.
    pub fn update(&mut self, input: &UpdateProductInput) -> (r: UpdateOutcome)
        requires
            wf(old(self)@),
        ensures
            wf(final(self)@),
            final(self)@.next_id == old(self)@.next_id,
            product_assignments(input@).len() == 0 ==> final(self)@ == old(self)@ && r
                == UpdateOutcome::NoFieldsSupplied,
            product_assignments(input@).len() > 0 ==> final(self)@.rows == spec_update_rows(
                old(self)@.rows,
                input@,
            ) && r == (UpdateOutcome::Executed {
                rows_affected: (if has_row(old(self)@.rows, input@.id) {
                    1u64
                } else {
                    0u64
                }),
            }),
    {
        let no_fields = input.name().is_none() && input.code().is_none() && input.unit().is_none()
            && input.default_price().is_none() && input.standard_stock_quantity().is_none();
        if no_fields {
            proof {
                assert(product_assignments(input@).len() == 0);
            }
            return UpdateOutcome::NoFieldsSupplied;
        }
        proof {
            assert(product_assignments(input@).len() > 0);
        }
        let id = input.id().value();
        let ghost all = rows_data(self.rows@);
        let n = self.rows.len();
        let mut i: usize = 0;
        while i < n
            invariant
                wf(self@),
                n == self.rows@.len(),
                all == rows_data(self.rows@),
                all == old(self)@.rows,
                self@.next_id == old(self)@.next_id,
                i <= n,
                id as int == input@.id,
                product_assignments(input@).len() > 0,
                forall|j: int| 0 <= j < i ==> (#[trigger] all[j]).id != id as int,
            decreases n - i,
        {
            proof {
                assert(all[i as int] == self.rows@[i as int]@);
            }
            if self.rows[i].id == id {
                let row = updated_row(&self.rows[i], input);
                let ghost prev = self.rows@;
                self.rows.remove(i);
                self.rows.insert(i, row);
                proof {
                    assert(self.rows@ =~= prev.update(i as int, row));
                    assert forall|j: int|
                        0 <= j < all.len() implies #[trigger] rows_data(self.rows@)[j]
                        == spec_update_rows(all, input@)[j] by {
                        assert(rows_data(self.rows@)[j] == self.rows@[j]@);
                        if j == i as int {
                            assert(self.rows@[j] == row);
                        } else {
                            assert(self.rows@[j] == prev[j]);
                            assert(all[j] == prev[j]@);
                            if j > i as int {
                                assert((#[trigger] all[i as int]).id != all[j].id);
                            }
                        }
                    }
                    assert(rows_data(self.rows@) =~= spec_update_rows(all, input@));
                    assert(has_row(all, id as int));
                    assert forall|j: int|
                        0 <= j < self@.rows.len() implies (#[trigger] self@.rows[j]).id
                        == all[j].id by {
                        assert(self@.rows[j] == spec_update_rows(all, input@)[j]);
                    }
                    assert(wf(self@));
                }
                return UpdateOutcome::Executed { rows_affected: 1 };
            }
            i = i + 1;
        }
        proof {
            assert(!has_row(all, id as int));
            assert(rows_data(self.rows@) =~= spec_update_rows(all, input@));
        }
        UpdateOutcome::Executed { rows_affected: 0 }
    }

    /// Removes the row carrying the identity and says whether one was
    /// removed; a missed identity yields `false`, never an error.
    pub fn delete(&mut self, product_id: &ProductId) -> (r: DeleteProductResult)
        requires
            wf(old(self)@),
        ensures
            wf(final(self)@),
            final(self)@.next_id == old(self)@.next_id,
            final(self)@.rows == spec_delete_rows(old(self)@.rows, product_id@),
            r@ == has_row(old(self)@.rows, product_id@),
    {
        let id = product_id.value();
        let ghost all = rows_data(self.rows@);
        let n = self.rows.len();
        let mut i: usize = 0;
        while i < n
            invariant
                wf(self@),
                n == self.rows@.len(),
                all == rows_data(self.rows@),
                all == old(self)@.rows,
                self@.next_id == old(self)@.next_id,
                i <= n,
                id as int == product_id@,
                forall|j: int| 0 <= j < i ==> (#[trigger] all[j]).id != id as int,
            decreases n - i,
        {
            proof {
                assert(all[i as int] == self.rows@[i as int]@);
            }
            if self.rows[i].id == id {
                let ghost prev = self.rows@;
                self.rows.remove(i);
                proof {
                    lemma_delete_rows_at(all, id as int, i as int);
                    assert forall|j: int|
                        0 <= j < all.len() - 1 implies #[trigger] rows_data(self.rows@)[j]
                        == all.remove(i as int)[j] by {
                        assert(rows_data(self.rows@)[j] == self.rows@[j]@);
                        assert(self.rows@[j] == prev.remove(i as int)[j]);
                        if j < i as int {
                            assert(prev.remove(i as int)[j] == prev[j]);
                            assert(all.remove(i as int)[j] == all[j]);
                        } else {
                            assert(prev.remove(i as int)[j] == prev[j + 1]);
                            assert(all.remove(i as int)[j] == all[j + 1]);
                        }
                    }
                    assert(rows_data(self.rows@) =~= all.remove(i as int));
                    assert(has_row(all, id as int));
                    assert forall|j: int|
                        0 <= j < self@.rows.len() implies 1 <= (#[trigger] self@.rows[j]).id
                        < self@.next_id by {
                        assert(self@.rows[j] == all.remove(i as int)[j]);
                    }
                    assert forall|a: int, b: int|
                        0 <= a < b < self@.rows.len() implies (#[trigger] self@.rows[a]).id
                        != (#[trigger] self@.rows[b]).id by {
                        assert(self@.rows[a] == all.remove(i as int)[a]);
                        assert(self@.rows[b] == all.remove(i as int)[b]);
                    }
                }
                return DeleteProductResult::new(true);
            }
            i = i + 1;
        }
        proof {
            assert(!has_row(all, id as int));
            lemma_delete_rows_absent(all, id as int);
        }
        DeleteProductResult::new(false)
    }
}

/// Deleting at the first matching index is exactly the physical removal of
/// that index.
proof fn lemma_delete_rows_at(rows: Seq<ProductData>, id: int, i: int)
    requires
        0 <= i < rows.len(),
        rows[i].id == id,
        forall|j: int| 0 <= j < i ==> (#[trigger] rows[j]).id != id,
    ensures
        spec_delete_rows(rows, id) == rows.remove(i),
    decreases i,
{
    if i == 0 {
        assert(spec_delete_rows(rows, id) == rows.drop_first());
        assert(rows.drop_first() =~= rows.remove(0));
    } else {
        assert(rows[0].id != id);
        lemma_delete_rows_at(rows.drop_first(), id, i - 1);
        assert(spec_delete_rows(rows, id) == seq![rows[0]] + rows.drop_first().remove(i - 1));
        assert(seq![rows[0]] + rows.drop_first().remove(i - 1) =~= rows.remove(i));
    }
}

/// Without a matching row a delete leaves the rows untouched.
proof fn lemma_delete_rows_absent(rows: Seq<ProductData>, id: int)
    requires
        forall|j: int| 0 <= j < rows.len() ==> (#[trigger] rows[j]).id != id,
    ensures
        spec_delete_rows(rows, id) == rows,
    decreases rows.len(),
{
    if rows.len() > 0 {
        lemma_delete_rows_absent(rows.drop_first(), id);
        assert(seq![rows[0]] + rows.drop_first() =~= rows);
    }
}

proof fn lemma_find_in_push(rows: Seq<ProductData>, r: ProductData)
    requires
        forall|j: int| 0 <= j < rows.len() ==> (#[trigger] rows[j]).id != r.id,
    ensures
        spec_find(rows.push(r), r.id) == (if r.deleted_at is None {
            Some(r)
        } else {
            None::<ProductData>
        }),
    decreases rows.len(),
{
    if rows.len() == 0 {
        assert(rows.push(r)[0] == r);
    } else {
        assert(rows.push(r)[0] == rows[0]);
        assert(rows.push(r).drop_first() =~= rows.drop_first().push(r));
        lemma_find_in_push(rows.drop_first(), r);
    }
}

/// Round-trip law: creating a product and at once finding it by the assigned
/// identity yields exactly the created row — the input fields unchanged, both
/// timestamps at the creation instant, no soft-delete marker.
pub proof fn lemma_create_then_find(t: ProductTableData, c: CreateProductData, now: int)
    requires
        wf(t),
    ensures
        spec_find(spec_create(t, c, now).rows, t.next_id) == Some(created_row(t.next_id, c, now)),
{
    lemma_find_in_push(t.rows, created_row(t.next_id, c, now));
}

proof fn lemma_update_find(rows: Seq<ProductData>, d: UpdateProductData, id: int)
    ensures
        spec_find(spec_update_rows(rows, d), id) == (if id == d.id {
            match spec_find(rows, d.id) {
                Some(r) => Some(apply_update(r, d)),
                None => None::<ProductData>,
            }
        } else {
            spec_find(rows, id)
        }),
    decreases rows.len(),
{
    let u = spec_update_rows(rows, d);
    if rows.len() > 0 {
        assert(u[0] == if rows[0].id == d.id {
            apply_update(rows[0], d)
        } else {
            rows[0]
        });
        assert forall|j: int|
            0 <= j < rows.len() - 1 implies #[trigger] u.drop_first()[j] == spec_update_rows(
            rows.drop_first(),
            d,
        )[j] by {
            assert(u.drop_first()[j] == u[j + 1]);
            assert(rows.drop_first()[j] == rows[j + 1]);
        }
        assert(u.drop_first() =~= spec_update_rows(rows.drop_first(), d));
        lemma_update_find(rows.drop_first(), d, id);
    }
}

/// Update-then-read law: after an executed update, reading the requested
/// identity yields its row with every present field overwritten and every
/// absent field — timestamps and the soft-delete marker included — unchanged
/// (see [`apply_update`]); reading any other identity yields exactly what it
/// yielded before.
pub proof fn lemma_update_then_find(rows: Seq<ProductData>, d: UpdateProductData)
    ensures
        spec_find(spec_update_rows(rows, d), d.id) == (match spec_find(rows, d.id) {
            Some(r) => Some(apply_update(r, d)),
            None => None::<ProductData>,
        }),
        forall|id: int|
            id != d.id ==> spec_find(spec_update_rows(rows, d), id) == spec_find(rows, id),
{
    lemma_update_find(rows, d, d.id);
    assert forall|id: int|
        id != d.id implies spec_find(spec_update_rows(rows, d), id) == spec_find(rows, id) by {
        lemma_update_find(rows, d, id);
    }
}

proof fn lemma_find_absent(rows: Seq<ProductData>, id: int)
    requires
        forall|j: int| 0 <= j < rows.len() ==> (#[trigger] rows[j]).id != id,
    ensures
        spec_find(rows, id) is None,
    decreases rows.len(),
{
    if rows.len() > 0 {
        lemma_find_absent(rows.drop_first(), id);
    }
}

proof fn lemma_delete_find(rows: Seq<ProductData>, id: int, other: int)
    requires
        forall|a: int, b: int|
            0 <= a < b < rows.len() ==> (#[trigger] rows[a]).id != (#[trigger] rows[b]).id,
    ensures
        spec_find(spec_delete_rows(rows, id), other) == (if other == id {
            None::<ProductData>
        } else {
            spec_find(rows, other)
        }),
    decreases rows.len(),
{
    if rows.len() == 0 {
    } else if rows[0].id == id {
        assert(spec_delete_rows(rows, id) == rows.drop_first());
        if other == id {
            assert forall|j: int|
                0 <= j < rows.drop_first().len() implies (#[trigger] rows.drop_first()[j]).id
                != id by {
                assert(rows.drop_first()[j] == rows[j + 1]);
            }
            lemma_find_absent(rows.drop_first(), id);
        }
    } else {
        let rest = spec_delete_rows(rows.drop_first(), id);
        assert(spec_delete_rows(rows, id) == seq![rows[0]] + rest);
        assert((seq![rows[0]] + rest)[0] == rows[0]);
        assert((seq![rows[0]] + rest).drop_first() =~= rest);
        assert forall|a: int, b: int|
            0 <= a < b < rows.drop_first().len() implies (#[trigger] rows.drop_first()[a]).id
            != (#[trigger] rows.drop_first()[b]).id by {
            assert(rows.drop_first()[a] == rows[a + 1]);
            assert(rows.drop_first()[b] == rows[b + 1]);
        }
        lemma_delete_find(rows.drop_first(), id, other);
    }
}

/// Delete law: deleting an identity that no row carries leaves the rows
/// untouched (and `delete` then reports `false`); after any delete the
/// deleted identity reads as not-found, while every other identity reads
/// exactly as before.
pub proof fn lemma_delete_semantics(t: ProductTableData, id: int)
    requires
        wf(t),
    ensures
        !has_row(t.rows, id) ==> spec_delete_rows(t.rows, id) == t.rows,
        spec_find(spec_delete_rows(t.rows, id), id) is None,
        forall|other: int|
            other != id ==> spec_find(spec_delete_rows(t.rows, id), other) == spec_find(
                t.rows,
                other,
            ),
{
    if !has_row(t.rows, id) {
        lemma_delete_rows_absent(t.rows, id);
    }
    lemma_delete_find(t.rows, id, id);
    assert forall|other: int|
        other != id implies spec_find(spec_delete_rows(t.rows, id), other) == spec_find(
        t.rows,
        other,
    ) by {
        lemma_delete_find(t.rows, id, other);
    }
}

} // verus!
