//! Input and output of the partial product update, and the statement it
//! builds.
//!
//! Every mutable field of the product is optional here: an absent field is
//! skipped, a present one (an empty string included) overwrites.  Setting a
//! field to null is not expressible, by design.

use vstd::prelude::*;
use vstd::string::StringExecFns;

use crate::product::{
    ProductCode, ProductDefaultPrice, ProductId, ProductName, ProductStandardStockQuantity,
    ProductUnit,
};
use crate::product_repository::UpdateProductResult;
use crate::sql::{
    assignments_data, build_update_statement, columns_of, count_char, has_no_char,
    lemma_no_char_count_zero, lemma_text_independent_of_values, lemma_update_sql_comma_count,
    lemma_update_statement_param_count, spec_build_update, update_sql, Assignment, AssignmentData,
    SqlParam, SqlParamData, Statement,
};

verus! {

/// The mathematical value of a partial product update: the identity plus, for
/// every mutable field, either "leave unchanged" or the new value.
pub ghost struct UpdateProductData {
    pub id: int,
    pub name: Option<Seq<char>>,
    pub code: Option<Seq<char>>,
    pub unit: Option<Seq<char>>,
    pub default_price: Option<int>,
    pub standard_stock_quantity: Option<int>,
}

/// A partial product update: the identity plus an optional new value for
/// every mutable field.
#[derive(Debug)]
pub struct UpdateProductInput {
    id: ProductId,
    name: Option<ProductName>,
    code: Option<ProductCode>,
    unit: Option<ProductUnit>,
    default_price: Option<ProductDefaultPrice>,
    standard_stock_quantity: Option<ProductStandardStockQuantity>,
}

impl View for UpdateProductInput {
    type V = UpdateProductData;

    closed spec fn view(&self) -> UpdateProductData {
        UpdateProductData {
            id: self.id@,
            name: match self.name {
                Some(v) => Some(v@),
                None => None,
            },
            code: match self.code {
                Some(v) => Some(v@),
                None => None,
            },
            unit: match self.unit {
                Some(v) => Some(v@),
                None => None,
            },
            default_price: match self.default_price {
                Some(v) => Some(v@),
                None => None,
            },
            standard_stock_quantity: match self.standard_stock_quantity {
                Some(v) => Some(v@),
                None => None,
            },
        }
    }
}

impl UpdateProductInput {
    pub fn new(
        id: i64,
        name: Option<String>,
        code: Option<String>,
        unit: Option<String>,
        default_price: Option<i64>,
        standard_stock_quantity: Option<i64>,
    ) -> (r: Self)
        ensures
            r@ == (UpdateProductData {
                id: id as int,
                name: match name {
                    Some(v) => Some(v@),
                    None => None,
                },
                code: match code {
                    Some(v) => Some(v@),
                    None => None,
                },
                unit: match unit {
                    Some(v) => Some(v@),
                    None => None,
                },
                default_price: match default_price {
                    Some(v) => Some(v as int),
                    None => None,
                },
                standard_stock_quantity: match standard_stock_quantity {
                    Some(v) => Some(v as int),
                    None => None,
                },
            }),
    {
        Self {
            id: ProductId::new(&id),
            name: match name {
                Some(v) => Some(ProductName::new(v.as_str())),
                None => None,
            },
            code: match code {
                Some(v) => Some(ProductCode::new(v.as_str())),
                None => None,
            },
            unit: match unit {
                Some(v) => Some(ProductUnit::new(v.as_str())),
                None => None,
            },
            default_price: match default_price {
                Some(v) => Some(ProductDefaultPrice::new(&v)),
                None => None,
            },
            standard_stock_quantity: match standard_stock_quantity {
                Some(v) => Some(ProductStandardStockQuantity::new(&v)),
                None => None,
            },
        }
    }

    pub fn id(&self) -> (r: &ProductId)
        ensures
            r@ == self@.id,
    {
        &self.id
    }

    pub fn name(&self) -> (r: &Option<ProductName>)
        ensures
            (*r) is Some <==> self@.name is Some,
            (*r) matches Some(v) ==> self@.name == Some(v@),
    {
        &self.name
    }

    pub fn code(&self) -> (r: &Option<ProductCode>)
        ensures
            (*r) is Some <==> self@.code is Some,
            (*r) matches Some(v) ==> self@.code == Some(v@),
    {
        &self.code
    }

    pub fn unit(&self) -> (r: &Option<ProductUnit>)
        ensures
            (*r) is Some <==> self@.unit is Some,
            (*r) matches Some(v) ==> self@.unit == Some(v@),
    {
        &self.unit
    }

    pub fn default_price(&self) -> (r: &Option<ProductDefaultPrice>)
        ensures
            (*r) is Some <==> self@.default_price is Some,
            (*r) matches Some(v) ==> self@.default_price == Some(v@),
    {
        &self.default_price
    }

    pub fn standard_stock_quantity(&self) -> (r: &Option<ProductStandardStockQuantity>)
        ensures
            (*r) is Some <==> self@.standard_stock_quantity is Some,
            (*r) matches Some(v) ==> self@.standard_stock_quantity == Some(v@),
    {
        &self.standard_stock_quantity
    }
}

/// An optional text assignment: one recorded assignment when the value is
/// present, none when it is absent.
pub open spec fn opt_text_assignment(column: Seq<char>, v: Option<Seq<char>>) -> Seq<
    AssignmentData,
> {
    match v {
        Some(s) => seq![AssignmentData { column, value: SqlParamData::Text(s) }],
        None => Seq::empty(),
    }
}

/// An optional integer assignment: one recorded assignment when the value is
/// present, none when it is absent.
pub open spec fn opt_int_assignment(column: Seq<char>, v: Option<int>) -> Seq<AssignmentData> {
    match v {
        Some(i) => seq![AssignmentData { column, value: SqlParamData::Int(i) }],
        None => Seq::empty(),
    }
}

/// The assignments a partial product update records, in the fixed declaration
/// order of the product's mutable fields; absent fields are skipped, never
/// reordered.
pub open spec fn product_assignments(d: UpdateProductData) -> Seq<AssignmentData> {
    opt_text_assignment("name"@, d.name) + opt_text_assignment("code"@, d.code)
        + opt_text_assignment("unit"@, d.unit) + opt_int_assignment(
        "default_price"@,
        d.default_price,
    ) + opt_int_assignment("standard_stock_quantity"@, d.standard_stock_quantity)
}

/// Builds the partial-update statement for one product, or returns `None`
/// without building anything when no field is present.
pub fn build_product_update(input: &UpdateProductInput) -> (r: Option<Statement>)
    ensures
        r is Some <==> product_assignments(input@).len() > 0,
        r matches Some(stmt) ==> Some(stmt@) == spec_build_update(
            "m_products"@,
            product_assignments(input@),
            input@.id,
        ),
{
    let mut assignments: Vec<Assignment> = Vec::new();
    match input.name() {
        Some(v) => {
            assignments.push(
                Assignment {
                    column: "name".to_owned(),
                    value: SqlParam::Text(String::from_str(v.value())),
                },
            );
        },
        None => {},
    }
    proof {
        assert(assignments_data(assignments@) =~= opt_text_assignment("name"@, input@.name));
    }
    let ghost a1 = assignments_data(assignments@);
    match input.code() {
        Some(v) => {
            assignments.push(
                Assignment {
                    column: "code".to_owned(),
                    value: SqlParam::Text(String::from_str(v.value())),
                },
            );
        },
        None => {},
    }
    proof {
        assert(assignments_data(assignments@) =~= a1 + opt_text_assignment("code"@, input@.code));
    }
    let ghost a2 = assignments_data(assignments@);
    match input.unit() {
        Some(v) => {
            assignments.push(
                Assignment {
                    column: "unit".to_owned(),
                    value: SqlParam::Text(String::from_str(v.value())),
                },
            );
        },
        None => {},
    }
    proof {
        assert(assignments_data(assignments@) =~= a2 + opt_text_assignment("unit"@, input@.unit));
    }
    let ghost a3 = assignments_data(assignments@);
    match input.default_price() {
        Some(v) => {
            assignments.push(
                Assignment {
                    column: "default_price".to_owned(),
                    value: SqlParam::Int(v.value()),
                },
            );
        },
        None => {},
    }
    proof {
        assert(assignments_data(assignments@) =~= a3 + opt_int_assignment(
            "default_price"@,
            input@.default_price,
        ));
    }
    let ghost a4 = assignments_data(assignments@);
    match input.standard_stock_quantity() {
        Some(v) => {
            assignments.push(
                Assignment {
                    column: "standard_stock_quantity".to_owned(),
                    value: SqlParam::Int(v.value()),
                },
            );
        },
        None => {},
    }
    proof {
        assert(assignments_data(assignments@) =~= a4 + opt_int_assignment(
            "standard_stock_quantity"@,
            input@.standard_stock_quantity,
        ));
        assert(assignments_data(assignments@) =~= product_assignments(input@));
    }
    let id = input.id().value();
    build_update_statement("m_products", assignments, id)
}

/// No-fields law: an update request with every field absent records no
/// assignment and builds no statement at all.  Together with the store
/// contract of `ProductRepository::update`, such a request leaves the table
/// untouched, however many times it is applied.
pub proof fn lemma_noop_update(d: UpdateProductData)
    requires
        d.name is None,
        d.code is None,
        d.unit is None,
        d.default_price is None,
        d.standard_stock_quantity is None,
    ensures
        product_assignments(d).len() == 0,
        spec_build_update("m_products"@, product_assignments(d), d.id) is None,
{
}

/// Parameter-count law: for every subset of present fields, a non-empty
/// subset of size `k` yields a statement binding exactly `k + 1` parameters —
/// the present values in declaration order followed by the identity — while
/// the empty subset yields no statement and binds nothing.
pub proof fn lemma_product_update_param_count(d: UpdateProductData)
    ensures
        spec_build_update("m_products"@, product_assignments(d), d.id) is Some
            <==> product_assignments(d).len() > 0,
        product_assignments(d).len() > 0 ==> spec_build_update(
            "m_products"@,
            product_assignments(d),
            d.id,
        )->0.params.len() == product_assignments(d).len() + 1,
        product_assignments(d).len() > 0 ==> spec_build_update(
            "m_products"@,
            product_assignments(d),
            d.id,
        )->0.params.last() == SqlParamData::Int(d.id),
        product_assignments(d).len() > 0 ==> forall|i: int|
            0 <= i < product_assignments(d).len() ==> spec_build_update(
                "m_products"@,
                product_assignments(d),
                d.id,
            )->0.params[i] == product_assignments(d)[i].value,
{
    lemma_update_statement_param_count("m_products"@, product_assignments(d), d.id);
}

#[verifier::rlimit(50)]
proof fn lemma_product_literal_comma_counts()
    ensures
        count_char("name"@, ',') == 0,
        count_char("code"@, ',') == 0,
        count_char("unit"@, ',') == 0,
        count_char("default_price"@, ',') == 0,
        count_char("standard_stock_quantity"@, ',') == 0,
{
    assert(count_char("name"@, ',') == 0) by {
        reveal_strlit("name");
        reveal_with_fuel(count_char, 6);
    }
    assert(count_char("code"@, ',') == 0) by {
        reveal_strlit("code");
        reveal_with_fuel(count_char, 6);
    }
    assert(count_char("unit"@, ',') == 0) by {
        reveal_strlit("unit");
        reveal_with_fuel(count_char, 6);
    }
    assert(count_char("default_price"@, ',') == 0) by {
        reveal_strlit("default_price");
        assert(has_no_char("default_price"@, ','));
        lemma_no_char_count_zero("default_price"@, ',');
    }
    assert(count_char("standard_stock_quantity"@, ',') == 0) by {
        reveal_strlit("standard_stock_quantity");
        assert(has_no_char("standard_stock_quantity"@, ','));
        lemma_no_char_count_zero("standard_stock_quantity"@, ',');
    }
}

#[verifier::rlimit(50)]
proof fn lemma_product_columns_comma_free(d: UpdateProductData)
    ensures
        forall|i: int|
            0 <= i < product_assignments(d).len() ==> count_char(
                #[trigger] columns_of(product_assignments(d))[i],
                ',',
            ) == 0,
{
    lemma_product_literal_comma_counts();
    let pa = product_assignments(d);
    assert forall|i: int|
        0 <= i < pa.len() implies count_char(#[trigger] columns_of(pa)[i], ',') == 0 by {
        assert(columns_of(pa)[i] == pa[i].column);
        assert(pa[i].column == "name"@ || pa[i].column == "code"@ || pa[i].column == "unit"@
            || pa[i].column == "default_price"@ || pa[i].column == "standard_stock_quantity"@);
    }
}

/// Assignment and separator law: for every non-empty subset of `k` present
/// fields, the statement text is exactly the update of `m_products` whose SET
/// clause lists those `k` fields in declaration order, and it contains
/// exactly `k - 1` commas — one separator between each pair of successive
/// assignments, none before the first nor after the last.
pub proof fn lemma_product_update_comma_count(d: UpdateProductData)
    requires
        product_assignments(d).len() > 0,
    ensures
        spec_build_update("m_products"@, product_assignments(d), d.id)->0.sql == update_sql(
            "m_products"@,
            columns_of(product_assignments(d)),
        ),
        count_char(spec_build_update("m_products"@, product_assignments(d), d.id)->0.sql, ',')
            == product_assignments(d).len() - 1,
{
    lemma_product_columns_comma_free(d);
    assert(count_char("m_products"@, ',') == 0) by {
        reveal_strlit("m_products");
        reveal_with_fuel(count_char, 12);
    }
    lemma_update_sql_comma_count("m_products"@, columns_of(product_assignments(d)));
}

/// Injection-safety law: the statement text depends only on which fields are
/// present, never on the bound values or the identity — a bound value cannot
/// reach the text, however it renders.
pub proof fn lemma_product_text_independent(d1: UpdateProductData, d2: UpdateProductData)
    requires
        d1.name is Some <==> d2.name is Some,
        d1.code is Some <==> d2.code is Some,
        d1.unit is Some <==> d2.unit is Some,
        d1.default_price is Some <==> d2.default_price is Some,
        d1.standard_stock_quantity is Some <==> d2.standard_stock_quantity is Some,
    ensures
        spec_build_update("m_products"@, product_assignments(d1), d1.id) is Some
            <==> spec_build_update("m_products"@, product_assignments(d2), d2.id) is Some,
        product_assignments(d1).len() > 0 ==> spec_build_update(
            "m_products"@,
            product_assignments(d1),
            d1.id,
        )->0.sql == spec_build_update("m_products"@, product_assignments(d2), d2.id)->0.sql,
{
    assert(columns_of(product_assignments(d1)) =~= columns_of(product_assignments(d2)));
    lemma_text_independent_of_values(
        "m_products"@,
        product_assignments(d1),
        product_assignments(d2),
        d1.id,
        d2.id,
    );
}

/// What the update-product operation hands back to the caller.
#[derive(Debug)]
pub struct UpdateProductOutput {
    result: UpdateProductResult,
}

impl UpdateProductOutput {
    pub fn new(result: UpdateProductResult) -> (r: Self)
        ensures
            r@ == result@,
    {
        Self { result }
    }

    pub fn result(&self) -> (r: &UpdateProductResult)
        ensures
            r@ == self@,
    {
        &self.result
    }
}

impl View for UpdateProductOutput {
    type V = int;

    closed spec fn view(&self) -> int {
        self.result@
    }
}

} // verus!
