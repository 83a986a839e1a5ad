//! Input and output of the partial customer update, and the statement it
//! builds.
//!
//! Every mutable field of the customer is optional here: an absent field is
//! skipped, a present one (an empty string included) overwrites.  Setting a
//! field to null is not expressible, by design.

use vstd::prelude::*;

use crate::customer::{Address, Id, Name, Postal};
use crate::customer_repository::UpdateCustomerResult;
use crate::sql::{
    assignments_data, build_update_statement, columns_of, count_char,
    lemma_text_independent_of_values, lemma_update_sql_comma_count,
    lemma_update_statement_param_count, spec_build_update, update_sql, Assignment, AssignmentData,
    SqlParam, SqlParamData, Statement,
};
use crate::update_product::{opt_int_assignment, opt_text_assignment};

verus! {

/// The mathematical value of a partial customer update: the identity plus,
/// for every mutable field, either "leave unchanged" or the new value.
pub ghost struct UpdateCustomerData {
    pub id: int,
    pub name: Option<Seq<char>>,
    pub postal: Option<int>,
    pub address: Option<Seq<char>>,
}

/// A partial customer update: the identity plus an optional new value for
/// every mutable field.
pub struct UpdateCustomerInput {
    id: Id,
    name: Option<Name>,
    postal: Option<Postal>,
    address: Option<Address>,
}

impl View for UpdateCustomerInput {
    type V = UpdateCustomerData;

    closed spec fn view(&self) -> UpdateCustomerData {
        UpdateCustomerData {
            id: self.id as int,
            name: match self.name {
                Some(ref v) => Some(v@),
                None => None,
            },
            postal: match self.postal {
                Some(v) => Some(v as int),
                None => None,
            },
            address: match self.address {
                Some(ref v) => Some(v@),
                None => None,
            },
        }
    }
}

impl UpdateCustomerInput {
    pub fn new(id: Id, name: Option<Name>, postal: Option<Postal>, address: Option<Address>) -> (r:
        Self)
        ensures
            r@ == (UpdateCustomerData {
                id: id as int,
                name: match name {
                    Some(v) => Some(v@),
                    None => None,
                },
                postal: match postal {
                    Some(v) => Some(v as int),
                    None => None,
                },
                address: match address {
                    Some(v) => Some(v@),
                    None => None,
                },
            }),
    {
        Self { id, name, postal, address }
    }

    pub fn id(&self) -> (r: Id)
        ensures
            r as int == self@.id,
    {
        self.id
    }

    pub fn name(&self) -> (r: &Option<Name>)
        ensures
            (*r) is Some <==> self@.name is Some,
            (*r) matches Some(v) ==> self@.name == Some(v@),
    {
        &self.name
    }

    pub fn postal(&self) -> (r: &Option<Postal>)
        ensures
            (*r) is Some <==> self@.postal is Some,
            (*r) matches Some(v) ==> self@.postal == Some(v as int),
    {
        &self.postal
    }

    pub fn address(&self) -> (r: &Option<Address>)
        ensures
            (*r) is Some <==> self@.address is Some,
            (*r) matches Some(v) ==> self@.address == Some(v@),
    {
        &self.address
    }
}

/// The assignments a partial customer update records, in the fixed
/// declaration order of the customer's mutable fields; absent fields are
/// skipped, never reordered.
pub open spec fn customer_assignments(d: UpdateCustomerData) -> Seq<AssignmentData> {
    opt_text_assignment("name"@, d.name) + opt_int_assignment("postal"@, d.postal)
        + opt_text_assignment("address"@, d.address)
}

/// Builds the partial-update statement for one customer, or returns `None`
/// without building anything when no field is present.
pub fn build_customer_update(input: &UpdateCustomerInput) -> (r: Option<Statement>)
    ensures
        r is Some <==> customer_assignments(input@).len() > 0,
        r matches Some(stmt) ==> Some(stmt@) == spec_build_update(
            "m_customers"@,
            customer_assignments(input@),
            input@.id,
        ),
{
    let mut assignments: Vec<Assignment> = Vec::new();
    match input.name() {
        Some(v) => {
            assignments.push(
                Assignment {
                    column: "name".to_owned(),
                    value: SqlParam::Text(v.clone()),
                },
            );
        },
        None => {},
    }
    proof {
        assert(assignments_data(assignments@) =~= opt_text_assignment("name"@, input@.name));
    }
    let ghost a1 = assignments_data(assignments@);
    match input.postal() {
        Some(v) => {
            assignments.push(Assignment { column: "postal".to_owned(), value: SqlParam::Int(*v) });
        },
        None => {},
    }
    proof {
        assert(assignments_data(assignments@) =~= a1 + opt_int_assignment("postal"@, input@.postal));
    }
    let ghost a2 = assignments_data(assignments@);
    match input.address() {
        Some(v) => {
            assignments.push(
                Assignment {
                    column: "address".to_owned(),
                    value: SqlParam::Text(v.clone()),
                },
            );
        },
        None => {},
    }
    proof {
        assert(assignments_data(assignments@) =~= a2 + opt_text_assignment(
            "address"@,
            input@.address,
        ));
        assert(assignments_data(assignments@) =~= customer_assignments(input@));
    }
    let id = input.id();
    build_update_statement("m_customers", assignments, id)
}

/// No-fields law: an update request with every field absent records no
/// assignment and builds no statement at all.  Together with the store
/// contract of `CustomerRepository::update`, such a request leaves the table
/// untouched, however many times it is applied.
pub proof fn lemma_customer_noop_update(d: UpdateCustomerData)
    requires
        d.name is None,
        d.postal is None,
        d.address is None,
    ensures
        customer_assignments(d).len() == 0,
        spec_build_update("m_customers"@, customer_assignments(d), d.id) is None,
{
}

/// Parameter-count law: for every subset of present fields, a non-empty
/// subset of size `k` yields a statement binding exactly `k + 1` parameters —
/// the present values in declaration order followed by the identity — while
/// the empty subset yields no statement and binds nothing.
pub proof fn lemma_customer_update_param_count(d: UpdateCustomerData)
    ensures
        spec_build_update("m_customers"@, customer_assignments(d), d.id) is Some
            <==> customer_assignments(d).len() > 0,
        customer_assignments(d).len() > 0 ==> spec_build_update(
            "m_customers"@,
            customer_assignments(d),
            d.id,
        )->0.params.len() == customer_assignments(d).len() + 1,
        customer_assignments(d).len() > 0 ==> spec_build_update(
            "m_customers"@,
            customer_assignments(d),
            d.id,
        )->0.params.last() == SqlParamData::Int(d.id),
        customer_assignments(d).len() > 0 ==> forall|i: int|
            0 <= i < customer_assignments(d).len() ==> spec_build_update(
                "m_customers"@,
                customer_assignments(d),
                d.id,
            )->0.params[i] == customer_assignments(d)[i].value,
{
    lemma_update_statement_param_count("m_customers"@, customer_assignments(d), d.id);
}

proof fn lemma_customer_columns_comma_free(d: UpdateCustomerData)
    ensures
        forall|i: int|
            0 <= i < customer_assignments(d).len() ==> count_char(
                #[trigger] columns_of(customer_assignments(d))[i],
                ',',
            ) == 0,
{
    assert(count_char("name"@, ',') == 0) by {
        reveal_strlit("name");
        reveal_with_fuel(count_char, 6);
    }
    assert(count_char("postal"@, ',') == 0) by {
        reveal_strlit("postal");
        reveal_with_fuel(count_char, 8);
    }
    assert(count_char("address"@, ',') == 0) by {
        reveal_strlit("address");
        reveal_with_fuel(count_char, 9);
    }
    let ca = customer_assignments(d);
    assert forall|i: int|
        0 <= i < ca.len() implies count_char(#[trigger] columns_of(ca)[i], ',') == 0 by {
        assert(columns_of(ca)[i] == ca[i].column);
        assert(ca[i].column == "name"@ || ca[i].column == "postal"@ || ca[i].column == "address"@);
    }
}

/// Assignment and separator law: for every non-empty subset of `k` present
/// fields, the statement text is exactly the update of `m_customers` whose
/// SET clause lists those `k` fields in declaration order, and it contains
/// exactly `k - 1` commas — one separator between each pair of successive
/// assignments, none before the first nor after the last.
pub proof fn lemma_customer_update_comma_count(d: UpdateCustomerData)
    requires
        customer_assignments(d).len() > 0,
    ensures
        spec_build_update("m_customers"@, customer_assignments(d), d.id)->0.sql == update_sql(
            "m_customers"@,
            columns_of(customer_assignments(d)),
        ),
        count_char(spec_build_update("m_customers"@, customer_assignments(d), d.id)->0.sql, ',')
            == customer_assignments(d).len() - 1,
{
    lemma_customer_columns_comma_free(d);
    assert(count_char("m_customers"@, ',') == 0) by {
        reveal_strlit("m_customers");
        reveal_with_fuel(count_char, 13);
    }
    lemma_update_sql_comma_count("m_customers"@, columns_of(customer_assignments(d)));
}

/// Injection-safety law: the statement text depends only on which fields are
/// present, never on the bound values or the identity — a bound value cannot
/// reach the text, however it renders.
pub proof fn lemma_customer_text_independent(d1: UpdateCustomerData, d2: UpdateCustomerData)
    requires
        d1.name is Some <==> d2.name is Some,
        d1.postal is Some <==> d2.postal is Some,
        d1.address is Some <==> d2.address is Some,
    ensures
        spec_build_update("m_customers"@, customer_assignments(d1), d1.id) is Some
            <==> spec_build_update("m_customers"@, customer_assignments(d2), d2.id) is Some,
        customer_assignments(d1).len() > 0 ==> spec_build_update(
            "m_customers"@,
            customer_assignments(d1),
            d1.id,
        )->0.sql == spec_build_update("m_customers"@, customer_assignments(d2), d2.id)->0.sql,
{
    assert(columns_of(customer_assignments(d1)) =~= columns_of(customer_assignments(d2)));
    lemma_text_independent_of_values(
        "m_customers"@,
        customer_assignments(d1),
        customer_assignments(d2),
        d1.id,
        d2.id,
    );
}

/// What the update-customer operation hands back to the caller.
pub struct UpdateCustomerOutput {
    customer_id: Id,
}

impl UpdateCustomerOutput {
    pub fn new(result: &UpdateCustomerResult) -> (r: Self)
        ensures
            r@ == result@,
    {
        Self { customer_id: result.customer_id() }
    }

    pub fn customer_id(&self) -> (r: i64)
        ensures
            r as int == self@,
    {
        self.customer_id
    }
}

impl View for UpdateCustomerOutput {
    type V = int;

    closed spec fn view(&self) -> int {
        self.customer_id as int
    }
}

} // verus!
