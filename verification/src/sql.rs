//! Parameterized SQL statements and the partial-update statement builder.
//!
//! A [`Statement`] couples statement text with the ordered list of values to
//! bind; the two are produced in a single pass so that the parameter order
//! always matches the order of the placeholders in the text.  Bound values are
//! never interpolated into the text.

use vstd::prelude::*;
use vstd::string::StringExecFns;

verus! {

/// A value bound to one `?` placeholder of a statement.
pub enum SqlParam {
    Int(i64),
    Text(String),
}

/// The mathematical value of one bound parameter.
pub ghost enum SqlParamData {
    Int(int),
    Text(Seq<char>),
}

impl View for SqlParam {
    type V = SqlParamData;

    open spec fn view(&self) -> SqlParamData {
        match self {
            SqlParam::Int(i) => SqlParamData::Int(*i as int),
            SqlParam::Text(s) => SqlParamData::Text(s@),
        }
    }
}

/// One `column = ?` assignment recorded for the SET clause, together with the
/// value that its placeholder binds.
pub struct Assignment {
    pub column: String,
    pub value: SqlParam,
}

/// The mathematical value of one recorded assignment.
pub ghost struct AssignmentData {
    pub column: Seq<char>,
    pub value: SqlParamData,
}

impl View for Assignment {
    type V = AssignmentData;

    open spec fn view(&self) -> AssignmentData {
        AssignmentData { column: self.column@, value: self.value@ }
    }
}

/// A ready-to-execute parameterized statement: text plus the values to bind,
/// in placeholder order.
pub struct Statement {
    sql: String,
    params: Vec<SqlParam>,
}

/// The mathematical value of a statement.
pub ghost struct StatementData {
    pub sql: Seq<char>,
    pub params: Seq<SqlParamData>,
}

impl View for Statement {
    type V = StatementData;

    closed spec fn view(&self) -> StatementData {
        StatementData { sql: self.sql@, params: params_data(self.params@) }
    }
}

impl Statement {
    /// The statement text.
    pub fn sql(&self) -> (r: &str)
        ensures
            r@ == self@.sql,
    {
        self.sql.as_str()
    }

    /// The values to bind, in the order of the `?` placeholders in the text.
    pub fn params(&self) -> (r: &Vec<SqlParam>)
        ensures
            params_data(r@) == self@.params,
    {
        &self.params
    }
}

/// The columns of a sequence of assignments, in order.
pub open spec fn columns_of(assigns: Seq<AssignmentData>) -> Seq<Seq<char>> {
    Seq::new(assigns.len(), |i: int| assigns[i].column)
}

/// The bound values of a sequence of assignments, in order.
pub open spec fn values_of(assigns: Seq<AssignmentData>) -> Seq<SqlParamData> {
    Seq::new(assigns.len(), |i: int| assigns[i].value)
}

/// The mathematical values of a parameter list, in order.
pub open spec fn params_data(params: Seq<SqlParam>) -> Seq<SqlParamData> {
    Seq::new(params.len(), |i: int| params[i]@)
}

/// The text of one assignment: the column name followed by ` = ?`.
pub open spec fn assignment_fragment(column: Seq<char>) -> Seq<char> {
    column + " = ?"@
}

/// The SET clause for the given columns: the assignment fragments joined by
/// `, `, with no separator before the first nor after the last.
pub open spec fn set_clause(columns: Seq<Seq<char>>) -> Seq<char>
    decreases columns.len(),
{
    if columns.len() == 0 {
        Seq::empty()
    } else if columns.len() == 1 {
        assignment_fragment(columns[0])
    } else {
        set_clause(columns.drop_last()) + ", "@ + assignment_fragment(columns.last())
    }
}

/// The complete text of a partial-update statement against `table` that
/// assigns `columns` and selects the row by its identity.
pub open spec fn update_sql(table: Seq<char>, columns: Seq<Seq<char>>) -> Seq<char> {
    "UPDATE "@ + table + " SET "@ + set_clause(columns) + " WHERE id = ?"@
}

/// What the builder produces: no statement when no assignment was recorded,
/// else the update statement whose parameters are the assigned values in
/// declaration order with the identity bound last.
pub open spec fn spec_build_update(
    table: Seq<char>,
    assigns: Seq<AssignmentData>,
    id: int,
) -> Option<StatementData> {
    if assigns.len() == 0 {
        None
    } else {
        Some(
            StatementData {
                sql: update_sql(table, columns_of(assigns)),
                params: values_of(assigns).push(SqlParamData::Int(id)),
            },
        )
    }
}

proof fn lemma_set_clause_extend(columns: Seq<Seq<char>>, n: int)
    requires
        0 <= n < columns.len(),
    ensures
        set_clause(columns.take(n + 1)) == if n == 0 {
            assignment_fragment(columns[0])
        } else {
            set_clause(columns.take(n)) + ", "@ + assignment_fragment(columns[n])
        },
{
    let prefix = columns.take(n + 1);
    assert(prefix.drop_last() =~= columns.take(n));
    assert(prefix.last() == columns[n]);
    if n == 0 {
        assert(prefix[0] == columns[0]);
    }
}

/// Builds the partial-update statement for `table` from the recorded
/// assignments, binding the identity last.  Returns `None`, and builds no
/// statement at all, exactly when no assignment was recorded; the test is the
/// structural emptiness of the assignment list, never a property of the
/// rendered text.
pub fn build_update_statement(table: &str, assignments: Vec<Assignment>, id: i64) -> (r: Option<
    Statement,
>)
    ensures
        r is Some <==> assignments@.len() > 0,
        r matches Some(stmt) ==> Some(stmt@) == spec_build_update(
            table@,
            assignments_data(assignments@),
            id as int,
        ),
{
    let ghost all = assignments_data(assignments@);
    let n = assignments.len();
    let mut sql = String::new();
    sql.append("UPDATE ");
    sql.append(table);
    sql.append(" SET ");
    let mut params: Vec<SqlParam> = Vec::new();
    let mut i: usize = 0;
    while i < n
        invariant
            n == assignments@.len(),
            all == assignments_data(assignments@),
            i <= n,
            sql@ == "UPDATE "@ + table@ + " SET "@ + set_clause(columns_of(all).take(i as int)),
            params_data(params@) =~= values_of(all).take(i as int),
        decreases n - i,
    {
        proof {
            lemma_set_clause_extend(columns_of(all), i as int);
            assert(all[i as int] == assignments@[i as int]@);
            assert(columns_of(all)[i as int] == all[i as int].column);
            assert(values_of(all)[i as int] == all[i as int].value);
        }
        if i > 0 {
            sql.append(", ");
        }
        let a = &assignments[i];
        sql.append(a.column.as_str());
        sql.append(" = ?");
        let ghost pp = params@;
        let v = dup_param(&a.value);
        proof {
            assert(v@ == values_of(all)[i as int]);
        }
        params.push(v);
        i = i + 1;
        proof {
            assert(sql@ =~= "UPDATE "@ + table@ + " SET "@ + set_clause(
                columns_of(all).take(i as int),
            ));
            lemma_params_data_push(pp, v);
            assert(values_of(all).take(i as int - 1).push(values_of(all)[i as int - 1])
                =~= values_of(all).take(i as int));
            assert(params_data(params@) =~= values_of(all).take(i as int));
        }
    }
    if n == 0 {
        None
    } else {
        sql.append(" WHERE id = ?");
        let ghost pp = params@;
        params.push(SqlParam::Int(id));
        proof {
            assert(columns_of(all).take(n as int) =~= columns_of(all));
            assert(values_of(all).take(n as int) =~= values_of(all));
            lemma_params_data_push(pp, SqlParam::Int(id));
            assert(params_data(params@) =~= values_of(all).push(SqlParamData::Int(id as int)));
        }
        Some(Statement { sql, params })
    }
}

proof fn lemma_params_data_push(s: Seq<SqlParam>, p: SqlParam)
    ensures
        params_data(s.push(p)) =~= params_data(s).push(p@),
{
    assert forall|j: int|
        0 <= j < s.len() + 1 implies #[trigger] params_data(s.push(p))[j] == params_data(s).push(
        p@,
    )[j] by {
        assert(params_data(s.push(p))[j] == s.push(p)[j]@);
        if j < s.len() {
            assert(s.push(p)[j] == s[j]);
            assert(params_data(s)[j] == s[j]@);
        } else {
            assert(s.push(p)[j] == p);
        }
    }
}

/// An exact copy of one bound parameter.
fn dup_param(p: &SqlParam) -> (r: SqlParam)
    ensures
        r@ == p@,
{
    match p {
        SqlParam::Int(v) => SqlParam::Int(*v),
        SqlParam::Text(s) => SqlParam::Text(s.clone()),
    }
}

/// The mathematical values of a list of recorded assignments, in order.
pub open spec fn assignments_data(assigns: Seq<Assignment>) -> Seq<AssignmentData> {
    Seq::new(assigns.len(), |i: int| assigns[i]@)
}

/// How often `c` occurs in `s`.
pub open spec fn count_char(s: Seq<char>, c: char) -> nat
    decreases s.len(),
{
    if s.len() == 0 {
        0
    } else {
        count_char(s.drop_last(), c) + if s.last() == c {
            1nat
        } else {
            0nat
        }
    }
}

/// True when `c` does not occur in `s`.
pub open spec fn has_no_char(s: Seq<char>, c: char) -> bool {
    forall|i: int| 0 <= i < s.len() ==> s[i] != c
}

pub proof fn lemma_no_char_count_zero(s: Seq<char>, c: char)
    requires
        has_no_char(s, c),
    ensures
        count_char(s, c) == 0,
    decreases s.len(),
{
    if s.len() > 0 {
        lemma_no_char_count_zero(s.drop_last(), c);
    }
}

pub proof fn lemma_count_char_concat(s: Seq<char>, t: Seq<char>, c: char)
    ensures
        count_char(s + t, c) == count_char(s, c) + count_char(t, c),
    decreases t.len(),
{
    if t.len() == 0 {
        assert(s + t =~= s);
    } else {
        assert((s + t).drop_last() =~= s + t.drop_last());
        assert((s + t).last() == t.last());
        lemma_count_char_concat(s, t.drop_last(), c);
    }
}

proof fn lemma_fixed_text_comma_counts()
    ensures
        count_char("UPDATE "@, ',') == 0,
        count_char(" SET "@, ',') == 0,
        count_char(" WHERE id = ?"@, ',') == 0,
        count_char(" = ?"@, ',') == 0,
        count_char(", "@, ',') == 1,
{
    assert(count_char("UPDATE "@, ',') == 0) by {
        reveal_strlit("UPDATE ");
        reveal_with_fuel(count_char, 9);
    }
    assert(count_char(" SET "@, ',') == 0) by {
        reveal_strlit(" SET ");
        reveal_with_fuel(count_char, 7);
    }
    assert(count_char(" WHERE id = ?"@, ',') == 0) by {
        reveal_strlit(" WHERE id = ?");
        reveal_with_fuel(count_char, 15);
    }
    assert(count_char(" = ?"@, ',') == 0) by {
        reveal_strlit(" = ?");
        reveal_with_fuel(count_char, 6);
    }
    assert(count_char(", "@, ',') == 1) by {
        reveal_strlit(", ");
        reveal_with_fuel(count_char, 4);
    }
}

/// A comma occurs in the built statement text only as the separator between
/// two assignments: for columns that are comma-free, the SET clause of `n`
/// assignments contains exactly `n - 1` commas.
pub proof fn lemma_set_clause_comma_count(columns: Seq<Seq<char>>)
    requires
        columns.len() > 0,
        forall|i: int| 0 <= i < columns.len() ==> count_char(#[trigger] columns[i], ',') == 0,
    ensures
        count_char(set_clause(columns), ',') == columns.len() - 1,
    decreases columns.len(),
{
    lemma_fixed_text_comma_counts();
    if columns.len() == 1 {
        lemma_count_char_concat(columns[0], " = ?"@, ',');
    } else {
        lemma_set_clause_comma_count(columns.drop_last());
        lemma_count_char_concat(columns.last(), " = ?"@, ',');
        lemma_count_char_concat(set_clause(columns.drop_last()), ", "@, ',');
        lemma_count_char_concat(
            set_clause(columns.drop_last()) + ", "@,
            assignment_fragment(columns.last()),
            ',',
        );
    }
}

/// The counterpart for the whole statement text: `n` assignments against a
/// comma-free table name yield exactly `n - 1` commas in the text.
pub proof fn lemma_update_sql_comma_count(table: Seq<char>, columns: Seq<Seq<char>>)
    requires
        columns.len() > 0,
        count_char(table, ',') == 0,
        forall|i: int| 0 <= i < columns.len() ==> count_char(#[trigger] columns[i], ',') == 0,
    ensures
        count_char(update_sql(table, columns), ',') == columns.len() - 1,
{
    lemma_fixed_text_comma_counts();
    lemma_set_clause_comma_count(columns);
    lemma_count_char_concat("UPDATE "@, table, ',');
    lemma_count_char_concat("UPDATE "@ + table, " SET "@, ',');
    lemma_count_char_concat("UPDATE "@ + table + " SET "@, set_clause(columns), ',');
    lemma_count_char_concat(
        "UPDATE "@ + table + " SET "@ + set_clause(columns),
        " WHERE id = ?"@,
        ',',
    );
}

/// The statement text depends only on which assignments are present, never on
/// the bound values: two assignment lists with the same columns yield the same
/// text.  Bound values are handed to the store separately and cannot reach the
/// text.
pub proof fn lemma_text_independent_of_values(
    table: Seq<char>,
    assigns1: Seq<AssignmentData>,
    assigns2: Seq<AssignmentData>,
    id1: int,
    id2: int,
)
    requires
        columns_of(assigns1) == columns_of(assigns2),
    ensures
        assigns1.len() > 0 ==> spec_build_update(table, assigns1, id1)->0.sql
            == spec_build_update(table, assigns2, id2)->0.sql,
        spec_build_update(table, assigns1, id1) is Some <==> spec_build_update(
            table,
            assigns2,
            id2,
        ) is Some,
{
    assert(columns_of(assigns1).len() == assigns1.len());
    assert(columns_of(assigns2).len() == assigns2.len());
}

/// The builder's bound-parameter invariant: a non-empty assignment list of
/// length `n` yields a statement with exactly `n + 1` parameters, the assigned
/// values in declaration order followed by the identity; an empty list yields
/// no statement.
pub proof fn lemma_update_statement_param_count(
    table: Seq<char>,
    assigns: Seq<AssignmentData>,
    id: int,
)
    ensures
        spec_build_update(table, assigns, id) is Some <==> assigns.len() > 0,
        assigns.len() > 0 ==> spec_build_update(table, assigns, id)->0.params.len()
            == assigns.len() + 1,
        assigns.len() > 0 ==> spec_build_update(table, assigns, id)->0.params.last()
            == SqlParamData::Int(id),
        assigns.len() > 0 ==> forall|i: int|
            0 <= i < assigns.len() ==> spec_build_update(table, assigns, id)->0.params[i]
                == assigns[i].value,
{
}

} // verus!
