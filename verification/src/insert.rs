//! The statement that stores a new ship.

use vstd::prelude::*;
use vstd::string::StringExecFns;
use crate::builder::{Statement, StatementView};
use crate::errors::ApiError;
use crate::patch::{
    bound_values, column_kind, column_names, columns, lemma_column_names_hold_no_placeholder,
    BindValue, BoundValue, ColumnSpec, COLUMN_COUNT,
};
use crate::placeholders::{
    lemma_placeholder_counts_once, placeholder_count, placeholders, push_placeholder,
};
use crate::ship::{valid_name, validate_name};
use crate::text::{
    join, lemma_join_push, lemma_occurrences_add, lemma_occurrences_join, lemma_occurrences_none,
    occurrences,
};

verus! {

/// A ship as the store holds it: the name as text, and each block as one
/// structured document that the library does not look into.
#[derive(Debug, PartialEq)]
pub struct ShipRow {
    pub name: String,
    pub info: serde_json::Value,
    pub attributes: serde_json::Value,
    pub fitting: serde_json::Value,
    pub capacitor: serde_json::Value,
    pub targeting: serde_json::Value,
    pub shields: serde_json::Value,
    pub armor: serde_json::Value,
    pub hull: serde_json::Value,
    pub inventory: serde_json::Value,
    pub navigation: serde_json::Value,
    pub variants: serde_json::Value,
}

impl ShipRow {
    /// The values of the twelve columns, in their declared order.
    pub open spec fn values(&self) -> Seq<BoundValue> {
        seq![
            BoundValue::Text(self.name@),
            BoundValue::Json(self.info),
            BoundValue::Json(self.attributes),
            BoundValue::Json(self.fitting),
            BoundValue::Json(self.capacitor),
            BoundValue::Json(self.targeting),
            BoundValue::Json(self.shields),
            BoundValue::Json(self.armor),
            BoundValue::Json(self.hull),
            BoundValue::Json(self.inventory),
            BoundValue::Json(self.navigation),
            BoundValue::Json(self.variants),
        ]
    }

    /// The values to bind, one per column, in the declared order.
    pub fn params(&self) -> (params: Vec<BindValue<'_>>)
        ensures
            bound_values(params@) == self.values(),
    {
        let mut params: Vec<BindValue<'_>> = Vec::new();
        params.push(BindValue::Text(self.name.as_str()));
        params.push(BindValue::Json(&self.info));
        params.push(BindValue::Json(&self.attributes));
        params.push(BindValue::Json(&self.fitting));
        params.push(BindValue::Json(&self.capacitor));
        params.push(BindValue::Json(&self.targeting));
        params.push(BindValue::Json(&self.shields));
        params.push(BindValue::Json(&self.armor));
        params.push(BindValue::Json(&self.hull));
        params.push(BindValue::Json(&self.inventory));
        params.push(BindValue::Json(&self.navigation));
        params.push(BindValue::Json(&self.variants));
        assert(bound_values(params@) =~= self.values());
        params
    }
}

/// The text of the statement that stores a ship: the twelve columns in
/// their declared order, and a placeholder for each.
pub open spec fn insert_text() -> Seq<char> {
    "INSERT INTO ships ("@ + join(column_names(), ", "@) + ") VALUES ("@ + join(
        placeholders(COLUMN_COUNT as nat),
        ", "@,
    ) + ") RETURNING id"@
}

/// What the builder owes for a new ship: the statement, or a validation
/// failure where the name is too short.
pub open spec fn insert_plan(row: ShipRow) -> Result<StatementView, ApiError> {
    if valid_name(row.name@) {
        Ok(StatementView { sql: insert_text(), params: row.values() })
    } else {
        Err(ApiError::Validation)
    }
}

/// What building the statement returns, in contracts.
pub open spec fn insert_result_view<'a>(built: Result<Statement<'a>, ApiError>) -> Result<
    StatementView,
    ApiError,
> {
    match built {
        Ok(statement) => Ok(statement@),
        Err(e) => Err(e),
    }
}

/// The names of the columns, in order.
pub open spec fn names_of(cols: Seq<ColumnSpec>) -> Seq<Seq<char>> {
    Seq::new(cols.len(), |i: int| cols[i].name@)
}

/// Appends the names of the columns, separated by commas.
fn push_column_list(out: &mut String, cols: &Vec<ColumnSpec>)
    ensures
        final(out)@ == old(out)@ + join(names_of(cols@), ", "@),
{
    let ghost names = names_of(cols@);
    let mut i: usize = 0;
    assert(out@ =~= old(out)@ + join(names.take(0), ", "@));
    while i < cols.len()
        invariant
            i <= cols@.len(),
            names == names_of(cols@),
            out@ == old(out)@ + join(names.take(i as int), ", "@),
        decreases cols@.len() - i,
    {
        if i > 0 {
            out.append(", ");
        }
        out.append(cols[i].name);
        proof {
            assert(names.take(i + 1) =~= names.take(i as int).push(names[i as int]));
            lemma_join_push(names.take(i as int), ", "@, names[i as int]);
            assert(out@ =~= old(out)@ + join(names.take(i + 1), ", "@));
        }
        i += 1;
    }
    assert(names.take(i as int) =~= names);
}

/// Appends the placeholders from `$1` to the one numbered `count`,
/// separated by commas.
fn push_placeholder_list(out: &mut String, count: usize)
    ensures
        final(out)@ == old(out)@ + join(placeholders(count as nat), ", "@),
{
    let ghost all = placeholders(count as nat);
    let mut i: usize = 0;
    assert(out@ =~= old(out)@ + join(all.take(0), ", "@));
    while i < count
        invariant
            i <= count,
            all == placeholders(count as nat),
            out@ == old(out)@ + join(all.take(i as int), ", "@),
        decreases count - i,
    {
        if i > 0 {
            out.append(", ");
        }
        push_placeholder(out, i + 1);
        proof {
            assert(all.take(i + 1) =~= all.take(i as int).push(all[i as int]));
            lemma_join_push(all.take(i as int), ", "@, all[i as int]);
            assert(out@ =~= old(out)@ + join(all.take(i + 1), ", "@));
        }
        i += 1;
    }
    assert(all.take(i as int) =~= all);
}

/// Builds the statement that stores `row`, after checking its name: a ship
/// whose name is too short gets no statement at all.
pub fn build_insert<'a>(row: &'a ShipRow) -> (built: Result<Statement<'a>, ApiError>)
    ensures
        insert_result_view(built) == insert_plan(*row),
{
    match validate_name(row.name.as_str()) {
        Err(error) => Err(error),
        Ok(()) => {
            let cols = columns();
            let mut sql = String::from_str("INSERT INTO ships (");
            push_column_list(&mut sql, &cols);
            sql.append(") VALUES (");
            push_placeholder_list(&mut sql, cols.len());
            sql.append(") RETURNING id");
            proof {
                assert(names_of(cols@) =~= column_names());
                assert(sql@ =~= insert_text());
            }
            Ok(Statement { sql, params: row.params() })
        },
    }
}

/// The statement that stores a ship has one placeholder for each of its
/// twelve values, and each value has the kind of the column at its place:
/// the name is text, every other value is a structured document.
pub proof fn lemma_insert_pairs_columns_and_values(row: ShipRow)
    ensures
        placeholder_count(insert_text()) == COLUMN_COUNT,
        row.values().len() == COLUMN_COUNT,
        forall|i: int| 0 <= i < COLUMN_COUNT ==> (#[trigger] row.values()[i]).kind() == column_kind(i),
{
    lemma_column_names_hold_no_placeholder();
    reveal_strlit("INSERT INTO ships (");
    reveal_strlit(", ");
    reveal_strlit(") VALUES (");
    reveal_strlit(") RETURNING id");
    let names = column_names();
    let marks = placeholders(COLUMN_COUNT as nat);
    assert forall|i: int| 0 <= i < names.len() implies occurrences(#[trigger] names[i], '$')
        == 0 by {
        lemma_occurrences_none(names[i], '$');
    }
    assert forall|i: int| 0 <= i < marks.len() implies occurrences(#[trigger] marks[i], '$')
        == 1 by {
        lemma_placeholder_counts_once((i + 1) as nat);
    }
    lemma_occurrences_none(", "@, '$');
    lemma_occurrences_join(names, ", "@, '$', 0);
    lemma_occurrences_join(marks, ", "@, '$', 1);
    let head = "INSERT INTO ships ("@;
    let middle = ") VALUES ("@;
    let tail = ") RETURNING id"@;
    lemma_occurrences_none(head, '$');
    lemma_occurrences_none(middle, '$');
    lemma_occurrences_none(tail, '$');
    let listed = join(names, ", "@);
    let marked = join(marks, ", "@);
    lemma_occurrences_add(head, listed, '$');
    lemma_occurrences_add(head + listed, middle, '$');
    lemma_occurrences_add(head + listed + middle, marked, '$');
    lemma_occurrences_add(head + listed + middle + marked, tail, '$');
}

} // verus!
