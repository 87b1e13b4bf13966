//! What an update statement does to a stored row.
//!
//! The store is outside this library. This module states, as a model, what a
//! store that honours `SET` and `WHERE` does with the statement that the
//! builder hands out, and proves what follows for a patch.

use vstd::prelude::*;
use crate::builder::{present, supplied_positions, lemma_present_keeps_order};
use crate::patch::{
    column_names, lemma_column_names_distinct, BoundValue, FieldView, ShipUpdate, COLUMN_COUNT,
};

verus! {

/// The value that the assignments for `supplied`, applied in order, leave in
/// `column`: that of the last assignment to it, if there is one.
pub open spec fn assigned_value(supplied: Seq<FieldView>, column: Seq<char>) -> Option<BoundValue>
    decreases supplied.len(),
{
    if supplied.len() == 0 {
        None
    } else if supplied.last().column == column {
        supplied.last().value
    } else {
        assigned_value(supplied.drop_last(), column)
    }
}

/// A row after the assignments for `supplied` were applied in order.
pub open spec fn assign(row: Map<Seq<char>, BoundValue>, supplied: Seq<FieldView>) -> Map<
    Seq<char>,
    BoundValue,
>
    decreases supplied.len(),
{
    if supplied.len() == 0 {
        row
    } else {
        assign(row, supplied.drop_last()).insert(
            supplied.last().column,
            supplied.last().value->Some_0,
        )
    }
}

/// Whether the statement's `WHERE name = key` selects the row.
pub open spec fn selects(row: Map<Seq<char>, BoundValue>, key: Seq<char>) -> bool {
    row.contains_key("name"@) && row["name"@] == BoundValue::Text(key)
}

/// A row after the statement for `fields` and `key` ran: a row that the key
/// selects gets the supplied values, any other row stays as it is. For a
/// no-op nothing runs, and the row stays as it is too.
pub open spec fn row_after(
    row: Map<Seq<char>, BoundValue>,
    fields: Seq<FieldView>,
    key: Seq<char>,
) -> Map<Seq<char>, BoundValue> {
    if selects(row, key) {
        assign(row, present(fields))
    } else {
        row
    }
}

/// A table after the statement ran: each of its rows after it.
pub open spec fn table_after(
    table: Seq<Map<Seq<char>, BoundValue>>,
    fields: Seq<FieldView>,
    key: Seq<char>,
) -> Seq<Map<Seq<char>, BoundValue>> {
    Seq::new(table.len(), |i: int| row_after(table[i], fields, key))
}

/// What the assignments leave in each column: the assigned value where there
/// is one, else what the row held.
pub proof fn lemma_assign_column(
    row: Map<Seq<char>, BoundValue>,
    supplied: Seq<FieldView>,
    column: Seq<char>,
)
    requires
        forall|i: int| 0 <= i < supplied.len() ==> (#[trigger] supplied[i]).value is Some,
    ensures
        assign(row, supplied).contains_key(column) <==> row.contains_key(column) || assigned_value(
            supplied,
            column,
        ) is Some,
        assign(row, supplied).contains_key(column) ==> assign(row, supplied)[column] == (
        match assigned_value(supplied, column) {
            Some(v) => v,
            None => row[column],
        }),
    decreases supplied.len(),
{
    if supplied.len() > 0 {
        lemma_assign_column(row, supplied.drop_last(), column);
    }
}

/// Running the same statement a second time changes nothing: the stored row
/// after two runs is the stored row after one.
pub proof fn lemma_update_is_idempotent(
    row: Map<Seq<char>, BoundValue>,
    fields: Seq<FieldView>,
    key: Seq<char>,
)
    ensures
        row_after(row_after(row, fields, key), fields, key) == row_after(row, fields, key),
{
    let supplied = present(fields);
    lemma_present_keeps_order(fields);
    let once = assign(row, supplied);
    let twice = assign(once, supplied);
    assert forall|column: Seq<char>| #[trigger]
        twice.contains_key(column) == once.contains_key(column) && (once.contains_key(column)
            ==> twice[column] == once[column]) by {
        lemma_assign_column(row, supplied, column);
        lemma_assign_column(once, supplied, column);
    }
    assert(twice =~= once);
}

/// Applying the same patch a second time leaves the stored ships as the
/// first application left them. That holds too where the patch renames the
/// ship: the second statement then selects no row.
pub proof fn lemma_update_is_idempotent_on_table(
    table: Seq<Map<Seq<char>, BoundValue>>,
    fields: Seq<FieldView>,
    key: Seq<char>,
)
    ensures
        table_after(table_after(table, fields, key), fields, key) == table_after(table, fields, key),
{
    let once = table_after(table, fields, key);
    let twice = table_after(once, fields, key);
    assert forall|i: int| 0 <= i < table.len() implies twice[i] == once[i] by {
        lemma_update_is_idempotent(table[i], fields, key);
    }
    assert(twice =~= once);
}

/// No assignment names a column that no supplied field has.
proof fn lemma_unnamed_column_unassigned(supplied: Seq<FieldView>, column: Seq<char>)
    requires
        forall|i: int| 0 <= i < supplied.len() ==> (#[trigger] supplied[i]).column != column,
    ensures
        assigned_value(supplied, column) is None,
    decreases supplied.len(),
{
    if supplied.len() > 0 {
        let rest = supplied.drop_last();
        assert forall|i: int| 0 <= i < rest.len() implies (#[trigger] rest[i]).column != column by {
            assert(rest[i] == supplied[i]);
        }
        lemma_unnamed_column_unassigned(rest, column);
        assert(supplied.last() == supplied[supplied.len() - 1]);
    }
}

/// Where no two fields share a column, the assignments leave in each
/// field's column exactly what that field supplies.
pub proof fn lemma_assigned_value_of_field(fields: Seq<FieldView>, k: int)
    requires
        0 <= k < fields.len(),
        forall|a: int, b: int|
            0 <= a < b < fields.len() ==> (#[trigger] fields[a]).column != (
            #[trigger] fields[b]).column,
    ensures
        assigned_value(present(fields), fields[k].column) == fields[k].value,
    decreases fields.len(),
{
    let rest = fields.drop_last();
    let last = fields.last();
    assert(last == fields[fields.len() - 1]);
    assert forall|a: int, b: int| 0 <= a < b < rest.len() implies (#[trigger] rest[a]).column != (
    #[trigger] rest[b]).column by {
        assert(rest[a] == fields[a]);
        assert(rest[b] == fields[b]);
    }
    assert(fields =~= rest.push(last));
    rest.lemma_filter_push(last, crate::builder::supplies_value());
    if last.value is Some {
        assert(present(fields) == present(rest).push(last));
        assert(present(fields).drop_last() =~= present(rest));
    } else {
        assert(present(fields) == present(rest));
    }
    if k < rest.len() {
        assert(rest[k] == fields[k]);
        lemma_assigned_value_of_field(rest, k);
        assert(fields[k].column != fields[fields.len() - 1].column);
    } else {
        if last.value is None {
            lemma_present_keeps_order(rest);
            let supplied = present(rest);
            assert forall|i: int| 0 <= i < supplied.len() implies (#[trigger] supplied[i]).column
                != last.column by {
                let p = supplied_positions(rest)[i];
                assert(supplied[i] == rest[p]);
                assert(rest[p] == fields[p]);
                assert(fields[p].column != fields[fields.len() - 1].column);
            }
            lemma_unnamed_column_unassigned(supplied, last.column);
        }
    }
}

/// After the statement for a patch ran on the row that its key selects, the
/// row holds in each of the twelve columns what the patch supplies for it,
/// and what it held before where the patch supplies nothing.
pub proof fn lemma_stored_row_matches_patch(
    row: Map<Seq<char>, BoundValue>,
    patch: ShipUpdate,
    key: Seq<char>,
)
    requires
        selects(row, key),
    ensures
        forall|i: int|
            0 <= i < COLUMN_COUNT ==> {
                let column = #[trigger] column_names()[i];
                let after = row_after(row, patch@, key);
                match patch.values()[i] {
                    Some(v) => after.contains_key(column) && after[column] == v,
                    None => after.contains_key(column) == row.contains_key(column) && (
                    row.contains_key(column) ==> after[column] == row[column]),
                }
            },
{
    let fields = patch@;
    lemma_column_names_distinct();
    lemma_present_keeps_order(fields);
    assert forall|i: int| 0 <= i < COLUMN_COUNT implies {
        let column = #[trigger] column_names()[i];
        let after = row_after(row, patch@, key);
        match patch.values()[i] {
            Some(v) => after.contains_key(column) && after[column] == v,
            None => after.contains_key(column) == row.contains_key(column) && (row.contains_key(
                column,
            ) ==> after[column] == row[column]),
        }
    } by {
        assert(fields[i].column == column_names()[i]);
        assert(fields[i].value == patch.values()[i]);
        lemma_assigned_value_of_field(fields, i);
        lemma_assign_column(row, present(fields), column_names()[i]);
    }
}

} // verus!
