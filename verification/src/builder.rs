//! The builder of the parameterized `UPDATE` statement.
//!
//! Column names come from the fields handed in, values are only ever bound
//! to placeholders: no value reaches the statement text.

use vstd::prelude::*;
use vstd::string::StringExecFns;
use crate::patch::{
    bound_values, column_names, field_views, lemma_column_names_hold_no_placeholder, BindValue,
    BoundValue, Field, FieldView, ShipUpdate, COLUMN_COUNT,
};
use crate::placeholders::{
    lemma_text_then_placeholder, placeholder, placeholder_count, push_placeholder,
};
use crate::text::{
    join, lemma_join_push, lemma_occurrences_add, lemma_occurrences_join, lemma_occurrences_none,
    occurrences,
};

verus! {

/// A statement text with the values of its placeholders: the `i`-th value
/// belongs to placeholder `$i`, counted from one.
#[derive(Debug, Clone, PartialEq)]
pub struct Statement<'a> {
    pub sql: String,
    pub params: Vec<BindValue<'a>>,
}

/// What a statement is, in contracts.
pub ghost struct StatementView {
    pub sql: Seq<char>,
    pub params: Seq<BoundValue>,
}

impl<'a> View for Statement<'a> {
    type V = StatementView;

    open spec fn view(&self) -> StatementView {
        StatementView { sql: self.sql@, params: bound_values(self.params@) }
    }
}

/// What the builder decided for a patch.
#[derive(Debug, Clone, PartialEq)]
pub enum UpdatePlan<'a> {
    /// The patch supplies no column: there is nothing to send to the store.
    NoOp,
    /// The statement to execute.
    Execute(Statement<'a>),
}

impl<'a> View for UpdatePlan<'a> {
    type V = Option<StatementView>;

    open spec fn view(&self) -> Option<StatementView> {
        match *self {
            UpdatePlan::NoOp => None,
            UpdatePlan::Execute(statement) => Some(statement@),
        }
    }
}

/// Whether a field supplies a value.
pub open spec fn supplies_value() -> spec_fn(FieldView) -> bool {
    |f: FieldView| f.value is Some
}

/// The fields that supply a value, in the order of `fields`.
pub open spec fn present(fields: Seq<FieldView>) -> Seq<FieldView> {
    fields.filter(supplies_value())
}

/// One assignment of the `SET` list: the column and its placeholder.
pub open spec fn set_clause(column: Seq<char>, number: nat) -> Seq<char> {
    column + " = "@ + placeholder(number)
}

/// The assignments for the supplied fields: the `i`-th field, counted from
/// zero, gets placeholder `i + 1`.
pub open spec fn set_clauses(supplied: Seq<FieldView>) -> Seq<Seq<char>> {
    Seq::new(supplied.len(), |i: int| set_clause(supplied[i].column, (i + 1) as nat))
}

/// The values of the supplied fields, in order.
pub open spec fn supplied_values(supplied: Seq<FieldView>) -> Seq<BoundValue> {
    Seq::new(supplied.len(), |i: int| supplied[i].value->Some_0)
}

/// The text of the statement that sets the supplied fields.
pub open spec fn update_text(supplied: Seq<FieldView>) -> Seq<char> {
    "UPDATE ships SET "@ + join(set_clauses(supplied), ", "@) + " WHERE name = "@ + placeholder(
        supplied.len() + 1,
    )
}

/// The values of the statement that sets the supplied fields: one per field,
/// in order, then the lookup key.
pub open spec fn update_params(supplied: Seq<FieldView>, key: Seq<char>) -> Seq<BoundValue> {
    supplied_values(supplied).push(BoundValue::Text(key))
}

/// What the builder owes for `fields` and the lookup key: nothing where no
/// field supplies a value, else the statement over the supplied fields.
pub open spec fn update_plan(fields: Seq<FieldView>, key: Seq<char>) -> Option<StatementView> {
    let supplied = present(fields);
    if supplied.len() == 0 {
        None
    } else {
        Some(StatementView { sql: update_text(supplied), params: update_params(supplied, key) })
    }
}

/// Builds the statement for `fields` in one pass: the text and the values
/// grow together, so a placeholder and its value cannot drift apart.
pub fn build_update_from<'a>(fields: &Vec<Field<'a>>, key: &'a str) -> (plan: UpdatePlan<'a>)
    requires
        fields@.len() < usize::MAX,
    ensures
        plan@ == update_plan(field_views(fields@), key@),
{
    let ghost all = field_views(fields@);
    let mut sql = String::from_str("UPDATE ships SET ");
    let mut params: Vec<BindValue<'a>> = Vec::new();
    let mut i: usize = 0;
    proof {
        assert(all.take(0) =~= Seq::<FieldView>::empty());
        reveal(Seq::filter);
        assert(present(all.take(0)) =~= Seq::<FieldView>::empty());
        assert(sql@ =~= "UPDATE ships SET "@ + join(set_clauses(present(all.take(0))), ", "@));
    }
    while i < fields.len()
        invariant
            i <= fields@.len(),
            all == field_views(fields@),
            params@.len() == present(all.take(i as int)).len(),
            params@.len() <= i,
            bound_values(params@) == supplied_values(present(all.take(i as int))),
            sql@ == "UPDATE ships SET "@ + join(set_clauses(present(all.take(i as int))), ", "@),
        decreases fields@.len() - i,
    {
        let ghost before = present(all.take(i as int));
        let ghost old_params = params@;
        let field = &fields[i];
        proof {
            assert(all.take(i + 1) =~= all.take(i as int).push(all[i as int]));
            all.take(i as int).lemma_filter_push(all[i as int], supplies_value());
            assert(all[i as int] == field@);
        }
        match field.value {
            Some(value) => {
                if params.len() > 0 {
                    sql.append(", ");
                }
                sql.append(field.column.name);
                sql.append(" = ");
                push_placeholder(&mut sql, params.len() + 1);
                params.push(value);
                proof {
                    let after = present(all.take(i + 1));
                    assert(after == before.push(field@));
                    let clause = set_clause(field@.column, (before.len() + 1) as nat);
                    assert(set_clauses(after) =~= set_clauses(before).push(clause));
                    lemma_join_push(set_clauses(before), ", "@, clause);
                    assert(sql@ =~= "UPDATE ships SET "@ + join(set_clauses(after), ", "@));
                    assert forall|j: int| 0 <= j < after.len() implies bound_values(params@)[j]
                        == supplied_values(after)[j] by {
                        if j < before.len() {
                            assert(params@[j] == old_params[j]);
                            assert(bound_values(old_params)[j] == supplied_values(before)[j]);
                        }
                    }
                    assert(bound_values(params@) =~= supplied_values(after));
                }
            },
            None => {},
        }
        i += 1;
    }
    proof {
        assert(all.take(i as int) =~= all);
    }
    if params.len() == 0 {
        UpdatePlan::NoOp
    } else {
        let ghost supplied = present(all);
        sql.append(" WHERE name = ");
        push_placeholder(&mut sql, params.len() + 1);
        params.push(BindValue::Text(key));
        proof {
            assert(sql@ =~= update_text(supplied));
            assert(bound_values(params@) =~= update_params(supplied, key@));
        }
        UpdatePlan::Execute(Statement { sql, params })
    }
}

/// Builds the statement that applies `patch` to the ship named `key`.
pub fn build_update<'a>(key: &'a str, patch: &'a ShipUpdate) -> (plan: UpdatePlan<'a>)
    ensures
        plan@ == update_plan(patch@, key@),
{
    let fields = patch.fields();
    build_update_from(&fields, key)
}

/// The positions in `fields` of the fields that supply a value, ascending.
pub open spec fn supplied_positions(fields: Seq<FieldView>) -> Seq<int>
    decreases fields.len(),
{
    if fields.len() == 0 {
        Seq::empty()
    } else {
        let rest = supplied_positions(fields.drop_last());
        if fields.last().value is Some {
            rest.push(fields.len() - 1)
        } else {
            rest
        }
    }
}

/// The supplied fields are the fields at the supplied positions: each field
/// that supplies a value occurs once, and they keep the order of `fields`.
pub proof fn lemma_present_keeps_order(fields: Seq<FieldView>)
    ensures
        present(fields).len() == supplied_positions(fields).len(),
        forall|j: int|
            0 <= j < present(fields).len() ==> {
                let k = #[trigger] supplied_positions(fields)[j];
                0 <= k < fields.len() && fields[k].value is Some && present(fields)[j] == fields[k]
            },
        forall|a: int, b: int|
            0 <= a < b < present(fields).len() ==> supplied_positions(fields)[a]
                < supplied_positions(fields)[b],
        forall|k: int|
            0 <= k < fields.len() && fields[k].value is Some ==> supplied_positions(
                fields,
            ).contains(k),
    decreases fields.len(),
{
    reveal(Seq::filter);
    if fields.len() > 0 {
        let rest = fields.drop_last();
        lemma_present_keeps_order(rest);
        let positions = supplied_positions(fields);
        assert forall|k: int| 0 <= k < fields.len() && fields[k].value is Some implies positions.contains(
            k,
        ) by {
            if k < rest.len() {
                assert(rest[k] == fields[k]);
                assert(supplied_positions(rest).contains(k));
                let j = choose|j: int|
                    0 <= j < supplied_positions(rest).len() && supplied_positions(rest)[j] == k;
                assert(positions[j] == k);
            } else {
                assert(positions[positions.len() - 1] == k);
            }
        }
    }
}

/// A patch is a no-op exactly when none of its fields supplies a value.
pub proof fn lemma_noop_iff_nothing_supplied(fields: Seq<FieldView>, key: Seq<char>)
    ensures
        update_plan(fields, key) is None <==> forall|i: int|
            0 <= i < fields.len() ==> (#[trigger] fields[i]).value is None,
{
    lemma_present_keeps_order(fields);
    if present(fields).len() > 0 {
        let k = supplied_positions(fields)[0];
        assert(fields[k].value is Some);
    } else {
        assert forall|i: int| 0 <= i < fields.len() implies (#[trigger] fields[i]).value is None by {
            if fields[i].value is Some {
                assert(supplied_positions(fields).contains(i));
            }
        }
    }
}

/// Every statement has one value per supplied field and one more for the
/// lookup key, which comes last: placeholder `$i` belongs to the `i`-th
/// supplied field in the order of `fields`, and its value is that field's.
pub proof fn lemma_placeholders_follow_fields(fields: Seq<FieldView>, key: Seq<char>)
    requires
        update_plan(fields, key) is Some,
    ensures
        ({
            let statement = update_plan(fields, key)->Some_0;
            let positions = supplied_positions(fields);
            let clauses = set_clauses(present(fields));
            &&& positions.len() >= 1
            &&& clauses.len() == positions.len()
            &&& statement.sql == "UPDATE ships SET "@ + join(clauses, ", "@) + " WHERE name = "@
                + placeholder(positions.len() + 1)
            &&& statement.params.len() == positions.len() + 1
            &&& statement.params.last() == BoundValue::Text(key)
            &&& forall|i: int|
                0 <= i < positions.len() ==> {
                    let field = fields[#[trigger] positions[i]];
                    &&& 0 <= positions[i] < fields.len()
                    &&& clauses[i] == set_clause(field.column, (i + 1) as nat)
                    &&& field.value == Some(statement.params[i])
                }
            &&& forall|a: int, b: int|
                0 <= a < b < positions.len() ==> positions[a] < positions[b]
        }),
{
    lemma_present_keeps_order(fields);
}

/// A patch of exactly one supplied field gives a statement with one
/// assignment and two placeholders, with no separator in it.
pub proof fn lemma_single_field_statement(fields: Seq<FieldView>, key: Seq<char>, i: int)
    requires
        0 <= i < fields.len(),
        fields[i].value is Some,
        forall|j: int| 0 <= j < fields.len() && j != i ==> (#[trigger] fields[j]).value is None,
    ensures
        update_plan(fields, key) == Some(
            StatementView {
                sql: "UPDATE ships SET "@ + fields[i].column + " = $1 WHERE name = $2"@,
                params: seq![fields[i].value->Some_0, BoundValue::Text(key)],
            },
        ),
{
    lemma_present_keeps_order(fields);
    let positions = supplied_positions(fields);
    let supplied = present(fields);
    assert(positions.contains(i));
    assert forall|j: int| 0 <= j < positions.len() implies positions[j] == i by {
        assert(fields[positions[j]].value is Some);
    }
    if positions.len() > 1 {
        assert(positions[0] < positions[1]);
    }
    assert(supplied.len() == 1);
    assert(positions[0] == i);
    assert(supplied[0] == fields[i]);
    reveal_strlit(" = ");
    reveal_strlit("$");
    reveal_strlit(" WHERE name = ");
    reveal_strlit(" = $1 WHERE name = $2");
    assert(set_clauses(supplied) =~= seq![set_clause(fields[i].column, 1)]);
    assert(placeholder(1) =~= seq!['$', '1']);
    assert(placeholder(2) =~= seq!['$', '2']);
    assert(update_text(supplied) =~= "UPDATE ships SET "@ + fields[i].column
        + " = $1 WHERE name = $2"@);
    assert(update_params(supplied, key) =~= seq![fields[i].value->Some_0, BoundValue::Text(key)]);
}

/// Where no column has `$` in its name, a statement text holds as many
/// placeholders as the statement has values: one per assignment and one for
/// the lookup key.
pub proof fn lemma_placeholder_per_value(fields: Seq<FieldView>, key: Seq<char>)
    requires
        forall|i: int| 0 <= i < fields.len() ==> !(#[trigger] fields[i]).column.contains('$'),
        update_plan(fields, key) is Some,
    ensures
        placeholder_count(update_plan(fields, key)->Some_0.sql) == update_plan(
            fields,
            key,
        )->Some_0.params.len(),
        placeholder_count(update_plan(fields, key)->Some_0.sql) == present(fields).len() + 1,
{
    let supplied = present(fields);
    let clauses = set_clauses(supplied);
    lemma_present_keeps_order(fields);
    reveal_strlit(" = ");
    reveal_strlit(", ");
    reveal_strlit("UPDATE ships SET ");
    reveal_strlit(" WHERE name = ");
    assert forall|i: int| 0 <= i < clauses.len() implies occurrences(#[trigger] clauses[i], '$')
        == 1 by {
        let k = supplied_positions(fields)[i];
        assert(supplied[i] == fields[k]);
        let column = fields[k].column;
        assert(!fields[k].column.contains('$'));
        lemma_text_then_placeholder(column + " = "@, (i + 1) as nat);
    }
    lemma_occurrences_none(", "@, '$');
    lemma_occurrences_join(clauses, ", "@, '$', 1);
    let head = "UPDATE ships SET "@;
    let joined = join(clauses, ", "@);
    lemma_occurrences_none(head, '$');
    lemma_occurrences_add(head, joined, '$');
    lemma_text_then_placeholder(" WHERE name = "@, supplied.len() + 1);
    assert(update_text(supplied) =~= (head + joined) + (" WHERE name = "@ + placeholder(
        supplied.len() + 1,
    )));
    lemma_occurrences_add(
        head + joined,
        " WHERE name = "@ + placeholder(supplied.len() + 1),
        '$',
    );
}

/// The statement of a patch holds as many placeholders as it has values:
/// one per supplied column and one for the lookup key.
pub proof fn lemma_patch_placeholder_per_value(patch: ShipUpdate, key: Seq<char>)
    requires
        update_plan(patch@, key) is Some,
    ensures
        placeholder_count(update_plan(patch@, key)->Some_0.sql) == update_plan(
            patch@,
            key,
        )->Some_0.params.len(),
        placeholder_count(update_plan(patch@, key)->Some_0.sql) == present(patch@).len() + 1,
{
    lemma_column_names_hold_no_placeholder();
    let fields = patch@;
    assert forall|i: int| 0 <= i < fields.len() implies !(#[trigger] fields[i]).column.contains(
        '$',
    ) by {
        assert(fields[i].column == column_names()[i]);
    }
    lemma_placeholder_per_value(fields, key);
}

/// A patch that supplies exactly one column gives a statement with one
/// assignment and two placeholders, the column's and the key's, with no
/// separator in it.
pub proof fn lemma_single_column_patch(patch: ShipUpdate, key: Seq<char>, i: int)
    requires
        0 <= i < COLUMN_COUNT,
        patch.values()[i] is Some,
        forall|j: int| 0 <= j < COLUMN_COUNT && j != i ==> (#[trigger] patch.values()[j]) is None,
    ensures
        update_plan(patch@, key) == Some(
            StatementView {
                sql: "UPDATE ships SET "@ + column_names()[i] + " = $1 WHERE name = $2"@,
                params: seq![patch.values()[i]->Some_0, BoundValue::Text(key)],
            },
        ),
        placeholder_count(update_plan(patch@, key)->Some_0.sql) == 2,
{
    let fields = patch@;
    assert forall|j: int| 0 <= j < fields.len() && j != i implies (#[trigger] fields[j]).value is None by {
        assert(fields[j].value == patch.values()[j]);
    }
    lemma_single_field_statement(fields, key, i);
    lemma_patch_placeholder_per_value(patch, key);
}

} // verus!
