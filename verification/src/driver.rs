//! Handing the values of a statement to the PostgreSQL driver.

use vstd::prelude::*;
use sqlx::postgres::PgArguments;
use crate::patch::{bound_values, BindValue, BoundValue};

verus! {

/// `sqlx::postgres::PgArguments`: the driver's list of the values bound to a
/// statement, each encoded as the driver sends it.
#[verifier::external_type_specification]
#[verifier::external_body]
pub struct ExPgArguments(sqlx::postgres::PgArguments);

/// The values that a list of arguments holds, in the order in which they
/// were added: the `i`-th, counted from one, is sent for placeholder `$i`.
pub uninterp spec fn held_values(arguments: PgArguments) -> Seq<BoundValue>;

/// Whether the driver can encode a value. It refuses one whose encoded form
/// is longer than its wire format can announce.
pub uninterp spec fn encodable(value: BoundValue) -> bool;

/// `PgArguments::default`: a list that holds no value.
#[verifier::external_body]
fn no_arguments() -> (arguments: PgArguments)
    ensures
        held_values(arguments) == Seq::<BoundValue>::empty(),
{
    PgArguments::default()
}

/// `sqlx::Arguments::add` on a `PgArguments`, with a text: the driver
/// encodes the value as text and appends it, or leaves the list as it was
/// where it cannot encode the value. Which of the two depends on the value
/// alone.
#[verifier::external_body]
fn add_text(arguments: &mut PgArguments, value: &str) -> (added: bool)
    ensures
        added == encodable(BoundValue::Text(value@)),
        held_values(*final(arguments)) == if added {
            held_values(*old(arguments)).push(BoundValue::Text(value@))
        } else {
            held_values(*old(arguments))
        },
{
    sqlx::Arguments::add(arguments, value).is_ok()
}

/// `sqlx::Arguments::add` on a `PgArguments`, with a `serde_json::Value`:
/// the driver encodes the value as a structured document and appends it, or
/// leaves the list as it was where it cannot encode the value. Which of the
/// two depends on the value alone.
#[verifier::external_body]
fn add_json(arguments: &mut PgArguments, value: &serde_json::Value) -> (added: bool)
    ensures
        added == encodable(BoundValue::Json(*value)),
        held_values(*final(arguments)) == if added {
            held_values(*old(arguments)).push(BoundValue::Json(*value))
        } else {
            held_values(*old(arguments))
        },
{
    sqlx::Arguments::add(arguments, value).is_ok()
}

/// Whether the driver can encode each of the values.
pub open spec fn all_encodable(values: Seq<BoundValue>) -> bool {
    forall|i: int| 0 <= i < values.len() ==> encodable(#[trigger] values[i])
}

/// What binding returns, in contracts: the values that the arguments hold.
pub open spec fn bound_view(bound: Option<PgArguments>) -> Option<Seq<BoundValue>> {
    match bound {
        Some(arguments) => Some(held_values(arguments)),
        None => None,
    }
}

/// Binds the values of a statement for the driver, each under its kind and
/// in the order of `params`, so that the `i`-th value is sent for
/// placeholder `$i`. Returns `None` where the driver cannot encode one of
/// them.
pub fn bind_values(params: &Vec<BindValue<'_>>) -> (bound: Option<PgArguments>)
    ensures
        bound_view(bound) == if all_encodable(bound_values(params@)) {
            Some(bound_values(params@))
        } else {
            None
        },
{
    let ghost values = bound_values(params@);
    let mut arguments = no_arguments();
    let mut i: usize = 0;
    while i < params.len()
        invariant
            i <= params@.len(),
            values == bound_values(params@),
            held_values(arguments) == values.take(i as int),
            forall|j: int| 0 <= j < i ==> encodable(#[trigger] values[j]),
        decreases params@.len() - i,
    {
        let added = match params[i] {
            BindValue::Text(text) => add_text(&mut arguments, text),
            BindValue::Json(document) => add_json(&mut arguments, document),
        };
        if !added {
            assert(!encodable(values[i as int]));
            return None;
        }
        assert(values.take(i + 1) =~= values.take(i as int).push(values[i as int]));
        i += 1;
    }
    assert(values.take(i as int) =~= values);
    Some(arguments)
}

} // verus!
