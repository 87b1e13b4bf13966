use serde_json::Value;
use ship_catalog::builder::{build_update, UpdatePlan};
use ship_catalog::driver::bind_values;
use ship_catalog::patch::{BindValue, ShipUpdate};
use sqlx::Arguments;

#[test]
fn no_values_bind_to_an_empty_list() {
    let bound = bind_values(&Vec::new()).unwrap();
    assert_eq!(bound.len(), 0);
}

#[test]
fn each_value_is_bound_once() {
    let document = Value::Bool(true);
    let params = vec![BindValue::Text("Rifter Mk2"), BindValue::Json(&document)];
    let bound = bind_values(&params).unwrap();
    assert_eq!(bound.len(), 2);
}

#[test]
fn text_and_document_are_encoded_under_their_kinds() {
    let document = Value::String("Rifter".to_string());
    let as_text = format!("{:?}", bind_values(&vec![BindValue::Text("Rifter")]).unwrap());
    let as_document = format!("{:?}", bind_values(&vec![BindValue::Json(&document)]).unwrap());
    assert_ne!(as_text, as_document);
    let twice = format!("{:?}", bind_values(&vec![BindValue::Text("Rifter")]).unwrap());
    assert_eq!(as_text, twice);
}

#[test]
fn order_of_the_values_is_kept() {
    let first = format!(
        "{:?}",
        bind_values(&vec![BindValue::Text("a"), BindValue::Text("b")]).unwrap()
    );
    let second = format!(
        "{:?}",
        bind_values(&vec![BindValue::Text("b"), BindValue::Text("a")]).unwrap()
    );
    assert_ne!(first, second);
}

#[test]
fn statement_of_a_patch_binds_one_argument_per_placeholder() {
    let mut patch = ShipUpdate::new();
    patch.name = Some("Rifter Mk2".to_string());
    patch.hull = Some(Value::Null);
    match build_update("Rifter", &patch) {
        UpdatePlan::Execute(statement) => {
            let bound = bind_values(&statement.params).unwrap();
            assert_eq!(bound.len(), 3);
            assert_eq!(statement.sql.matches('$').count(), bound.len());
        }
        UpdatePlan::NoOp => panic!("the patch supplies two columns"),
    }
}
