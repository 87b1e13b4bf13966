use serde_json::{Number, Value};
use ship_catalog::builder::{build_update, build_update_from, Statement, UpdatePlan};
use ship_catalog::patch::{columns, BindValue, ColumnSpec, Field, ShipUpdate, ValueKind};

fn statement<'a>(plan: UpdatePlan<'a>) -> Statement<'a> {
    match plan {
        UpdatePlan::Execute(statement) => statement,
        UpdatePlan::NoOp => panic!("the patch supplies a column"),
    }
}

fn document(key: &str, value: u64) -> Value {
    let mut map = serde_json::Map::new();
    map.insert(key.to_string(), Value::Number(Number::from(value)));
    Value::Object(map)
}

fn set_column(patch: &mut ShipUpdate, index: usize, value: Value) {
    match index {
        1 => patch.info = Some(value),
        2 => patch.attributes = Some(value),
        3 => patch.fitting = Some(value),
        4 => patch.capacitor = Some(value),
        5 => patch.targeting = Some(value),
        6 => patch.shields = Some(value),
        7 => patch.armor = Some(value),
        8 => patch.hull = Some(value),
        9 => patch.inventory = Some(value),
        10 => patch.navigation = Some(value),
        11 => patch.variants = Some(value),
        _ => panic!("no structured column at {}", index),
    }
}

const NAMES: [&str; 12] = [
    "name",
    "info",
    "attributes",
    "fitting",
    "capacitor",
    "targeting",
    "shields",
    "armor",
    "hull",
    "inventory",
    "navigation",
    "variants",
];

#[test]
fn rename_builds_one_assignment_and_two_placeholders() {
    let mut patch = ShipUpdate::new();
    patch.name = Some("Rifter Mk2".to_string());
    let built = statement(build_update("Rifter", &patch));
    assert_eq!(built.sql, "UPDATE ships SET name = $1 WHERE name = $2");
    assert_eq!(built.params, vec![BindValue::Text("Rifter Mk2"), BindValue::Text("Rifter")]);
}

#[test]
fn empty_patch_is_a_no_op() {
    let patch = ShipUpdate::new();
    assert_eq!(build_update("Rifter", &patch), UpdatePlan::NoOp);
    assert_eq!(build_update("Rifter", &ShipUpdate::default()), UpdatePlan::NoOp);
}

#[test]
fn empty_field_list_is_a_no_op() {
    let fields: Vec<Field> = Vec::new();
    assert_eq!(build_update_from(&fields, "Rifter"), UpdatePlan::NoOp);
}

#[test]
fn each_single_structured_column_gets_placeholder_one() {
    for index in 1..12 {
        let mut patch = ShipUpdate::new();
        let value = document("n", index as u64);
        set_column(&mut patch, index, value.clone());
        let built = statement(build_update("Rifter", &patch));
        assert_eq!(built.sql, format!("UPDATE ships SET {} = $1 WHERE name = $2", NAMES[index]));
        assert_eq!(built.params, vec![BindValue::Json(&value), BindValue::Text("Rifter")]);
        assert_eq!(built.sql.matches('$').count(), 2);
        assert!(!built.sql.contains(','));
    }
}

#[test]
fn text_and_structured_values_keep_the_declared_order() {
    let fitting = document("high_slots", 3);
    let variants = Value::Array(vec![document("id", 7)]);
    let mut patch = ShipUpdate::new();
    patch.variants = Some(variants.clone());
    patch.name = Some("Rifter Mk2".to_string());
    patch.fitting = Some(fitting.clone());
    let built = statement(build_update("Rifter", &patch));
    assert_eq!(
        built.sql,
        "UPDATE ships SET name = $1, fitting = $2, variants = $3 WHERE name = $4"
    );
    assert_eq!(
        built.params,
        vec![
            BindValue::Text("Rifter Mk2"),
            BindValue::Json(&fitting),
            BindValue::Json(&variants),
            BindValue::Text("Rifter"),
        ]
    );
}

#[test]
fn full_patch_numbers_thirteen_placeholders() {
    let mut patch = ShipUpdate::new();
    patch.name = Some("Slasher".to_string());
    let values: Vec<Value> = (1..12).map(|i| document("n", i as u64)).collect();
    for index in 1..12 {
        set_column(&mut patch, index, values[index - 1].clone());
    }
    let built = statement(build_update("Rifter", &patch));
    assert_eq!(
        built.sql,
        "UPDATE ships SET name = $1, info = $2, attributes = $3, fitting = $4, capacitor = $5, \
         targeting = $6, shields = $7, armor = $8, hull = $9, inventory = $10, navigation = $11, \
         variants = $12 WHERE name = $13"
    );
    assert_eq!(built.params.len(), 13);
    assert_eq!(built.params[0], BindValue::Text("Slasher"));
    for index in 1..12 {
        assert_eq!(built.params[index], BindValue::Json(&values[index - 1]));
    }
    assert_eq!(built.params[12], BindValue::Text("Rifter"));
    assert_eq!(built.sql.matches('$').count(), built.params.len());
}

#[test]
fn every_subset_has_one_placeholder_per_value() {
    for mask in 1u32..(1 << 12) {
        let mut patch = ShipUpdate::new();
        let mut expected: Vec<String> = Vec::new();
        for index in 0..12 {
            if mask & (1 << index) != 0 {
                if index == 0 {
                    patch.name = Some("Slasher".to_string());
                } else {
                    set_column(&mut patch, index, document("n", index as u64));
                }
                expected.push(format!("{} = ${}", NAMES[index], expected.len() + 1));
            }
        }
        let built = statement(build_update("Rifter", &patch));
        let text = format!(
            "UPDATE ships SET {} WHERE name = ${}",
            expected.join(", "),
            expected.len() + 1
        );
        assert_eq!(built.sql, text);
        assert_eq!(built.params.len(), expected.len() + 1);
        assert_eq!(built.params[expected.len()], BindValue::Text("Rifter"));
    }
}

#[test]
fn explicit_null_is_a_supplied_value() {
    let mut patch = ShipUpdate::new();
    patch.hull = Some(Value::Null);
    let built = statement(build_update("Rifter", &patch));
    assert_eq!(built.sql, "UPDATE ships SET hull = $1 WHERE name = $2");
    assert_eq!(built.params, vec![BindValue::Json(&Value::Null), BindValue::Text("Rifter")]);
}

#[test]
fn values_never_reach_the_statement_text() {
    let mut patch = ShipUpdate::new();
    patch.name = Some("x'; DROP TABLE ships; --".to_string());
    let built = statement(build_update("y' OR '1'='1", &patch));
    assert_eq!(built.sql, "UPDATE ships SET name = $1 WHERE name = $2");
    assert_eq!(
        built.params,
        vec![BindValue::Text("x'; DROP TABLE ships; --"), BindValue::Text("y' OR '1'='1")]
    );
}

#[test]
fn building_twice_gives_the_same_statement() {
    let mut patch = ShipUpdate::new();
    patch.name = Some("Rifter Mk2".to_string());
    patch.armor = Some(document("capacity", 450));
    assert_eq!(build_update("Rifter", &patch), build_update("Rifter", &patch));
}

#[test]
fn fields_list_the_twelve_columns_in_order() {
    let mut patch = ShipUpdate::new();
    patch.name = Some("Rifter".to_string());
    let hull = document("capacity", 350);
    patch.hull = Some(hull.clone());
    let fields = patch.fields();
    assert_eq!(fields.len(), 12);
    for index in 0..12 {
        assert_eq!(fields[index].column.name, NAMES[index]);
        let kind = if index == 0 { ValueKind::Text } else { ValueKind::Json };
        assert_eq!(fields[index].column.kind, kind);
        let expected = match index {
            0 => Some(BindValue::Text("Rifter")),
            8 => Some(BindValue::Json(&hull)),
            _ => None,
        };
        assert_eq!(fields[index].value, expected);
    }
}

#[test]
fn columns_are_the_allowed_names() {
    let cols = columns();
    assert_eq!(cols.len(), 12);
    for index in 0..12 {
        assert_eq!(cols[index].name, NAMES[index]);
    }
    assert_eq!(cols[0].kind, ValueKind::Text);
    assert!(cols[1..].iter().all(|c| c.kind == ValueKind::Json));
}

#[test]
fn bind_value_reports_its_kind() {
    let value = Value::Bool(true);
    assert_eq!(BindValue::Text("a").kind(), ValueKind::Text);
    assert_eq!(BindValue::Json(&value).kind(), ValueKind::Json);
}

#[test]
fn field_list_with_gaps_skips_the_absent_fields() {
    let value = document("capacity", 1);
    let fields = vec![
        Field { column: ColumnSpec { name: "alpha", kind: ValueKind::Json }, value: None },
        Field {
            column: ColumnSpec { name: "beta", kind: ValueKind::Json },
            value: Some(BindValue::Json(&value)),
        },
        Field { column: ColumnSpec { name: "gamma", kind: ValueKind::Text }, value: None },
        Field {
            column: ColumnSpec { name: "delta", kind: ValueKind::Text },
            value: Some(BindValue::Text("d")),
        },
    ];
    let built = statement(build_update_from(&fields, "Rifter"));
    assert_eq!(built.sql, "UPDATE ships SET beta = $1, delta = $2 WHERE name = $3");
    assert_eq!(
        built.params,
        vec![BindValue::Json(&value), BindValue::Text("d"), BindValue::Text("Rifter")]
    );
}

#[test]
fn applying_a_statement_twice_stores_what_once_stores() {
    let fitting = document("high_slots", 3);
    let mut patch = ShipUpdate::new();
    patch.name = Some("Rifter Mk2".to_string());
    patch.fitting = Some(fitting.clone());
    let built = statement(build_update("Rifter", &patch));
    let assigned: Vec<&str> = built.sql["UPDATE ships SET ".len()..built.sql.find(" WHERE").unwrap()]
        .split(", ")
        .map(|clause| clause.split(" = $").next().unwrap())
        .collect();
    let apply = |row: &mut Vec<(String, String)>| {
        let selected = row.iter().any(|(c, v)| c == "name" && *v == "\"Rifter\"");
        if selected {
            for (position, column) in assigned.iter().enumerate() {
                let stored = match built.params[position] {
                    BindValue::Text(text) => format!("{:?}", text),
                    BindValue::Json(value) => value.to_string(),
                };
                for entry in row.iter_mut() {
                    if entry.0 == *column {
                        entry.1 = stored.clone();
                    }
                }
            }
        }
    };
    let mut row = vec![
        ("name".to_string(), "\"Rifter\"".to_string()),
        ("fitting".to_string(), "{}".to_string()),
        ("hull".to_string(), "{\"capacity\":350}".to_string()),
    ];
    apply(&mut row);
    let once = row.clone();
    apply(&mut row);
    assert_eq!(row, once);
    assert_eq!(once[0].1, "\"Rifter Mk2\"");
    assert_eq!(once[1].1, fitting.to_string());
    assert_eq!(once[2].1, "{\"capacity\":350}");
}
