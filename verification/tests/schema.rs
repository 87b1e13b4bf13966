use ship_catalog::errors::ApiError;
use ship_catalog::reply::{
    column_added_reply, error_reply, ship_added_reply, table_dropped_reply, Body, Reply,
};
use ship_catalog::schema::{check_identifier, Column};

fn column(table: &str, name: &str, kind: &str) -> Column {
    Column {
        table: table.to_string(),
        column_name: name.to_string(),
        column_type: kind.to_string(),
    }
}

#[test]
fn identifiers_are_letters_digits_and_underscores() {
    assert!(check_identifier("ships"));
    assert!(check_identifier("_x"));
    assert!(check_identifier("JSONB"));
    assert!(check_identifier("col_2"));
    assert!(check_identifier("a"));
    assert!(check_identifier("Z9"));
}

#[test]
fn other_texts_are_no_identifiers() {
    assert!(!check_identifier(""));
    assert!(!check_identifier("2col"));
    assert!(!check_identifier("ships; DROP TABLE ships"));
    assert!(!check_identifier("a b"));
    assert!(!check_identifier("a-b"));
    assert!(!check_identifier("a$"));
    assert!(!check_identifier("naïve"));
    assert!(!check_identifier("\"ships\""));
    assert!(!check_identifier("`"));
    assert!(!check_identifier("{"));
    assert!(!check_identifier("@"));
    assert!(!check_identifier("["));
    assert!(!check_identifier("a/"));
    assert!(!check_identifier("a:"));
}

#[test]
fn add_column_statement_names_table_column_and_type() {
    let added = column("ships", "bonuses", "JSONB");
    assert_eq!(
        added.add_column_statement(),
        Ok("ALTER TABLE ships ADD COLUMN IF NOT EXISTS bonuses JSONB".to_string())
    );
    assert_eq!(added.added_message(), "Added column 'bonuses' to table 'ships'.");
}

#[test]
fn add_column_statement_refuses_anything_but_identifiers() {
    assert_eq!(
        column("ships; DROP TABLE ships; --", "bonuses", "JSONB").add_column_statement(),
        Err(ApiError::Validation)
    );
    assert_eq!(
        column("ships", "bonuses JSONB, ADD COLUMN x", "JSONB").add_column_statement(),
        Err(ApiError::Validation)
    );
    assert_eq!(
        column("ships", "bonuses", "JSONB; DROP TABLE ships").add_column_statement(),
        Err(ApiError::Validation)
    );
    assert_eq!(column("", "bonuses", "JSONB").add_column_statement(), Err(ApiError::Validation));
    assert_eq!(column("ships", "", "JSONB").add_column_statement(), Err(ApiError::Validation));
    assert_eq!(column("ships", "bonuses", "").add_column_statement(), Err(ApiError::Validation));
}

#[test]
fn answers_carry_status_and_body() {
    assert_eq!(
        ship_added_reply(),
        Reply { code: 201, body: Body::Plain("Added ship to database".to_string()) }
    );
    assert_eq!(
        table_dropped_reply(),
        Reply { code: 200, body: Body::Plain("table dropped: ships".to_string()) }
    );
    assert_eq!(
        column_added_reply(&column("ships", "bonuses", "JSONB")),
        Reply {
            code: 200,
            body: Body::Success("Added column 'bonuses' to table 'ships'.".to_string()),
        }
    );
}

#[test]
fn failed_requests_are_answered_by_their_kind() {
    assert_eq!(
        error_reply(ApiError::Validation),
        Reply { code: 400, body: Body::Plain("Validation error".to_string()) }
    );
    assert_eq!(
        error_reply(ApiError::NotFound),
        Reply { code: 404, body: Body::Plain("Ship not found".to_string()) }
    );
    assert_eq!(
        error_reply(ApiError::Store),
        Reply { code: 500, body: Body::Plain("Internal database error".to_string()) }
    );
    assert_eq!(
        error_reply(ApiError::Serialization),
        Reply { code: 500, body: Body::Plain("Data processing error".to_string()) }
    );
}
