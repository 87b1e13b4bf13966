use ship_catalog::errors::{ApiError, FetchFailure};
use ship_catalog::ship::{validate_name, Armor, Fitting, Size, Variant, MIN_NAME_LENGTH};

#[test]
fn name_of_two_characters_is_rejected() {
    assert_eq!(validate_name("Ab"), Err(ApiError::Validation));
}

#[test]
fn name_needs_three_characters() {
    assert_eq!(MIN_NAME_LENGTH, 3);
    assert_eq!(validate_name(""), Err(ApiError::Validation));
    assert_eq!(validate_name("A"), Err(ApiError::Validation));
    assert_eq!(validate_name("Abc"), Ok(()));
    assert_eq!(validate_name("Rifter"), Ok(()));
}

#[test]
fn name_length_counts_characters_not_bytes() {
    assert_eq!("äö".len(), 4);
    assert_eq!(validate_name("äö"), Err(ApiError::Validation));
    assert_eq!(validate_name("äöü"), Ok(()));
}

#[test]
fn size_is_parsed_whatever_the_case() {
    assert_eq!(Size::from_str("small"), Ok(Size::Small));
    assert_eq!(Size::from_str("MEDIUM"), Ok(Size::Medium));
    assert_eq!(Size::from_str("Large"), Ok(Size::Large));
    assert_eq!(Size::from_str("cApItAl"), Ok(Size::Capital));
}

#[test]
fn unknown_size_is_quoted_as_given() {
    assert_eq!(
        Size::from_str("Huge"),
        Err("Invalid size: 'Huge'. Must be 'small,' 'medium,' or 'large', or 'capital'"
            .to_string())
    );
    assert_eq!(
        Size::from_str(""),
        Err("Invalid size: ''. Must be 'small,' 'medium,' or 'large', or 'capital'".to_string())
    );
    assert!(Size::from_str(" small").is_err());
}

#[test]
fn size_from_lowered_compares_the_lowered_text() {
    assert_eq!(Size::from_lowered(&"large".to_string(), "LARGE"), Ok(Size::Large));
    assert_eq!(
        Size::from_lowered(&"LARGE".to_string(), "large"),
        Err("Invalid size: 'large'. Must be 'small,' 'medium,' or 'large', or 'capital'"
            .to_string())
    );
}

#[test]
fn size_is_displayed_by_its_name() {
    assert_eq!(Size::Small.to_string(), "Small");
    assert_eq!(Size::Medium.to_string(), "Medium");
    assert_eq!(Size::Large.to_string(), "Large");
    assert_eq!(Size::Capital.to_string(), "Capital");
}

#[test]
fn displayed_size_parses_back() {
    for size in [Size::Small, Size::Medium, Size::Large, Size::Capital] {
        assert_eq!(Size::from_str(&size.to_string()), Ok(size));
    }
}

#[test]
fn record_blocks_hold_their_values() {
    let fitting = Fitting {
        high_slots: 4,
        med_slots: 3,
        low_slots: 3,
        turret_slots: 3,
        launcher_slots: 2,
        drones: 0,
        drone_bandwidth: 0,
        powergrid: 41,
        cpu: 130,
        rig_calibration: 400,
        rig_slots: 3,
        rig_size: Size::Small,
    };
    assert_eq!(fitting.clone(), fitting);
    let armor = Armor {
        capacity: 450,
        em_resistance: 60,
        thermal_resistance: 35,
        kinetic_resistance: 25,
        explosive_resistance: 10,
    };
    assert_eq!(armor.capacity, 450);
    let variant = Variant {
        id: None,
        base_ship_id: 1,
        variant_ship_id: 2,
        variant_role: "fleet".to_string(),
    };
    assert_eq!(variant.id, None);
    assert_eq!(variant.variant_role, "fleet");
}

#[test]
fn failures_have_their_status_and_message() {
    assert_eq!(ApiError::Validation.status_code(), 400);
    assert_eq!(ApiError::NotFound.status_code(), 404);
    assert_eq!(ApiError::Store.status_code(), 500);
    assert_eq!(ApiError::Serialization.status_code(), 500);
    assert_eq!(ApiError::Validation.message(), "Validation error");
    assert_eq!(ApiError::NotFound.message(), "Ship not found");
    assert_eq!(ApiError::Store.message(), "Internal database error");
    assert_eq!(ApiError::Serialization.message(), "Data processing error");
}

#[test]
fn missing_row_means_unknown_ship() {
    assert_eq!(ApiError::from_fetch(FetchFailure::RowNotFound), ApiError::NotFound);
    assert_eq!(ApiError::from_fetch(FetchFailure::Other), ApiError::Store);
}
