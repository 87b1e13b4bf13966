//! The shape of a ship record.

use vstd::prelude::*;
use vstd::string::StringExecFns;
use crate::errors::ApiError;

verus! {

/// The size class of a ship's rigs.
#[derive(Debug, Clone, Copy, PartialEq, Eq)]
pub enum Size {
    Small,
    Medium,
    Large,
    Capital,
}

/// Slots and fitting resources.
#[derive(Debug, Clone, Copy, PartialEq, Eq)]
pub struct Fitting {
    pub high_slots: u8,
    pub med_slots: u8,
    pub low_slots: u8,
    pub turret_slots: u8,
    pub launcher_slots: u8,
    pub drones: u8,
    pub drone_bandwidth: u32,
    pub powergrid: u32,
    pub cpu: u32,
    pub rig_calibration: u32,
    pub rig_slots: u8,
    pub rig_size: Size,
}

/// Geometry and class.
#[derive(Debug, Clone, PartialEq, Eq)]
pub struct Attributes {
    pub long_axis: u32,
    pub class: String,
}

/// The armor layer.
#[derive(Debug, Clone, Copy, PartialEq, Eq)]
pub struct Armor {
    pub capacity: u32,
    pub em_resistance: u8,
    pub thermal_resistance: u8,
    pub kinetic_resistance: u8,
    pub explosive_resistance: u8,
}

/// The hull layer.
#[derive(Debug, Clone, Copy, PartialEq, Eq)]
pub struct Hull {
    pub capacity: u32,
    pub em_resistance: u8,
    pub thermal_resistance: u8,
    pub kinetic_resistance: u8,
    pub explosive_resistance: u8,
}

/// Cargo space.
#[derive(Debug, Clone, Copy, PartialEq, Eq)]
pub struct Inventory {
    pub frigate_bay: u8,
    pub capacity: u32,
    pub volume: u64,
    pub volume_packaged: u64,
}

/// General information.
#[derive(Debug, Clone, PartialEq, Eq)]
pub struct Info {
    pub description: String,
    pub quote: String,
    pub manufacturer: String,
    pub faction: String,
}

/// A link from a base ship to a ship that is a variant of it.
#[derive(Debug, Clone, PartialEq, Eq)]
pub struct Variant {
    pub id: Option<i32>,
    pub base_ship_id: i32,
    pub variant_ship_id: i32,
    pub variant_role: String,
}

/// The least number of characters in a ship's name.
pub const MIN_NAME_LENGTH: u64 = 3;

/// Whether a ship may have this name.
pub open spec fn valid_name(name: Seq<char>) -> bool {
    name.len() >= MIN_NAME_LENGTH
}

/// `validator::ValidateLength::validate_length` on a `str`, with a minimum
/// and neither a maximum nor an exact length: whether the string has at least
/// `min` characters. The crate counts the characters of a string, not its
/// bytes.
#[verifier::external_body]
fn has_min_length(value: &str, min: u64) -> (ok: bool)
    ensures
        ok == (value@.len() >= min),
{
    validator::ValidateLength::validate_length(value, Some(min), None, None)
}

/// Checks the name of a ship that is about to be stored.
pub fn validate_name(name: &str) -> (checked: Result<(), ApiError>)
    ensures
        checked is Ok <==> valid_name(name@),
        checked is Err ==> checked == Err::<(), ApiError>(ApiError::Validation),
{
    if has_min_length(name, MIN_NAME_LENGTH) {
        Ok(())
    } else {
        Err(ApiError::Validation)
    }
}

/// The lower-case form of a text, as `str::to_lowercase` gives it.
pub uninterp spec fn lowercase(text: Seq<char>) -> Seq<char>;

/// `str::to_lowercase`: the text with each character replaced by its
/// lower-case form. The result depends on the text alone.
#[verifier::external_body]
fn to_lowercase(text: &str) -> (lowered: String)
    ensures
        lowered@ == lowercase(text@),
{
    text.to_lowercase()
}

/// The size that a lower-case label stands for.
pub open spec fn size_of_label(label: Seq<char>) -> Option<Size> {
    if label == "small"@ {
        Some(Size::Small)
    } else if label == "medium"@ {
        Some(Size::Medium)
    } else if label == "large"@ {
        Some(Size::Large)
    } else if label == "capital"@ {
        Some(Size::Capital)
    } else {
        None
    }
}

/// What a text that names no size is answered with.
pub open spec fn invalid_size_message(text: Seq<char>) -> Seq<char> {
    "Invalid size: '"@ + text + "'. Must be 'small,' 'medium,' or 'large', or 'capital'"@
}

/// The size that `text` names, given its lower-case form.
pub open spec fn parsed_size(lowered: Seq<char>, text: Seq<char>) -> Result<Size, Seq<char>> {
    match size_of_label(lowered) {
        Some(size) => Ok(size),
        None => Err(invalid_size_message(text)),
    }
}

/// What parsing a size returns, in contracts.
pub open spec fn size_result_view(parsed: Result<Size, String>) -> Result<Size, Seq<char>> {
    match parsed {
        Ok(size) => Ok(size),
        Err(message) => Err(message@),
    }
}

impl Size {
    /// The name of the size, as it is displayed.
    pub open spec fn name(self) -> Seq<char> {
        match self {
            Size::Small => "Small"@,
            Size::Medium => "Medium"@,
            Size::Large => "Large"@,
            Size::Capital => "Capital"@,
        }
    }

    /// The size that `text` names, where `lowered` is its lower-case form:
    /// one of `small`, `medium`, `large` and `capital`, else the message that
    /// quotes `text` as it was given.
    pub fn from_lowered(lowered: &String, text: &str) -> (parsed: Result<Size, String>)
        ensures
            size_result_view(parsed) == parsed_size(lowered@, text@),
    {
        if *lowered == String::from_str("small") {
            Ok(Size::Small)
        } else if *lowered == String::from_str("medium") {
            Ok(Size::Medium)
        } else if *lowered == String::from_str("large") {
            Ok(Size::Large)
        } else if *lowered == String::from_str("capital") {
            Ok(Size::Capital)
        } else {
            let mut message = String::from_str("Invalid size: '");
            message.append(text);
            message.append("'. Must be 'small,' 'medium,' or 'large', or 'capital'");
            Err(message)
        }
    }

    /// Parses a size, whatever the case of its letters.
    pub fn from_str(text: &str) -> (parsed: Result<Size, String>)
        ensures
            size_result_view(parsed) == parsed_size(lowercase(text@), text@),
    {
        let lowered = to_lowercase(text);
        Size::from_lowered(&lowered, text)
    }

    /// The name of the size, as it is displayed.
    pub fn to_string(&self) -> (name: String)
        ensures
            name@ == self.name(),
    {
        match self {
            Size::Small => String::from_str("Small"),
            Size::Medium => String::from_str("Medium"),
            Size::Large => String::from_str("Large"),
            Size::Capital => String::from_str("Capital"),
        }
    }
}

} // verus!
