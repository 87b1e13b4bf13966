//! The sparse patch of a ship record and the values it binds.

use vstd::prelude::*;

verus! {

/// `serde_json::Value`, carried through the library without being read.
#[verifier::external_type_specification]
#[verifier::external_body]
pub struct ExJsonValue(serde_json::Value);

/// How the store has to format a bound value.
#[derive(Debug, Clone, Copy, PartialEq, Eq)]
pub enum ValueKind {
    /// Plain text.
    Text,
    /// A structured document.
    Json,
}

/// A value bound to one placeholder of a statement.
#[derive(Debug, Clone, Copy, PartialEq)]
pub enum BindValue<'a> {
    /// Bound as text.
    Text(&'a str),
    /// Bound as a structured document.
    Json(&'a serde_json::Value),
}

/// What a bound value is, in contracts.
pub ghost enum BoundValue {
    Text(Seq<char>),
    Json(serde_json::Value),
}

impl<'a> View for BindValue<'a> {
    type V = BoundValue;

    open spec fn view(&self) -> BoundValue {
        match *self {
            BindValue::Text(s) => BoundValue::Text(s@),
            BindValue::Json(v) => BoundValue::Json(*v),
        }
    }
}

impl<'a> BindValue<'a> {
    /// The kind under which the store formats this value.
    pub fn kind(&self) -> (k: ValueKind)
        ensures
            k == self@.kind(),
    {
        match self {
            BindValue::Text(_) => ValueKind::Text,
            BindValue::Json(_) => ValueKind::Json,
        }
    }
}

impl BoundValue {
    /// The kind under which the store formats this value.
    pub open spec fn kind(self) -> ValueKind {
        match self {
            BoundValue::Text(_) => ValueKind::Text,
            BoundValue::Json(_) => ValueKind::Json,
        }
    }
}

/// A column that a patch may set: its name and the kind of its values.
#[derive(Debug, Clone, Copy, PartialEq, Eq)]
pub struct ColumnSpec {
    pub name: &'static str,
    pub kind: ValueKind,
}

/// One entry of a patch: a column and the value supplied for it, if any.
#[derive(Debug, Clone, Copy, PartialEq)]
pub struct Field<'a> {
    pub column: ColumnSpec,
    pub value: Option<BindValue<'a>>,
}

/// What a field is, in contracts.
pub ghost struct FieldView {
    pub column: Seq<char>,
    pub kind: ValueKind,
    pub value: Option<BoundValue>,
}

impl<'a> View for Field<'a> {
    type V = FieldView;

    open spec fn view(&self) -> FieldView {
        FieldView {
            column: self.column.name@,
            kind: self.column.kind,
            value: match self.value {
                Some(v) => Some(v@),
                None => None,
            },
        }
    }
}

/// The views of a sequence of fields, in the same order.
pub open spec fn field_views<'a>(fields: Seq<Field<'a>>) -> Seq<FieldView> {
    Seq::new(fields.len(), |i: int| fields[i]@)
}

/// The views of a sequence of bound values, in the same order.
pub open spec fn bound_values<'a>(values: Seq<BindValue<'a>>) -> Seq<BoundValue> {
    Seq::new(values.len(), |i: int| values[i]@)
}

/// The number of columns that a patch may set.
pub const COLUMN_COUNT: usize = 12;

/// The names of the columns that a patch may set, in their declared order.
pub open spec fn column_names() -> Seq<Seq<char>> {
    seq![
        "name"@,
        "info"@,
        "attributes"@,
        "fitting"@,
        "capacitor"@,
        "targeting"@,
        "shields"@,
        "armor"@,
        "hull"@,
        "inventory"@,
        "navigation"@,
        "variants"@,
    ]
}

/// The kind of the values of the column at `index`: the name is text, every
/// other column holds a structured document.
pub open spec fn column_kind(index: int) -> ValueKind {
    if index == 0 {
        ValueKind::Text
    } else {
        ValueKind::Json
    }
}

/// The columns that a patch may set, in their declared order.
pub fn columns() -> (cols: Vec<ColumnSpec>)
    ensures
        cols@.len() == COLUMN_COUNT,
        forall|i: int|
            0 <= i < COLUMN_COUNT ==> (#[trigger] cols@[i]).name@ == column_names()[i]
                && cols@[i].kind == column_kind(i),
{
    let mut cols: Vec<ColumnSpec> = Vec::new();
    cols.push(ColumnSpec { name: "name", kind: ValueKind::Text });
    cols.push(ColumnSpec { name: "info", kind: ValueKind::Json });
    cols.push(ColumnSpec { name: "attributes", kind: ValueKind::Json });
    cols.push(ColumnSpec { name: "fitting", kind: ValueKind::Json });
    cols.push(ColumnSpec { name: "capacitor", kind: ValueKind::Json });
    cols.push(ColumnSpec { name: "targeting", kind: ValueKind::Json });
    cols.push(ColumnSpec { name: "shields", kind: ValueKind::Json });
    cols.push(ColumnSpec { name: "armor", kind: ValueKind::Json });
    cols.push(ColumnSpec { name: "hull", kind: ValueKind::Json });
    cols.push(ColumnSpec { name: "inventory", kind: ValueKind::Json });
    cols.push(ColumnSpec { name: "navigation", kind: ValueKind::Json });
    cols.push(ColumnSpec { name: "variants", kind: ValueKind::Json });
    cols
}

/// A sparse projection of a ship record: each of the twelve columns is
/// either absent or supplied with a value. A value that is there counts as
/// supplied whatever it holds: a `null` document is bound like any other.
#[derive(Debug, Clone, PartialEq)]
pub struct ShipUpdate {
    pub name: Option<String>,
    pub info: Option<serde_json::Value>,
    pub attributes: Option<serde_json::Value>,
    pub fitting: Option<serde_json::Value>,
    pub capacitor: Option<serde_json::Value>,
    pub targeting: Option<serde_json::Value>,
    pub shields: Option<serde_json::Value>,
    pub armor: Option<serde_json::Value>,
    pub hull: Option<serde_json::Value>,
    pub inventory: Option<serde_json::Value>,
    pub navigation: Option<serde_json::Value>,
    pub variants: Option<serde_json::Value>,
}

/// The value of a text column of a patch, in contracts.
pub open spec fn text_value(value: Option<String>) -> Option<BoundValue> {
    match value {
        Some(s) => Some(BoundValue::Text(s@)),
        None => None,
    }
}

/// The value of a structured column of a patch, in contracts.
pub open spec fn json_value(value: Option<serde_json::Value>) -> Option<BoundValue> {
    match value {
        Some(v) => Some(BoundValue::Json(v)),
        None => None,
    }
}

impl ShipUpdate {
    /// The values of the twelve columns, in their declared order.
    pub open spec fn values(&self) -> Seq<Option<BoundValue>> {
        seq![
            text_value(self.name),
            json_value(self.info),
            json_value(self.attributes),
            json_value(self.fitting),
            json_value(self.capacitor),
            json_value(self.targeting),
            json_value(self.shields),
            json_value(self.armor),
            json_value(self.hull),
            json_value(self.inventory),
            json_value(self.navigation),
            json_value(self.variants),
        ]
    }
}

impl View for ShipUpdate {
    type V = Seq<FieldView>;

    /// The twelve fields in their declared order: a patch never names a
    /// column outside `column_names()`.
    open spec fn view(&self) -> Seq<FieldView> {
        Seq::new(
            COLUMN_COUNT as nat,
            |i: int|
                FieldView {
                    column: column_names()[i],
                    kind: column_kind(i),
                    value: self.values()[i],
                },
        )
    }
}

impl Default for ShipUpdate {
    /// A patch that supplies no column.
    fn default() -> (patch: ShipUpdate)
        ensures
            patch@ == ShipUpdate::empty_view(),
    {
        ShipUpdate::new()
    }
}

/// A patch holds the twelve columns under their own names and in their
/// declared order, and each value that it supplies has the kind of its
/// column: the name is text, every other value is a structured document.
pub proof fn lemma_patch_fields(patch: ShipUpdate)
    ensures
        patch@.len() == COLUMN_COUNT,
        forall|i: int|
            0 <= i < COLUMN_COUNT ==> {
                let field = #[trigger] patch@[i];
                &&& field.column == column_names()[i]
                &&& field.kind == column_kind(i)
                &&& field.value == patch.values()[i]
                &&& field.value matches Some(v) ==> v.kind() == field.kind
            },
{
}

/// The twelve column names differ from each other.
pub proof fn lemma_column_names_distinct()
    ensures
        forall|a: int, b: int|
            0 <= a < b < COLUMN_COUNT ==> (#[trigger] column_names()[a]) != (
            #[trigger] column_names()[b]),
{
    reveal_strlit("name");
    reveal_strlit("info");
    reveal_strlit("attributes");
    reveal_strlit("fitting");
    reveal_strlit("capacitor");
    reveal_strlit("targeting");
    reveal_strlit("shields");
    reveal_strlit("armor");
    reveal_strlit("hull");
    reveal_strlit("inventory");
    reveal_strlit("navigation");
    reveal_strlit("variants");
    let names = column_names();
    assert forall|a: int, b: int| 0 <= a < b < COLUMN_COUNT implies (#[trigger] names[a]) != (
    #[trigger] names[b]) by {
        assert(names[a].len() != names[b].len() || names[a][0] != names[b][0]);
    }
}

/// None of the twelve column names holds a `$`.
pub proof fn lemma_column_names_hold_no_placeholder()
    ensures
        forall|i: int| 0 <= i < COLUMN_COUNT ==> !(#[trigger] column_names()[i]).contains('$'),
{
    reveal_strlit("name");
    reveal_strlit("info");
    reveal_strlit("attributes");
    reveal_strlit("fitting");
    reveal_strlit("capacitor");
    reveal_strlit("targeting");
    reveal_strlit("shields");
    reveal_strlit("armor");
    reveal_strlit("hull");
    reveal_strlit("inventory");
    reveal_strlit("navigation");
    reveal_strlit("variants");
}

/// The field of a structured column.
fn json_field<'a>(column: ColumnSpec, value: &'a Option<serde_json::Value>) -> (f: Field<'a>)
    ensures
        f.column == column,
        f@.value == json_value(*value),
{
    match value {
        Some(v) => Field { column, value: Some(BindValue::Json(v)) },
        None => Field { column, value: None },
    }
}

/// The field of a text column.
fn text_field<'a>(column: ColumnSpec, value: &'a Option<String>) -> (f: Field<'a>)
    ensures
        f.column == column,
        f@.value == text_value(*value),
{
    match value {
        Some(s) => Field { column, value: Some(BindValue::Text(s.as_str())) },
        None => Field { column, value: None },
    }
}

impl ShipUpdate {
    /// The patch that supplies no column, in contracts.
    pub open spec fn empty_view() -> Seq<FieldView> {
        Seq::new(
            COLUMN_COUNT as nat,
            |i: int| FieldView { column: column_names()[i], kind: column_kind(i), value: None },
        )
    }

    /// A patch that supplies no column.
    pub fn new() -> (patch: ShipUpdate)
        ensures
            patch@ == ShipUpdate::empty_view(),
            patch.name is None,
            patch.info is None,
            patch.attributes is None,
            patch.fitting is None,
            patch.capacitor is None,
            patch.targeting is None,
            patch.shields is None,
            patch.armor is None,
            patch.hull is None,
            patch.inventory is None,
            patch.navigation is None,
            patch.variants is None,
    {
        let patch = ShipUpdate {
            name: None,
            info: None,
            attributes: None,
            fitting: None,
            capacitor: None,
            targeting: None,
            shields: None,
            armor: None,
            hull: None,
            inventory: None,
            navigation: None,
            variants: None,
        };
        assert(patch@ =~= ShipUpdate::empty_view());
        patch
    }

    /// The patch as one ordered list of fields: the twelve columns in their
    /// declared order, each with the value supplied for it, if any.
    pub fn fields(&self) -> (fields: Vec<Field<'_>>)
        ensures
            field_views(fields@) == self@,
    {
        let cols = columns();
        let mut fields: Vec<Field<'_>> = Vec::new();
        fields.push(text_field(cols[0], &self.name));
        fields.push(json_field(cols[1], &self.info));
        fields.push(json_field(cols[2], &self.attributes));
        fields.push(json_field(cols[3], &self.fitting));
        fields.push(json_field(cols[4], &self.capacitor));
        fields.push(json_field(cols[5], &self.targeting));
        fields.push(json_field(cols[6], &self.shields));
        fields.push(json_field(cols[7], &self.armor));
        fields.push(json_field(cols[8], &self.hull));
        fields.push(json_field(cols[9], &self.inventory));
        fields.push(json_field(cols[10], &self.navigation));
        fields.push(json_field(cols[11], &self.variants));
        assert(field_views(fields@) =~= self@);
        fields
    }
}

} // verus!
