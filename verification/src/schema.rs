//! Schema translation between the two representations of a requested
//! input schema: the native form a worker builds (typed variants with
//! their constraints) and the wire form carried by an elicitation
//! request (one record with a `kind` tag and optional fields).
//!
//! Every translation has a mathematical model: each executable type
//! maps to a model built from sequences, and the translation functions
//! are specified as total functions on those models. The round-trip
//! law is stated and proved on the models.

use vstd::prelude::*;

use crate::text::{clone_opt_string, clone_vec_string, str_eq};

verus! {

/// Formats a string-typed field may demand.
#[derive(Clone, Copy, Debug, PartialEq, Eq, Structural)]
pub enum StringFormat {
    Email,
    Uri,
    Date,
    DateTime,
}

/// A property of a requested input schema, in the native form a
/// worker builds: one variant per field kind, each carrying its
/// type-specific constraints.
#[derive(Debug, PartialEq)]
pub enum PrimitiveSchema {
    /// A free-form string field, wire kind `string`.
    Str {
        title: Option<String>,
        description: Option<String>,
        min_length: Option<u32>,
        max_length: Option<u32>,
        format: Option<StringFormat>,
    },
    /// A numeric field, wire kind `number`.
    Number {
        title: Option<String>,
        description: Option<String>,
        minimum: Option<i64>,
        maximum: Option<i64>,
    },
    /// An integral field, wire kind `integer`.
    Integer {
        title: Option<String>,
        description: Option<String>,
        minimum: Option<i64>,
        maximum: Option<i64>,
    },
    /// A yes/no field, wire kind `boolean`.
    Boolean { title: Option<String>, description: Option<String>, default: Option<bool> },
    /// A choice among fixed values, wire kind `string` with the values
    /// listed; display names are optional.
    Choice {
        title: Option<String>,
        description: Option<String>,
        enum_values: Vec<String>,
        enum_names: Option<Vec<String>>,
    },
}

/// A property in the wire form: one record, tagged by `kind`, with
/// every optional field of every kind.
#[derive(Debug, PartialEq)]
pub struct SchemaProperty {
    pub kind: String,
    pub title: Option<String>,
    pub description: Option<String>,
    pub min_length: Option<i32>,
    pub max_length: Option<i32>,
    pub format: Option<String>,
    pub minimum: Option<i64>,
    pub maximum: Option<i64>,
    pub default_value: Option<String>,
    pub enum_values: Vec<String>,
    pub enum_names: Vec<String>,
}

/// Model of a native property: the executable fields with every
/// string taken to its character sequence.
#[verifier::ext_equal]
pub enum PropModel {
    Str {
        title: Option<Seq<char>>,
        description: Option<Seq<char>>,
        min_length: Option<u32>,
        max_length: Option<u32>,
        format: Option<StringFormat>,
    },
    Number {
        title: Option<Seq<char>>,
        description: Option<Seq<char>>,
        minimum: Option<i64>,
        maximum: Option<i64>,
    },
    Integer {
        title: Option<Seq<char>>,
        description: Option<Seq<char>>,
        minimum: Option<i64>,
        maximum: Option<i64>,
    },
    Boolean { title: Option<Seq<char>>, description: Option<Seq<char>>, default: Option<bool> },
    Choice {
        title: Option<Seq<char>>,
        description: Option<Seq<char>>,
        enum_values: Seq<Seq<char>>,
        enum_names: Option<Seq<Seq<char>>>,
    },
}

/// Model of a wire property.
#[verifier::ext_equal]
pub struct WirePropModel {
    pub kind: Seq<char>,
    pub title: Option<Seq<char>>,
    pub description: Option<Seq<char>>,
    pub min_length: Option<i32>,
    pub max_length: Option<i32>,
    pub format: Option<Seq<char>>,
    pub minimum: Option<i64>,
    pub maximum: Option<i64>,
    pub default_value: Option<Seq<char>>,
    pub enum_values: Seq<Seq<char>>,
    pub enum_names: Seq<Seq<char>>,
}

/// Why a wire property could not be read back into the native form.
#[derive(Clone, Copy, Debug, PartialEq, Eq, Structural)]
pub enum SchemaError {
    /// The `kind` tag names no supported field kind.
    UnsupportedKind,
    /// A string field carries a format no worker defines.
    UnknownFormat,
    /// A length bound is negative.
    InvalidLength,
    /// A boolean default is neither `true` nor `false`.
    InvalidDefault,
}

impl PrimitiveSchema {
    /// Model of this native property.
    pub open spec fn model(&self) -> PropModel {
        match self {
            PrimitiveSchema::Str { title, description, min_length, max_length, format } => {
                PropModel::Str {
                    title: title.deep_view(),
                    description: description.deep_view(),
                    min_length: *min_length,
                    max_length: *max_length,
                    format: *format,
                }
            },
            PrimitiveSchema::Number { title, description, minimum, maximum } => {
                PropModel::Number {
                    title: title.deep_view(),
                    description: description.deep_view(),
                    minimum: *minimum,
                    maximum: *maximum,
                }
            },
            PrimitiveSchema::Integer { title, description, minimum, maximum } => {
                PropModel::Integer {
                    title: title.deep_view(),
                    description: description.deep_view(),
                    minimum: *minimum,
                    maximum: *maximum,
                }
            },
            PrimitiveSchema::Boolean { title, description, default } => {
                PropModel::Boolean {
                    title: title.deep_view(),
                    description: description.deep_view(),
                    default: *default,
                }
            },
            PrimitiveSchema::Choice { title, description, enum_values, enum_names } => {
                PropModel::Choice {
                    title: title.deep_view(),
                    description: description.deep_view(),
                    enum_values: enum_values.deep_view(),
                    enum_names: enum_names.deep_view(),
                }
            },
        }
    }
}

impl SchemaProperty {
    /// Model of this wire property.
    pub open spec fn model(&self) -> WirePropModel {
        WirePropModel {
            kind: self.kind@,
            title: self.title.deep_view(),
            description: self.description.deep_view(),
            min_length: self.min_length,
            max_length: self.max_length,
            format: self.format.deep_view(),
            minimum: self.minimum,
            maximum: self.maximum,
            default_value: self.default_value.deep_view(),
            enum_values: self.enum_values.deep_view(),
            enum_names: self.enum_names.deep_view(),
        }
    }
}

/// The wire label of a format.
pub open spec fn format_label(f: StringFormat) -> Seq<char> {
    match f {
        StringFormat::Email => "email"@,
        StringFormat::Uri => "uri"@,
        StringFormat::Date => "date"@,
        StringFormat::DateTime => "date-time"@,
    }
}

/// The format a wire label names, if any.
pub open spec fn parse_format_model(s: Seq<char>) -> Option<StringFormat> {
    if s == "email"@ {
        Some(StringFormat::Email)
    } else if s == "uri"@ {
        Some(StringFormat::Uri)
    } else if s == "date"@ {
        Some(StringFormat::Date)
    } else if s == "date-time"@ {
        Some(StringFormat::DateTime)
    } else {
        None
    }
}

/// The wire label of a boolean default.
pub open spec fn bool_label(b: bool) -> Seq<char> {
    if b {
        "true"@
    } else {
        "false"@
    }
}

/// The boolean a wire label names, if any.
pub open spec fn parse_bool_model(s: Seq<char>) -> Option<bool> {
    if s == "true"@ {
        Some(true)
    } else if s == "false"@ {
        Some(false)
    } else {
        None
    }
}

/// A native property the translation accepts: length bounds small
/// enough for the wire's signed field, at least one value in a choice,
/// and display names, when given, not an empty list (an empty list is
/// not carried on the wire, so it could not be read back).
pub open spec fn prop_wf(m: PropModel) -> bool {
    match m {
        PropModel::Str { min_length, max_length, .. } => {
            &&& (min_length matches Some(v) ==> v <= 0x7fff_ffff)
            &&& (max_length matches Some(v) ==> v <= 0x7fff_ffff)
        },
        PropModel::Choice { enum_values, enum_names, .. } => {
            &&& enum_values.len() > 0
            &&& (enum_names matches Some(n) ==> n.len() > 0)
        },
        _ => true,
    }
}

/// An empty wire property: kind and every optional field unset.
pub open spec fn wire_defaults(kind: Seq<char>) -> WirePropModel {
    WirePropModel {
        kind: kind,
        title: None,
        description: None,
        min_length: None,
        max_length: None,
        format: None,
        minimum: None,
        maximum: None,
        default_value: None,
        enum_values: Seq::empty(),
        enum_names: Seq::empty(),
    }
}

/// Translation of a native property to the wire: each kind carries
/// exactly the fields of its row, everything else left unset.
pub open spec fn encode_prop(m: PropModel) -> WirePropModel {
    match m {
        PropModel::Str { title, description, min_length, max_length, format } => {
            WirePropModel {
                title: title,
                description: description,
                min_length: match min_length {
                    Some(v) => Some(v as i32),
                    None => None,
                },
                max_length: match max_length {
                    Some(v) => Some(v as i32),
                    None => None,
                },
                format: match format {
                    Some(f) => Some(format_label(f)),
                    None => None,
                },
                ..wire_defaults("string"@)
            }
        },
        PropModel::Number { title, description, minimum, maximum } => {
            WirePropModel {
                title: title,
                description: description,
                minimum: minimum,
                maximum: maximum,
                ..wire_defaults("number"@)
            }
        },
        PropModel::Integer { title, description, minimum, maximum } => {
            WirePropModel {
                title: title,
                description: description,
                minimum: minimum,
                maximum: maximum,
                ..wire_defaults("integer"@)
            }
        },
        PropModel::Boolean { title, description, default } => {
            WirePropModel {
                title: title,
                description: description,
                default_value: match default {
                    Some(b) => Some(bool_label(b)),
                    None => None,
                },
                ..wire_defaults("boolean"@)
            }
        },
        PropModel::Choice { title, description, enum_values, enum_names } => {
            WirePropModel {
                title: title,
                description: description,
                enum_values: enum_values,
                enum_names: match enum_names {
                    Some(n) => n,
                    None => Seq::empty(),
                },
                ..wire_defaults("string"@)
            }
        },
    }
}

/// Translation of a wire property back to the native form. A `string`
/// kind with listed values is a choice; an unknown kind, an unknown
/// format, a negative length bound or an unreadable boolean default
/// fails rather than being silently dropped.
pub open spec fn parse_prop(w: WirePropModel) -> Result<PropModel, SchemaError> {
    if w.kind == "string"@ {
        if w.enum_values.len() > 0 {
            Ok(
                PropModel::Choice {
                    title: w.title,
                    description: w.description,
                    enum_values: w.enum_values,
                    enum_names: if w.enum_names.len() == 0 {
                        None
                    } else {
                        Some(w.enum_names)
                    },
                },
            )
        } else if w.format matches Some(s) && parse_format_model(s) is None {
            Err(SchemaError::UnknownFormat)
        } else if w.min_length matches Some(v) && v < 0 {
            Err(SchemaError::InvalidLength)
        } else if w.max_length matches Some(v) && v < 0 {
            Err(SchemaError::InvalidLength)
        } else {
            Ok(
                PropModel::Str {
                    title: w.title,
                    description: w.description,
                    min_length: match w.min_length {
                        Some(v) => Some(v as u32),
                        None => None,
                    },
                    max_length: match w.max_length {
                        Some(v) => Some(v as u32),
                        None => None,
                    },
                    format: match w.format {
                        Some(s) => parse_format_model(s),
                        None => None,
                    },
                },
            )
        }
    } else if w.kind == "number"@ {
        Ok(
            PropModel::Number {
                title: w.title,
                description: w.description,
                minimum: w.minimum,
                maximum: w.maximum,
            },
        )
    } else if w.kind == "integer"@ {
        Ok(
            PropModel::Integer {
                title: w.title,
                description: w.description,
                minimum: w.minimum,
                maximum: w.maximum,
            },
        )
    } else if w.kind == "boolean"@ {
        if w.default_value matches Some(s) && parse_bool_model(s) is None {
            Err(SchemaError::InvalidDefault)
        } else {
            Ok(
                PropModel::Boolean {
                    title: w.title,
                    description: w.description,
                    default: match w.default_value {
                        Some(s) => parse_bool_model(s),
                        None => None,
                    },
                },
            )
        }
    } else {
        Err(SchemaError::UnsupportedKind)
    }
}

/// Law (round trip): translating a well-formed native property to the
/// wire and back restores it exactly — kind, title, description and
/// every type-specific constraint.
pub proof fn lemma_prop_round_trip(m: PropModel)
    requires
        prop_wf(m),
    ensures
        parse_prop(encode_prop(m)) == Ok::<PropModel, SchemaError>(m),
{
    lemma_kind_labels_distinct();
    match m {
        PropModel::Str { format, .. } => {
            match format {
                Some(f) => {
                    lemma_format_round_trip(f);
                },
                None => {},
            }
        },
        PropModel::Boolean { default, .. } => {
            reveal_strlit("true");
            reveal_strlit("false");
            match default {
                Some(b) => {
                    assert(("true"@).len() == 4);
                    assert(("false"@).len() == 5);
                },
                None => {},
            }
        },
        _ => {},
    }
}

/// The four kind labels are pairwise distinct.
proof fn lemma_kind_labels_distinct()
    ensures
        "string"@ != "number"@,
        "string"@ != "integer"@,
        "string"@ != "boolean"@,
        "number"@ != "integer"@,
        "number"@ != "boolean"@,
        "integer"@ != "boolean"@,
{
    reveal_strlit("string");
    reveal_strlit("number");
    reveal_strlit("integer");
    reveal_strlit("boolean");
    assert(("string"@).len() == 6);
    assert(("number"@).len() == 6);
    assert(("integer"@).len() == 7);
    assert(("boolean"@).len() == 7);
    assert(("string"@)[0] == 's' && ("number"@)[0] == 'n');
    assert(("integer"@)[0] == 'i' && ("boolean"@)[0] == 'b');
}

/// Each format label reads back as its own format.
pub proof fn lemma_format_round_trip(f: StringFormat)
    ensures
        parse_format_model(format_label(f)) == Some(f),
{
    reveal_strlit("email");
    reveal_strlit("uri");
    reveal_strlit("date");
    reveal_strlit("date-time");
    assert(("email"@).len() == 5);
    assert(("uri"@).len() == 3);
    assert(("date"@).len() == 4);
    assert(("date-time"@).len() == 9);
    match f {
        StringFormat::Email => {},
        StringFormat::Uri => {},
        StringFormat::Date => {},
        StringFormat::DateTime => {},
    }
}

/// The wire label of a format, as a string.
pub fn format_to_string(format: &StringFormat) -> (r: String)
    ensures
        r@ == format_label(*format),
{
    match format {
        StringFormat::Email => "email".to_owned(),
        StringFormat::Uri => "uri".to_owned(),
        StringFormat::Date => "date".to_owned(),
        StringFormat::DateTime => "date-time".to_owned(),
    }
}

/// The format a wire label names, if any.
pub fn parse_format(s: &str) -> (r: Option<StringFormat>)
    ensures
        r == parse_format_model(s@),
{
    if str_eq(s, "email") {
        Some(StringFormat::Email)
    } else if str_eq(s, "uri") {
        Some(StringFormat::Uri)
    } else if str_eq(s, "date") {
        Some(StringFormat::Date)
    } else if str_eq(s, "date-time") {
        Some(StringFormat::DateTime)
    } else {
        None
    }
}

/// The wire label of a boolean default.
pub fn bool_to_string(b: bool) -> (r: String)
    ensures
        r@ == bool_label(b),
{
    if b {
        "true".to_owned()
    } else {
        "false".to_owned()
    }
}

/// The boolean a wire label names, if any.
pub fn parse_bool(s: &str) -> (r: Option<bool>)
    ensures
        r == parse_bool_model(s@),
{
    if str_eq(s, "true") {
        Some(true)
    } else if str_eq(s, "false") {
        Some(false)
    } else {
        None
    }
}

/// An empty wire property with the given kind tag.
fn wire_property(kind: String) -> (r: SchemaProperty)
    ensures
        r.model() == wire_defaults(kind@),
{
    let r = SchemaProperty {
        kind,
        title: None,
        description: None,
        min_length: None,
        max_length: None,
        format: None,
        minimum: None,
        maximum: None,
        default_value: None,
        enum_values: Vec::new(),
        enum_names: Vec::new(),
    };
    proof {
        assert(r.model().enum_values =~= Seq::<Seq<char>>::empty());
        assert(r.model().enum_names =~= Seq::<Seq<char>>::empty());
    }
    r
}

/// Translate one native property to the wire form.
pub fn convert_property(p: &PrimitiveSchema) -> (r: SchemaProperty)
    requires
        prop_wf(p.model()),
    ensures
        r.model() == encode_prop(p.model()),
{
    match p {
        PrimitiveSchema::Str { title, description, min_length, max_length, format } => {
            let mut r = wire_property("string".to_owned());
            r.title = clone_opt_string(title);
            r.description = clone_opt_string(description);
            r.min_length = match min_length {
                Some(v) => Some(*v as i32),
                None => None,
            };
            r.max_length = match max_length {
                Some(v) => Some(*v as i32),
                None => None,
            };
            r.format = match format {
                Some(f) => Some(format_to_string(f)),
                None => None,
            };
            r
        },
        PrimitiveSchema::Number { title, description, minimum, maximum } => {
            let mut r = wire_property("number".to_owned());
            r.title = clone_opt_string(title);
            r.description = clone_opt_string(description);
            r.minimum = *minimum;
            r.maximum = *maximum;
            r
        },
        PrimitiveSchema::Integer { title, description, minimum, maximum } => {
            let mut r = wire_property("integer".to_owned());
            r.title = clone_opt_string(title);
            r.description = clone_opt_string(description);
            r.minimum = *minimum;
            r.maximum = *maximum;
            r
        },
        PrimitiveSchema::Boolean { title, description, default } => {
            let mut r = wire_property("boolean".to_owned());
            r.title = clone_opt_string(title);
            r.description = clone_opt_string(description);
            r.default_value = match default {
                Some(b) => Some(bool_to_string(*b)),
                None => None,
            };
            r
        },
        PrimitiveSchema::Choice { title, description, enum_values, enum_names } => {
            let mut r = wire_property("string".to_owned());
            r.title = clone_opt_string(title);
            r.description = clone_opt_string(description);
            r.enum_values = clone_vec_string(enum_values);
            r.enum_names = match enum_names {
                Some(n) => clone_vec_string(n),
                None => Vec::new(),
            };
            proof {
                assert(r.model().enum_names =~= encode_prop(p.model()).enum_names);
            }
            r
        },
    }
}

/// Translate one wire property back to the native form; fails exactly
/// where the model translation does.
pub fn parse_property(w: &SchemaProperty) -> (r: Result<PrimitiveSchema, SchemaError>)
    ensures
        match parse_prop(w.model()) {
            Ok(m) => r matches Ok(p) && p.model() == m,
            Err(e) => r == Err::<PrimitiveSchema, SchemaError>(e),
        },
{
    if str_eq(self_kind(w), "string") {
        if w.enum_values.len() > 0 {
            let enum_names = if w.enum_names.len() == 0 {
                None
            } else {
                Some(clone_vec_string(&w.enum_names))
            };
            Ok(
                PrimitiveSchema::Choice {
                    title: clone_opt_string(&w.title),
                    description: clone_opt_string(&w.description),
                    enum_values: clone_vec_string(&w.enum_values),
                    enum_names,
                },
            )
        } else {
            let format = match &w.format {
                Some(s) => {
                    match parse_format(s.as_str()) {
                        Some(f) => Some(f),
                        None => {
                            return Err(SchemaError::UnknownFormat);
                        },
                    }
                },
                None => None,
            };
            let min_length = match w.min_length {
                Some(v) => {
                    if v < 0 {
                        return Err(SchemaError::InvalidLength);
                    }
                    Some(v as u32)
                },
                None => None,
            };
            let max_length = match w.max_length {
                Some(v) => {
                    if v < 0 {
                        return Err(SchemaError::InvalidLength);
                    }
                    Some(v as u32)
                },
                None => None,
            };
            Ok(
                PrimitiveSchema::Str {
                    title: clone_opt_string(&w.title),
                    description: clone_opt_string(&w.description),
                    min_length,
                    max_length,
                    format,
                },
            )
        }
    } else if str_eq(self_kind(w), "number") {
        Ok(
            PrimitiveSchema::Number {
                title: clone_opt_string(&w.title),
                description: clone_opt_string(&w.description),
                minimum: w.minimum,
                maximum: w.maximum,
            },
        )
    } else if str_eq(self_kind(w), "integer") {
        Ok(
            PrimitiveSchema::Integer {
                title: clone_opt_string(&w.title),
                description: clone_opt_string(&w.description),
                minimum: w.minimum,
                maximum: w.maximum,
            },
        )
    } else if str_eq(self_kind(w), "boolean") {
        let default = match &w.default_value {
            Some(s) => {
                match parse_bool(s.as_str()) {
                    Some(b) => Some(b),
                    None => {
                        return Err(SchemaError::InvalidDefault);
                    },
                }
            },
            None => None,
        };
        Ok(
            PrimitiveSchema::Boolean {
                title: clone_opt_string(&w.title),
                description: clone_opt_string(&w.description),
                default,
            },
        )
    } else {
        Err(SchemaError::UnsupportedKind)
    }
}

/// The kind tag of a wire property, as a slice.
fn self_kind(w: &SchemaProperty) -> (r: &str)
    ensures
        r@ == w.model().kind,
{
    w.kind.as_str()
}

/// A requested input schema in the native form: named properties, in
/// order, and the names of the required ones.
#[derive(Debug, PartialEq)]
pub struct ElicitationSchema {
    pub properties: Vec<(String, PrimitiveSchema)>,
    pub required: Option<Vec<String>>,
}

/// A requested input schema in the wire form.
#[derive(Debug, PartialEq)]
pub struct RequestedSchema {
    pub properties: Vec<(String, SchemaProperty)>,
    pub required: Vec<String>,
}

/// Model of a native schema.
#[verifier::ext_equal]
pub struct NativeSchemaModel {
    pub properties: Seq<(Seq<char>, PropModel)>,
    pub required: Option<Seq<Seq<char>>>,
}

/// Model of a wire schema.
#[verifier::ext_equal]
pub struct WireSchemaModel {
    pub properties: Seq<(Seq<char>, WirePropModel)>,
    pub required: Seq<Seq<char>>,
}

impl ElicitationSchema {
    /// Model of this native schema.
    pub open spec fn model(&self) -> NativeSchemaModel {
        NativeSchemaModel {
            properties: Seq::new(
                self.properties@.len(),
                |i: int| (self.properties@[i].0@, self.properties@[i].1.model()),
            ),
            required: self.required.deep_view(),
        }
    }
}

impl RequestedSchema {
    /// Model of this wire schema.
    pub open spec fn model(&self) -> WireSchemaModel {
        WireSchemaModel {
            properties: Seq::new(
                self.properties@.len(),
                |i: int| (self.properties@[i].0@, self.properties@[i].1.model()),
            ),
            required: self.required.deep_view(),
        }
    }
}

/// A native schema the translation accepts: every property well formed
/// and, when a required list is given, at least one name in it (an
/// empty list is not carried on the wire).
pub open spec fn schema_wf(m: NativeSchemaModel) -> bool {
    &&& forall|i: int|
        0 <= i < m.properties.len() ==> prop_wf(#[trigger] m.properties[i].1)
    &&& (m.required matches Some(r) ==> r.len() > 0)
}

/// Translation of a native schema to the wire: each property encoded
/// in place, an absent required list carried as an empty one.
pub open spec fn encode_schema(m: NativeSchemaModel) -> WireSchemaModel {
    WireSchemaModel {
        properties: m.properties.map_values(
            |p: (Seq<char>, PropModel)| (p.0, encode_prop(p.1)),
        ),
        required: match m.required {
            Some(r) => r,
            None => Seq::empty(),
        },
    }
}

/// Translation of a sequence of named wire properties back to the
/// native form: every property in order, or the first failure.
pub open spec fn parse_props_model(ps: Seq<(Seq<char>, WirePropModel)>) -> Result<
    Seq<(Seq<char>, PropModel)>,
    SchemaError,
>
    decreases ps.len(),
{
    if ps.len() == 0 {
        Ok(Seq::empty())
    } else {
        match parse_prop(ps.first().1) {
            Ok(m) => match parse_props_model(ps.drop_first()) {
                Ok(rest) => Ok(seq![(ps.first().0, m)] + rest),
                Err(e) => Err(e),
            },
            Err(e) => Err(e),
        }
    }
}

/// Translation of a wire schema back to the native form: every
/// property translated in place, an empty required list read back as
/// an absent one.
pub open spec fn parse_schema_model(w: WireSchemaModel) -> Result<NativeSchemaModel, SchemaError> {
    match parse_props_model(w.properties) {
        Ok(props) => Ok(
            NativeSchemaModel {
                properties: props,
                required: if w.required.len() == 0 {
                    None
                } else {
                    Some(w.required)
                },
            },
        ),
        Err(e) => Err(e),
    }
}

/// Properties that translate pointwise translate as a sequence.
proof fn lemma_parse_props_pointwise(
    ps: Seq<(Seq<char>, WirePropModel)>,
    outs: Seq<(Seq<char>, PropModel)>,
)
    requires
        outs.len() == ps.len(),
        forall|j: int|
            0 <= j < ps.len() ==> (#[trigger] outs[j]).0 == ps[j].0 && parse_prop(ps[j].1)
                == Ok::<PropModel, SchemaError>(outs[j].1),
    ensures
        parse_props_model(ps) == Ok::<Seq<(Seq<char>, PropModel)>, SchemaError>(outs),
    decreases ps.len(),
{
    if ps.len() == 0 {
        assert(outs =~= Seq::<(Seq<char>, PropModel)>::empty());
    } else {
        lemma_parse_props_pointwise(ps.drop_first(), outs.drop_first());
        assert(outs.first() =~= (ps.first().0, outs.first().1));
        assert(seq![(ps.first().0, outs.first().1)] + outs.drop_first() =~= outs);
    }
}

/// The first property that fails decides the sequence's failure.
proof fn lemma_parse_props_first_err(ps: Seq<(Seq<char>, WirePropModel)>, i: int, e: SchemaError)
    requires
        0 <= i < ps.len(),
        forall|j: int| 0 <= j < i ==> parse_prop((#[trigger] ps[j]).1) is Ok,
        parse_prop(ps[i].1) == Err::<PropModel, SchemaError>(e),
    ensures
        parse_props_model(ps) == Err::<Seq<(Seq<char>, PropModel)>, SchemaError>(e),
    decreases ps.len(),
{
    if i > 0 {
        assert(parse_prop(ps[0].1) is Ok);
        lemma_parse_props_first_err(ps.drop_first(), i - 1, e);
    }
}

/// Law (round trip at the schema level): encoding a well-formed native
/// schema to the wire and parsing it back restores it exactly — every
/// property's kind and constraints, the order, and the required list.
pub proof fn lemma_schema_round_trip(m: NativeSchemaModel)
    requires
        schema_wf(m),
    ensures
        parse_schema_model(encode_schema(m)) == Ok::<NativeSchemaModel, SchemaError>(m),
{
    let ps = encode_schema(m).properties;
    assert forall|j: int|
        0 <= j < ps.len() implies (#[trigger] m.properties[j]).0 == ps[j].0 && parse_prop(ps[j].1)
        == Ok::<PropModel, SchemaError>(m.properties[j].1) by {
        assert(ps[j] == (m.properties[j].0, encode_prop(m.properties[j].1)));
        lemma_prop_round_trip(m.properties[j].1);
    }
    lemma_parse_props_pointwise(ps, m.properties);
    assert(parse_schema_model(encode_schema(m))->Ok_0 =~~= m);
}

/// Translate a native schema to the wire form.
pub fn convert_schema(schema: &ElicitationSchema) -> (r: RequestedSchema)
    requires
        schema_wf(schema.model()),
    ensures
        r.model() == encode_schema(schema.model()),
{
    let mut properties: Vec<(String, SchemaProperty)> = Vec::new();
    let mut i: usize = 0;
    while i < schema.properties.len()
        invariant
            schema_wf(schema.model()),
            i <= schema.properties.len(),
            properties@.len() == i,
            forall|j: int|
                0 <= j < i ==> #[trigger] properties@[j].0@ == schema.model().properties[j].0
                    && properties@[j].1.model() == encode_prop(schema.model().properties[j].1),
        decreases schema.properties.len() - i,
    {
        let (name, prop) = &schema.properties[i];
        assert(schema.model().properties[i as int].1 == prop.model());
        let wire = convert_property(prop);
        properties.push((name.clone(), wire));
        i += 1;
    }
    let required = match &schema.required {
        Some(r) => clone_vec_string(r),
        None => Vec::new(),
    };
    let r = RequestedSchema { properties, required };
    proof {
        assert(r.model().properties =~= encode_schema(schema.model()).properties);
        assert(r.model().required =~= encode_schema(schema.model()).required);
    }
    r
}

/// Translate a wire schema back to the native form. Succeeds exactly
/// when every property translates; fails with the first property's
/// error otherwise. An empty required list reads back as an absent
/// one.
pub fn parse_schema(w: &RequestedSchema) -> (r: Result<ElicitationSchema, SchemaError>)
    ensures
        match parse_schema_model(w.model()) {
            Ok(m) => (r matches Ok(s) && s.model() == m),
            Err(e) => r == Err::<ElicitationSchema, SchemaError>(e),
        },
{
    let mut properties: Vec<(String, PrimitiveSchema)> = Vec::new();
    let mut i: usize = 0;
    while i < w.properties.len()
        invariant
            i <= w.properties.len(),
            properties@.len() == i,
            forall|j: int|
                0 <= j < i ==> #[trigger] properties@[j].0@ == w.model().properties[j].0
                    && parse_prop(w.model().properties[j].1) == Ok::<PropModel, SchemaError>(
                    properties@[j].1.model(),
                ),
        decreases w.properties.len() - i,
    {
        let (name, prop) = &w.properties[i];
        assert(w.model().properties[i as int].1 == prop.model());
        match parse_property(prop) {
            Ok(native) => {
                properties.push((name.clone(), native));
            },
            Err(e) => {
                proof {
                    assert forall|j: int|
                        0 <= j < i implies parse_prop(
                        (#[trigger] w.model().properties[j]).1,
                    ) is Ok by {
                        assert(properties@[j].0@ == w.model().properties[j].0);
                        assert(parse_prop(w.model().properties[j].1) == Ok::<
                            PropModel,
                            SchemaError,
                        >(properties@[j].1.model()));
                    }
                    lemma_parse_props_first_err(w.model().properties, i as int, e);
                }
                return Err(e);
            },
        }
        i += 1;
    }
    let required = if w.required.len() == 0 {
        None
    } else {
        Some(clone_vec_string(&w.required))
    };
    let r = ElicitationSchema { properties, required };
    proof {
        let outs = r.model().properties;
        assert(outs.len() == w.model().properties.len());
        assert forall|j: int|
            0 <= j < w.model().properties.len() implies (#[trigger] outs[j]).0
            == w.model().properties[j].0 && parse_prop(w.model().properties[j].1) == Ok::<
            PropModel,
            SchemaError,
        >(outs[j].1) by {
            assert(properties@[j].0@ == w.model().properties[j].0);
        }
        lemma_parse_props_pointwise(w.model().properties, outs);
        assert(r.model() =~~= parse_schema_model(w.model())->Ok_0);
    }
    Ok(r)
}

/// Model of the schema asking the user for a file-access permission
/// choice: one required enumeration field named `choice` with the
/// values `always`, `yes` and `no` and their display names.
pub open spec fn permission_schema_model() -> NativeSchemaModel {
    NativeSchemaModel {
        properties: seq![
            (
                "choice"@,
                PropModel::Choice {
                    title: None,
                    description: Some("Select your permission choice"@),
                    enum_values: seq!["always"@, "yes"@, "no"@],
                    enum_names: Some(
                        seq![
                            "Always (remember this choice)"@,
                            "Yes (allow this time)"@,
                            "No (deny access)"@,
                        ],
                    ),
                },
            ),
        ],
        required: Some(seq!["choice"@]),
    }
}

/// The schema asking the user for a file-access permission choice.
pub fn create_permission_schema() -> (r: ElicitationSchema)
    ensures
        r.model() == permission_schema_model(),
        schema_wf(r.model()),
{
    let mut enum_values: Vec<String> = Vec::new();
    enum_values.push("always".to_owned());
    enum_values.push("yes".to_owned());
    enum_values.push("no".to_owned());
    let mut enum_names: Vec<String> = Vec::new();
    enum_names.push("Always (remember this choice)".to_owned());
    enum_names.push("Yes (allow this time)".to_owned());
    enum_names.push("No (deny access)".to_owned());
    let prop = PrimitiveSchema::Choice {
        title: None,
        description: Some("Select your permission choice".to_owned()),
        enum_values,
        enum_names: Some(enum_names),
    };
    let mut properties: Vec<(String, PrimitiveSchema)> = Vec::new();
    properties.push(("choice".to_owned(), prop));
    let mut required: Vec<String> = Vec::new();
    required.push("choice".to_owned());
    let r = ElicitationSchema { properties, required: Some(required) };
    proof {
        let m = permission_schema_model();
        assert(r.model().properties[0].1->Choice_enum_values =~= m.properties[0].1
            ->Choice_enum_values);
        assert(r.model().properties[0].1->Choice_enum_names->0 =~= m.properties[0].1
            ->Choice_enum_names->0);
        assert(r.model().properties[0].1 =~~= m.properties[0].1);
        assert(r.model().properties =~~= m.properties);
        assert(r.model().required->0 =~= m.required->0);
        assert(r.model() =~~= m);
    }
    r
}

} // verus!
