//! Plain-value forms of the span and event payloads that cross the bridge.
//!
//! The native framework hands the bridge opaque metadata and field-visitor
//! structures; the adapter works on these plain types instead, so that the
//! serialization layer and the protocol rules can be stated and checked over
//! mathematical views.

use vstd::prelude::*;

verus! {

/// Severity level of a span or event.
#[derive(Clone, Copy, PartialEq, Eq, Structural, Debug)]
pub enum Level {
    Trace,
    Debug,
    Info,
    Warn,
    Error,
}

/// A single recorded field value. Values recorded through the framework's
/// debug formatting arrive here already rendered as text.
#[derive(Clone, Debug)]
pub enum FieldValue {
    U64(u64),
    I64(i64),
    Bool(bool),
    Str(String),
}

/// Mathematical view of a field value.
pub enum FieldValueV {
    U64(u64),
    I64(i64),
    Bool(bool),
    Str(Seq<char>),
}

impl View for FieldValue {
    type V = FieldValueV;

    open spec fn view(&self) -> FieldValueV {
        match self {
            FieldValue::U64(n) => FieldValueV::U64(*n),
            FieldValue::I64(n) => FieldValueV::I64(*n),
            FieldValue::Bool(b) => FieldValueV::Bool(*b),
            FieldValue::Str(s) => FieldValueV::Str(s@),
        }
    }
}

/// Static description of a span or event: severity, name, and the names of
/// the fields it declares.
#[derive(Clone, Debug)]
pub struct Metadata {
    pub level: Level,
    pub name: String,
    pub field_names: Vec<String>,
}

/// Mathematical view of a metadata record.
pub struct MetadataV {
    pub level: Level,
    pub name: Seq<char>,
    pub field_names: Seq<Seq<char>>,
}

impl View for Metadata {
    type V = MetadataV;

    open spec fn view(&self) -> MetadataV {
        MetadataV {
            level: self.level,
            name: self.name@,
            field_names: self.field_names@.map_values(|s: String| s@),
        }
    }
}

/// View of a list of named field values.
pub open spec fn spec_pairs(values: Seq<(String, FieldValue)>) -> Seq<(Seq<char>, FieldValueV)> {
    values.map_values(|p: (String, FieldValue)| (p.0@, p.1@))
}

/// A point-in-time record: its message, its metadata, and the values of any
/// further fields it carries.
#[derive(Clone, Debug)]
pub struct EventData {
    pub message: String,
    pub metadata: Metadata,
    pub values: Vec<(String, FieldValue)>,
}

/// Mathematical view of an event record.
pub struct EventDataV {
    pub message: Seq<char>,
    pub metadata: MetadataV,
    pub values: Seq<(Seq<char>, FieldValueV)>,
}

impl View for EventData {
    type V = EventDataV;

    open spec fn view(&self) -> EventDataV {
        EventDataV { message: self.message@, metadata: self.metadata@, values: spec_pairs(self.values@) }
    }
}

/// The data a span is created with: its metadata and the field values that
/// were present at creation.
#[derive(Clone, Debug)]
pub struct SpanAttributes {
    pub metadata: Metadata,
    pub values: Vec<(String, FieldValue)>,
}

/// Mathematical view of span-creation attributes.
pub struct SpanAttributesV {
    pub metadata: MetadataV,
    pub values: Seq<(Seq<char>, FieldValueV)>,
}

impl View for SpanAttributes {
    type V = SpanAttributesV;

    open spec fn view(&self) -> SpanAttributesV {
        SpanAttributesV { metadata: self.metadata@, values: spec_pairs(self.values@) }
    }
}

/// Field values recorded on an already-created span.
#[derive(Clone, Debug)]
pub struct RecordValues {
    pub values: Vec<(String, FieldValue)>,
}

/// Mathematical view of a record delta.
pub struct RecordValuesV {
    pub values: Seq<(Seq<char>, FieldValueV)>,
}

impl View for RecordValues {
    type V = RecordValuesV;

    open spec fn view(&self) -> RecordValuesV {
        RecordValuesV { values: spec_pairs(self.values@) }
    }
}

} // verus!
