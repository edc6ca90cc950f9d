//! The data model: a record declaration as handed over by the host
//! toolchain, and the normalized form the Reader produces from it.

use vstd::prelude::*;

verus! {

/// The ghost model of one normalized field: its name and the source text of
/// its type.
pub struct FieldModel {
    pub name: Seq<char>,
    pub ty: Seq<char>,
}

/// One normalized field of a record: a name (verbatim for a named field,
/// synthesized for a positional one) and the source text of the field's
/// type.
#[derive(Debug, PartialEq, Eq)]
pub struct NormalizedField {
    pub name: String,
    pub ty: String,
}

impl View for NormalizedField {
    type V = FieldModel;

    open spec fn view(&self) -> FieldModel {
        FieldModel { name: self.name@, ty: self.ty@ }
    }
}

impl DeepView for NormalizedField {
    type V = FieldModel;

    open spec fn deep_view(&self) -> FieldModel {
        self@
    }
}

/// The shape of a record declaration's fields.
pub enum FieldShape {
    /// Named fields, each a `(name, type-text)` pair, in declaration order.
    NamedFields(Vec<(String, String)>),
    /// Positional fields: the type texts only, in declaration order.
    PositionalFields(Vec<String>),
    /// A record declared without any field list.
    NoFields,
    /// Any other kind of declaration (an enumeration, a union).
    Unsupported,
}

/// A record declaration: its name and the shape of its fields.
pub struct RecordDescription {
    pub name: String,
    pub shape: FieldShape,
}

/// The error generation can signal: the record's shape is not one of the
/// supported variants, so no bundle is produced.
#[derive(Clone, Copy, Debug, PartialEq, Eq, Structural)]
pub enum DeriveError {
    UnsupportedShape,
}

} // verus!
